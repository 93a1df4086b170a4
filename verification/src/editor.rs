//! The painting engine: four image resources and the per-frame operations.
//!
//! An `Editor` owns the CPU model of the Original, Base, Working and Stencil
//! buffers, the tracked GPU layout of each, and the export coordinator.  One
//! call to `frame` consumes the frame's `BrushState`, carries out the
//! triggered composition operations and the paint dispatch on the model, and
//! records the exact GPU command list — with every copy, clear and dispatch
//! framed by the layout transitions the barrier protocol demands — for the
//! device layer to replay.  The whole effect of a frame on the model is the
//! spec function `frame_spec`, and the testable laws of the engine are
//! proved over it.

use vstd::prelude::*;
use crate::color::{srgb_to_linear, srgb_to_linear_spec, srgb8_widen, LINEAR_ONE};
use crate::gpu::{
    cmds_apply, cmds_ok, count_readbacks, AccessMask, CmdRecorder, GpuCmd, ImageId, ImgLayout,
    LayoutState, StageMask,
};
use crate::input::{BrushState, Tool};
use crate::kernel::{dispatch_kernel, kernel_stencil, kernel_working, params_wf};
use crate::params::{DispatchParams, TOOL_DRAW, TOOL_WEIGHT};

verus! {

/// The steady layout state between frames.
pub open spec fn steady_layouts() -> LayoutState {
    LayoutState {
        original: ImgLayout::General,
        base: ImgLayout::General,
        working: ImgLayout::ShaderReadOnly,
        stencil: ImgLayout::General,
    }
}

/// The layout state right after resource allocation.
pub open spec fn undefined_layouts() -> LayoutState {
    LayoutState {
        original: ImgLayout::Undefined,
        base: ImgLayout::Undefined,
        working: ImgLayout::Undefined,
        stencil: ImgLayout::Undefined,
    }
}

/// A sequence of `n` zero bytes.
pub open spec fn zero_seq(n: nat) -> Seq<u8> {
    Seq::new(n, |i: int| 0u8)
}

/// The mathematical state of an editing session.
pub struct EditorModel {
    /// Image width in pixels.
    pub width: int,
    /// Image height in pixels.
    pub height: int,
    /// Ground-truth pixel bytes (RGBA, linear light), written once.
    pub original: Seq<u8>,
    /// The last flattened result.
    pub base: Seq<u8>,
    /// The in-progress stroke on top of Base.
    pub working: Seq<u8>,
    /// Per-texel stroke marks.
    pub stencil: Seq<u8>,
    /// Tracked GPU layout of the four images.
    pub layouts: LayoutState,
    /// Export requests accepted but not yet started.
    pub export_queued: int,
    /// The Base snapshot of the readback in flight, if one is.
    pub export_pending: Option<Seq<u8>>,
    /// Snapshots of completed exports, oldest first.
    pub export_log: Seq<Seq<u8>>,
}

impl EditorModel {
    /// Consistent dimensions, matching buffer lengths, steady layouts and a
    /// sane export queue.
    pub open spec fn wf(self) -> bool {
        &&& 1 <= self.width <= 4096
        &&& 1 <= self.height <= 4096
        &&& self.original.len() == self.width * self.height * 4
        &&& self.base.len() == self.width * self.height * 4
        &&& self.working.len() == self.width * self.height * 4
        &&& self.stencil.len() == self.width * self.height
        &&& self.layouts == steady_layouts()
        &&& 0 <= self.export_queued
    }
}

/// Reset: Base and Working are restored from Original.
pub open spec fn reset_spec(m: EditorModel) -> EditorModel {
    EditorModel { base: m.original, working: m.original, ..m }
}

/// Merge: the stencil is cleared and Working is flattened into Base;
/// Working itself is unchanged.
pub open spec fn merge_spec(m: EditorModel) -> EditorModel {
    EditorModel { stencil: zero_seq(m.stencil.len()), base: m.working, ..m }
}

/// Stroke start: the stencil is cleared.
pub open spec fn clear_stencil_spec(m: EditorModel) -> EditorModel {
    EditorModel { stencil: zero_seq(m.stencil.len()), ..m }
}

/// Paint: one kernel dispatch over Working and Stencil.
pub open spec fn paint_spec(m: EditorModel, p: DispatchParams) -> EditorModel {
    EditorModel {
        working: kernel_working(m.working, m.stencil, p, m.width),
        stencil: kernel_stencil(m.stencil, p, m.width),
        ..m
    }
}

/// An export request joins the queue.
pub open spec fn queue_export_spec(m: EditorModel) -> EditorModel {
    EditorModel { export_queued: m.export_queued + 1, ..m }
}

/// A queued export may start when no readback is in flight.
pub open spec fn can_start_export(m: EditorModel) -> bool {
    m.export_pending is None && m.export_queued > 0
}

/// Starting an export: a snapshot of Base goes in flight.
pub open spec fn start_export_spec(m: EditorModel) -> EditorModel {
    EditorModel {
        export_queued: m.export_queued - 1,
        export_pending: Some(m.base),
        ..m
    }
}

/// Completing an export: the in-flight snapshot moves to the log.
pub open spec fn finish_export_spec(m: EditorModel) -> EditorModel {
    EditorModel { export_pending: None, export_log: m.export_log.push(m.export_pending->0), ..m }
}

/// The dispatch parameters built from a frame's brush state: the trailing
/// cursor segment, the weight anchors, the tool index, and the panel color
/// decoded from sRGB to linear light with opaque alpha.
pub open spec fn brush_params_spec(b: BrushState) -> DispatchParams {
    DispatchParams {
        color_r: srgb_to_linear_spec(srgb8_widen(b.color_r)) as u64,
        color_g: srgb_to_linear_spec(srgb8_widen(b.color_g)) as u64,
        color_b: srgb_to_linear_spec(srgb8_widen(b.color_b)) as u64,
        color_a: LINEAR_ONE,
        cursor_ax: b.prev_x,
        cursor_ay: b.prev_y,
        cursor_bx: b.cursor_x,
        cursor_by: b.cursor_y,
        weight_ax: b.weight_ax,
        weight_ay: b.weight_ay,
        weight_bx: b.weight_bx,
        weight_by: b.weight_by,
        tool: if b.tool == Tool::Weight {
            TOOL_WEIGHT
        } else {
            TOOL_DRAW
        },
    }
}

/// Whether a frame with brush state `b` starts a readback.
pub open spec fn frame_starts_export(m: EditorModel, b: BrushState) -> bool {
    !b.reset_requested && can_start_export(
        if b.export_requested {
            queue_export_spec(m)
        } else {
            m
        },
    )
}

/// The whole effect of one frame on the model.
///
/// A frame with a reset request performs the reset alone and ends.  Any
/// other frame first accepts an export request into the queue and starts the
/// readback if none is in flight, then merges if requested, then clears the
/// stencil on a stroke start, then paints if a stroke is active.
pub open spec fn frame_spec(m: EditorModel, b: BrushState) -> EditorModel {
    if b.reset_requested {
        reset_spec(m)
    } else {
        let m1 = if b.export_requested {
            queue_export_spec(m)
        } else {
            m
        };
        let m2 = if can_start_export(m1) {
            start_export_spec(m1)
        } else {
            m1
        };
        let m3 = if b.merge_requested {
            merge_spec(m2)
        } else {
            m2
        };
        let m4 = if b.starts_stroke() {
            clear_stencil_spec(m3)
        } else {
            m3
        };
        if b.paints() {
            paint_spec(m4, brush_params_spec(b))
        } else {
            m4
        }
    }
}

/// Copies a byte buffer.
fn copy_bytes(src: &Vec<u8>) -> (r: Vec<u8>)
    ensures
        r@ == src@,
{
    let n = src.len();
    let mut out: Vec<u8> = Vec::new();
    let mut i: usize = 0;
    while i < n
        invariant
            i <= n,
            n == src@.len(),
            out@ =~= src@.take(i as int),
        decreases n - i,
    {
        out.push(src[i]);
        i = i + 1;
    }
    proof {
        assert(out@ =~= src@);
    }
    out
}

/// A buffer of `n` zero bytes.
fn zero_bytes(n: usize) -> (r: Vec<u8>)
    ensures
        r@ == zero_seq(n as nat),
{
    let mut out: Vec<u8> = Vec::new();
    let mut i: usize = 0;
    while i < n
        invariant
            i <= n,
            out@.len() == i,
            forall|j: int| 0 <= j < i ==> out@[j] == 0u8,
        decreases n - i,
    {
        out.push(0u8);
        i = i + 1;
    }
    proof {
        assert(out@ =~= zero_seq(n as nat));
    }
    out
}

/// Builds the frame's dispatch parameters from its brush state.
pub fn params_from_brush(b: &BrushState) -> (p: DispatchParams)
    requires
        b.wf(),
    ensures
        p == brush_params_spec(*b),
        params_wf(p),
{
    let sr = (b.color_r as u64) * crate::color::SRGB_ONE / 255;
    let sg = (b.color_g as u64) * crate::color::SRGB_ONE / 255;
    let sb = (b.color_b as u64) * crate::color::SRGB_ONE / 255;
    proof {
        vstd::arithmetic::div_mod::lemma_div_is_ordered(
            (b.color_r as int) * (crate::color::SRGB_ONE as int),
            255 * (crate::color::SRGB_ONE as int),
            255,
        );
        vstd::arithmetic::div_mod::lemma_div_is_ordered(
            (b.color_g as int) * (crate::color::SRGB_ONE as int),
            255 * (crate::color::SRGB_ONE as int),
            255,
        );
        vstd::arithmetic::div_mod::lemma_div_is_ordered(
            (b.color_b as int) * (crate::color::SRGB_ONE as int),
            255 * (crate::color::SRGB_ONE as int),
            255,
        );
    }
    DispatchParams {
        color_r: srgb_to_linear(sr),
        color_g: srgb_to_linear(sg),
        color_b: srgb_to_linear(sb),
        color_a: LINEAR_ONE,
        cursor_ax: b.prev_x,
        cursor_ay: b.prev_y,
        cursor_bx: b.cursor_x,
        cursor_by: b.cursor_y,
        weight_ax: b.weight_ax,
        weight_ay: b.weight_ay,
        weight_bx: b.weight_bx,
        weight_by: b.weight_by,
        tool: if b.tool == Tool::Weight {
            TOOL_WEIGHT
        } else {
            TOOL_DRAW
        },
    }
}

/// An editing session: the four pixel buffers, their tracked layouts, and
/// the export coordinator.
pub struct Editor {
    width: usize,
    height: usize,
    original: Vec<u8>,
    base: Vec<u8>,
    working: Vec<u8>,
    stencil: Vec<u8>,
    layouts: LayoutState,
    export_queued: usize,
    export_pending: Option<Vec<u8>>,
    export_log: Ghost<Seq<Seq<u8>>>,
}

impl View for Editor {
    type V = EditorModel;

    closed spec fn view(&self) -> EditorModel {
        EditorModel {
            width: self.width as int,
            height: self.height as int,
            original: self.original@,
            base: self.base@,
            working: self.working@,
            stencil: self.stencil@,
            layouts: self.layouts,
            export_queued: self.export_queued as int,
            export_pending: match self.export_pending {
                Some(v) => Some(v@),
                None => None,
            },
            export_log: self.export_log@,
        }
    }
}

/// Allocated but not yet initialized resources: the two-state lifecycle
/// makes a missing upload unrepresentable — only `initialize_from_pixels`
/// yields a ready `Editor`.
pub struct EditorSetup {
    width: usize,
    height: usize,
}

impl EditorSetup {
    /// The chosen width.
    pub closed spec fn width_spec(self) -> int {
        self.width as int
    }

    /// The chosen height.
    pub closed spec fn height_spec(self) -> int {
        self.height as int
    }

    /// Allocates the four image resources, all in Undefined layout, with
    /// identical dimensions.
    pub fn create(width: usize, height: usize) -> (s: EditorSetup)
        requires
            1 <= width <= 4096,
            1 <= height <= 4096,
        ensures
            s.width_spec() == width,
            s.height_spec() == height,
    {
        EditorSetup { width, height }
    }

    /// Uploads the decoded (linear-light) pixel data into Original, Base and
    /// Working, clears the Stencil, and transitions every image to its
    /// steady layout: the recorded command list performs the staging-buffer
    /// uploads and transitions starting from all-Undefined.
    pub fn initialize_from_pixels(self, pixels: Vec<u8>) -> (r: (Editor, Vec<GpuCmd>))
        requires
            1 <= self.width_spec() <= 4096,
            1 <= self.height_spec() <= 4096,
            pixels@.len() == self.width_spec() * self.height_spec() * 4,
        ensures
            r.0.wf(),
            r.0@.width == self.width_spec(),
            r.0@.height == self.height_spec(),
            r.0@.original == pixels@,
            r.0@.base == pixels@,
            r.0@.working == pixels@,
            r.0@.stencil == zero_seq((self.width_spec() * self.height_spec()) as nat),
            r.0@.export_queued == 0,
            r.0@.export_pending is None,
            r.0@.export_log == Seq::<Seq<u8>>::empty(),
            cmds_ok(r.1@, undefined_layouts()),
            cmds_apply(r.1@, undefined_layouts()) == steady_layouts(),
    {
        let mut rec = CmdRecorder::new(
            LayoutState {
                original: ImgLayout::Undefined,
                base: ImgLayout::Undefined,
                working: ImgLayout::Undefined,
                stencil: ImgLayout::Undefined,
            },
        );
        rec.barrier(
            ImageId::Original,
            ImgLayout::Undefined,
            ImgLayout::TransferDst,
            StageMask::TopOfPipe,
            StageMask::Transfer,
            AccessMask::NoAccess,
            AccessMask::TransferWrite,
        );
        rec.barrier(
            ImageId::Base,
            ImgLayout::Undefined,
            ImgLayout::TransferDst,
            StageMask::TopOfPipe,
            StageMask::Transfer,
            AccessMask::NoAccess,
            AccessMask::TransferWrite,
        );
        rec.barrier(
            ImageId::Working,
            ImgLayout::Undefined,
            ImgLayout::TransferDst,
            StageMask::TopOfPipe,
            StageMask::Transfer,
            AccessMask::NoAccess,
            AccessMask::TransferWrite,
        );
        rec.copy_buffer_to_image(ImageId::Original);
        rec.copy_buffer_to_image(ImageId::Base);
        rec.copy_buffer_to_image(ImageId::Working);
        rec.barrier(
            ImageId::Stencil,
            ImgLayout::Undefined,
            ImgLayout::General,
            StageMask::TopOfPipe,
            StageMask::Transfer,
            AccessMask::NoAccess,
            AccessMask::TransferWrite,
        );
        rec.clear_image(ImageId::Stencil);
        rec.barrier(
            ImageId::Original,
            ImgLayout::TransferDst,
            ImgLayout::General,
            StageMask::Transfer,
            StageMask::Transfer,
            AccessMask::TransferWrite,
            AccessMask::TransferRead,
        );
        rec.barrier(
            ImageId::Base,
            ImgLayout::TransferDst,
            ImgLayout::General,
            StageMask::Transfer,
            StageMask::Transfer,
            AccessMask::TransferWrite,
            AccessMask::TransferRead,
        );
        rec.barrier(
            ImageId::Working,
            ImgLayout::TransferDst,
            ImgLayout::ShaderReadOnly,
            StageMask::Transfer,
            StageMask::BottomOfPipe,
            AccessMask::TransferWrite,
            AccessMask::NoAccess,
        );
        let base = copy_bytes(&pixels);
        let working = copy_bytes(&pixels);
        proof {
            assert(self.width * self.height <= 0x1000000) by (nonlinear_arith)
                requires
                    self.width <= 4096,
                    self.height <= 4096,
            ;
        }
        let stencil = zero_bytes(self.width * self.height);
        let ed = Editor {
            width: self.width,
            height: self.height,
            original: pixels,
            base,
            working,
            stencil,
            layouts: LayoutState {
                original: ImgLayout::General,
                base: ImgLayout::General,
                working: ImgLayout::ShaderReadOnly,
                stencil: ImgLayout::General,
            },
            export_queued: 0,
            export_pending: None,
            export_log: Ghost(Seq::empty()),
        };
        (ed, rec.finish())
    }
}

impl Editor {
    /// The session invariant: the model is well-formed.
    pub open spec fn wf(&self) -> bool {
        self@.wf()
    }

    /// Image width in pixels.
    pub fn width(&self) -> (r: usize)
        ensures
            r == self@.width,
    {
        self.width
    }

    /// Image height in pixels.
    pub fn height(&self) -> (r: usize)
        ensures
            r == self@.height,
    {
        self.height
    }

    /// The Base pixel bytes (linear light): what an export writes out.
    pub fn base_data(&self) -> (r: &Vec<u8>)
        ensures
            r@ == self@.base,
    {
        &self.base
    }

    /// The Working pixel bytes (linear light): what is displayed.
    pub fn working_data(&self) -> (r: &Vec<u8>)
        ensures
            r@ == self@.working,
    {
        &self.working
    }

    /// The Original pixel bytes (linear light): the ground truth.
    pub fn original_data(&self) -> (r: &Vec<u8>)
        ensures
            r@ == self@.original,
    {
        &self.original
    }

    /// The stencil marks, one byte per texel.
    pub fn stencil_data(&self) -> (r: &Vec<u8>)
        ensures
            r@ == self@.stencil,
    {
        &self.stencil
    }

    /// Whether a readback is in flight (its completion callback has not run).
    pub fn export_in_flight(&self) -> (r: bool)
        ensures
            r == (self@.export_pending is Some),
    {
        self.export_pending.is_some()
    }

    /// How many export requests wait for the in-flight readback to finish.
    pub fn exports_queued(&self) -> (r: usize)
        ensures
            r == self@.export_queued,
    {
        self.export_queued
    }

    /// Runs one frame: performs the operations triggered by `b` on the
    /// model — exactly `frame_spec` — and records the GPU command list,
    /// legal under the barrier protocol from the steady layout state and
    /// returning every image to it (Working ends in ShaderReadOnly for the
    /// display read), with a readback command exactly when a readback
    /// starts, and with the parameter push, the storage bindings at slots
    /// 0/1/2 and a full-extent dispatch whenever a stroke paints.
    pub fn frame(&mut self, b: &BrushState) -> (cmds: Vec<GpuCmd>)
        requires
            old(self).wf(),
            b.wf(),
            old(self)@.export_queued < 0xffff_ffff,
        ensures
            final(self).wf(),
            final(self)@ == frame_spec(old(self)@, *b),
            cmds_ok(cmds@, steady_layouts()),
            cmds_apply(cmds@, steady_layouts()) == steady_layouts(),
            count_readbacks(cmds@) == if frame_starts_export(old(self)@, *b) {
                1int
            } else {
                0int
            },
            b.paints() && !b.reset_requested ==> exists|i: int|
                0 <= i < cmds@.len() && cmds@[i] == GpuCmd::PushParams(brush_params_spec(*b)),
            b.paints() && !b.reset_requested ==> exists|i: int|
                0 <= i < cmds@.len() && cmds@[i] == (GpuCmd::BindStorage {
                    slot0: ImageId::Base,
                    slot1: ImageId::Working,
                    slot2: ImageId::Stencil,
                }),
            b.paints() && !b.reset_requested ==> exists|i: int|
                #[trigger] cmds@[i] matches GpuCmd::Dispatch { groups_x, groups_y } && 0 <= i
                    < cmds@.len() && groups_x * 16 >= old(self)@.width && groups_y * 16 >= old(
                    self,
                )@.height,
    {
        let ghost m0 = self@;
        let ghost mut gi_params: int = 0;
        let ghost mut gi_bind: int = 0;
        let ghost mut gi_disp: int = 0;
        let mut rec = CmdRecorder::new(self.layouts);
        if b.reset_requested {
            rec.copy_image(ImageId::Original, ImageId::Base);
            rec.barrier(
                ImageId::Working,
                ImgLayout::ShaderReadOnly,
                ImgLayout::TransferDst,
                StageMask::TopOfPipe,
                StageMask::Transfer,
                AccessMask::NoAccess,
                AccessMask::TransferWrite,
            );
            rec.copy_image(ImageId::Original, ImageId::Working);
            rec.barrier(
                ImageId::Working,
                ImgLayout::TransferDst,
                ImgLayout::ShaderReadOnly,
                StageMask::Transfer,
                StageMask::BottomOfPipe,
                AccessMask::TransferWrite,
                AccessMask::NoAccess,
            );
            self.base = copy_bytes(&self.original);
            self.working = copy_bytes(&self.original);
            let cmds = rec.finish();
            proof {
                assert(self@ == frame_spec(m0, *b));
            }
            return cmds;
        }
        if b.export_requested {
            self.export_queued = self.export_queued + 1;
        }
        if self.export_pending.is_none() && self.export_queued > 0 {
            self.export_queued = self.export_queued - 1;
            self.export_pending = Some(copy_bytes(&self.base));
            rec.barrier(
                ImageId::Base,
                ImgLayout::General,
                ImgLayout::TransferSrc,
                StageMask::TopOfPipe,
                StageMask::Transfer,
                AccessMask::NoAccess,
                AccessMask::TransferRead,
            );
            rec.copy_image_to_buffer(ImageId::Base);
            rec.barrier(
                ImageId::Base,
                ImgLayout::TransferSrc,
                ImgLayout::General,
                StageMask::Transfer,
                StageMask::Transfer,
                AccessMask::TransferRead,
                AccessMask::TransferWrite,
            );
        }
        if b.merge_requested {
            rec.clear_image(ImageId::Stencil);
            rec.barrier(
                ImageId::Working,
                ImgLayout::ShaderReadOnly,
                ImgLayout::TransferSrc,
                StageMask::TopOfPipe,
                StageMask::Transfer,
                AccessMask::NoAccess,
                AccessMask::TransferRead,
            );
            rec.copy_image(ImageId::Working, ImageId::Base);
            rec.barrier(
                ImageId::Working,
                ImgLayout::TransferSrc,
                ImgLayout::ShaderReadOnly,
                StageMask::Transfer,
                StageMask::BottomOfPipe,
                AccessMask::TransferRead,
                AccessMask::NoAccess,
            );
            proof {
                assert(self.width * self.height <= 0x1000000) by (nonlinear_arith)
                    requires
                        self.width <= 4096,
                        self.height <= 4096,
                ;
            }
            self.stencil = zero_bytes(self.width * self.height);
            self.base = copy_bytes(&self.working);
        }
        let starts = b.pressed && b.in_scene && !b.space_held && !b.compute_only;
        if starts {
            rec.clear_image(ImageId::Stencil);
            proof {
                assert(self.width * self.height <= 0x1000000) by (nonlinear_arith)
                    requires
                        self.width <= 4096,
                        self.height <= 4096,
                ;
            }
            self.stencil = zero_bytes(self.width * self.height);
        }
        let paints = b.held && b.in_scene && !b.space_held && !b.compute_only;
        if paints {
            let p = params_from_brush(b);
            rec.barrier(
                ImageId::Working,
                ImgLayout::ShaderReadOnly,
                ImgLayout::General,
                StageMask::TopOfPipe,
                StageMask::ComputeShader,
                AccessMask::NoAccess,
                AccessMask::ShaderWrite,
            );
            rec.bind_pipeline();
            rec.push_params(p);
            proof {
                gi_params = rec.recorded().len() - 1;
            }
            rec.bind_storage(ImageId::Base, ImageId::Working, ImageId::Stencil);
            proof {
                gi_bind = rec.recorded().len() - 1;
            }
            let gx = ((self.width + 15) / 16) as u32;
            let gy = ((self.height + 15) / 16) as u32;
            rec.dispatch(gx, gy);
            proof {
                gi_disp = rec.recorded().len() - 1;
            }
            rec.barrier(
                ImageId::Working,
                ImgLayout::General,
                ImgLayout::ShaderReadOnly,
                StageMask::ComputeShader,
                StageMask::BottomOfPipe,
                AccessMask::ShaderWrite,
                AccessMask::NoAccess,
            );
            let w = self.width;
            let h = self.height;
            dispatch_kernel(&mut self.working, &mut self.stencil, &p, w, h);
        }
        let cmds = rec.finish();
        proof {
            assert(self@ == frame_spec(m0, *b));
            if b.paints() {
                assert(cmds@[gi_params] == GpuCmd::PushParams(brush_params_spec(*b)));
                assert(cmds@[gi_bind] == (GpuCmd::BindStorage {
                    slot0: ImageId::Base,
                    slot1: ImageId::Working,
                    slot2: ImageId::Stencil,
                }));
                assert(cmds@[gi_disp] matches GpuCmd::Dispatch { groups_x, groups_y } && groups_x
                    * 16 >= m0.width && groups_y * 16 >= m0.height);
            }
        }
        cmds
    }


    /// Consumes the finished readback: called once the device layer has
    /// observed the completion of the export's command buffer.  Returns the
    /// exported Base snapshot (linear light), which the caller gamma-encodes
    /// and writes to disk.
    pub fn finish_export(&mut self) -> (data: Vec<u8>)
        requires
            old(self).wf(),
            old(self)@.export_pending is Some,
        ensures
            final(self).wf(),
            final(self)@ == finish_export_spec(old(self)@),
            data@ == old(self)@.export_pending->0,
    {
        let taken = self.export_pending.take();
        match taken {
            Some(v) => {
                proof {
                    self.export_log@ = self.export_log@.push(v@);
                }
                v
            },
            None => {
                proof {
                    assert(false);
                }
                Vec::new()
            },
        }
    }
}

/// No frame ever changes Original: it is written once at initialization and
/// is the ground truth for Reset.
pub proof fn lemma_frame_preserves_original(m: EditorModel, b: BrushState)
    ensures
        frame_spec(m, b).original == m.original,
        frame_spec(m, b).width == m.width,
        frame_spec(m, b).height == m.height,
{
}

/// The model after a whole sequence of frames.
pub open spec fn apply_frames(m: EditorModel, bs: Seq<BrushState>) -> EditorModel
    decreases bs.len(),
{
    if bs.len() == 0 {
        m
    } else {
        apply_frames(frame_spec(m, bs[0]), bs.skip(1))
    }
}

/// Original survives any sequence of frames.
pub proof fn lemma_frames_preserve_original(m: EditorModel, bs: Seq<BrushState>)
    ensures
        apply_frames(m, bs).original == m.original,
    decreases bs.len(),
{
    if bs.len() > 0 {
        lemma_frame_preserves_original(m, bs[0]);
        lemma_frames_preserve_original(frame_spec(m, bs[0]), bs.skip(1));
    }
}

/// Reset idempotence: after any sequence of frames — strokes, merges,
/// exports in any order — a frame with a reset request leaves Base and
/// Working byte-identical to the session's Original.
pub proof fn lemma_reset_restores_original(m: EditorModel, bs: Seq<BrushState>, br: BrushState)
    requires
        br.reset_requested,
    ensures
        frame_spec(apply_frames(m, bs), br).base == m.original,
        frame_spec(apply_frames(m, bs), br).working == m.original,
        frame_spec(apply_frames(m, bs), br).original == m.original,
{
    lemma_frames_preserve_original(m, bs);
    lemma_frame_preserves_original(apply_frames(m, bs), br);
}

/// Merge flattening: a frame with a merge request (and no reset) makes Base
/// equal to Working as it stood at the moment of the merge, leaves Original
/// untouched, and a subsequent reset frame still restores Original.
pub proof fn lemma_merge_flattens(m: EditorModel, b: BrushState, br: BrushState)
    requires
        b.merge_requested,
        !b.reset_requested,
        br.reset_requested,
    ensures
        frame_spec(m, b).base == m.working,
        frame_spec(m, b).original == m.original,
        frame_spec(frame_spec(m, b), br).base == m.original,
        frame_spec(frame_spec(m, b), br).working == m.original,
{
}


/// How many exports a model holds that are not yet completed: waiting in
/// the queue or in flight.
pub open spec fn exports_outstanding(m: EditorModel) -> int {
    m.export_queued + if m.export_pending is Some {
        1int
    } else {
        0int
    }
}

/// Export requests are never dropped: a frame adds an accepted request to
/// the outstanding count and completes none, and only `finish_export`
/// moves one to the log.
pub proof fn lemma_export_requests_conserved(m: EditorModel, b: BrushState)
    ensures
        exports_outstanding(frame_spec(m, b)) == exports_outstanding(m) + (
        if b.export_requested && !b.reset_requested {
            1int
        } else {
            0int
        }),
        frame_spec(m, b).export_log == m.export_log,
{
}

/// Export concurrency bound: two export requests in consecutive frames,
/// starting with nothing queued or in flight, put exactly one readback in
/// flight — the first request's Base — while the second waits in the queue;
/// once the first completes, the next frame starts the second readback, and
/// after both completions the log holds both snapshots in request order.
pub proof fn lemma_export_single_in_flight(
    m: EditorModel,
    b1: BrushState,
    b2: BrushState,
    b3: BrushState,
)
    requires
        m.export_pending is None,
        m.export_queued == 0,
        b1.export_requested,
        !b1.reset_requested,
        b2.export_requested,
        !b2.reset_requested,
        !b3.export_requested,
        !b3.reset_requested,
    ensures
        ({
            let m1 = frame_spec(m, b1);
            let m2 = frame_spec(m1, b2);
            let m3 = finish_export_spec(m2);
            let m4 = frame_spec(m3, b3);
            let m5 = finish_export_spec(m4);
            // the first request starts its readback at once
            &&& m1.export_pending == Some(m.base)
            &&& m1.export_queued == 0
            // the second request defers: still exactly the first in flight
            &&& m2.export_pending == Some(m.base)
            &&& m2.export_queued == 1
            &&& frame_starts_export(m1, b2) == false
            // after the first completion, the next frame starts the second
            &&& m3.export_pending is None
            &&& m4.export_pending == Some(m2.base)
            &&& m4.export_queued == 0
            &&& frame_starts_export(m3, b3) == true
            // both are written, oldest first, in request order
            &&& m5.export_log == m.export_log + seq![m.base, m2.base]
        }),
{
    let m1 = frame_spec(m, b1);
    let m2 = frame_spec(m1, b2);
    let m3 = finish_export_spec(m2);
    let m4 = frame_spec(m3, b3);
    let m5 = finish_export_spec(m4);
    assert(m5.export_log =~= m.export_log + seq![m.base, m2.base]);
}

} // verus!
