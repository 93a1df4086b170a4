//! GPU command planning and the layout/barrier protocol.
//!
//! Every frame the engine records a list of `GpuCmd` values that an external
//! device layer replays verbatim.  An image may only be copied, cleared,
//! bound as storage or sampled while it is in the matching layout, and the
//! only way to change a layout is an explicit `Barrier` command.  The
//! predicate `cmds_ok` is an interpreter over a command list that tracks the
//! layout of each of the four images and checks that rule at every step; the
//! `CmdRecorder` below is the single choke point through which commands are
//! recorded, and it maintains `cmds_ok` by construction.

use vstd::prelude::*;
use crate::params::DispatchParams;

verus! {

/// One of the four image resources of an editing session.
#[derive(Clone, Copy, PartialEq, Eq, Structural, Debug)]
pub enum ImageId {
    /// Ground truth, written once at initialization.
    Original,
    /// The last merged (flattened) result; what Export reads.
    Base,
    /// The in-progress stroke on top of Base; what is displayed.
    Working,
    /// Per-texel "already painted this stroke" marks.
    Stencil,
}

/// The GPU-visible layout state of an image.
#[derive(Clone, Copy, PartialEq, Eq, Structural, Debug)]
pub enum ImgLayout {
    /// Freshly allocated, contents undefined.
    Undefined,
    /// Destination of transfer (copy/clear) operations.
    TransferDst,
    /// Source of transfer operations.
    TransferSrc,
    /// Read-write storage access, also valid for transfers.
    General,
    /// Sampled reads by the display layer.
    ShaderReadOnly,
}

/// Pipeline stage named in a barrier.
#[derive(Clone, Copy, PartialEq, Eq, Structural, Debug)]
pub enum StageMask {
    /// The start of the pipeline.
    TopOfPipe,
    /// Transfer (copy/clear) operations.
    Transfer,
    /// Compute shader execution.
    ComputeShader,
    /// The end of the pipeline.
    BottomOfPipe,
}

/// Memory access kind named in a barrier.
#[derive(Clone, Copy, PartialEq, Eq, Structural, Debug)]
pub enum AccessMask {
    /// No access.
    NoAccess,
    /// Transfer reads.
    TransferRead,
    /// Transfer writes.
    TransferWrite,
    /// Shader reads.
    ShaderRead,
    /// Shader writes.
    ShaderWrite,
}

/// One layout transition: exactly one synchronization command.
#[derive(Clone, Copy, PartialEq, Eq, Structural, Debug)]
pub struct BarrierInfo {
    /// The image transitioned.
    pub image: ImageId,
    /// Layout before the barrier.
    pub from: ImgLayout,
    /// Layout after the barrier.
    pub to: ImgLayout,
    /// Stage whose prior work the barrier waits on.
    pub src_stage: StageMask,
    /// Stage whose later work the barrier blocks.
    pub dst_stage: StageMask,
    /// Accesses made available by the barrier.
    pub src_access: AccessMask,
    /// Accesses made visible by the barrier.
    pub dst_access: AccessMask,
}

/// One recorded GPU command.
#[derive(Clone, Copy, PartialEq, Eq, Structural, Debug)]
pub enum GpuCmd {
    /// Layout transition with its stage/access masks.
    Barrier(BarrierInfo),
    /// Full-extent image-to-image copy.
    CopyImage {
        /// Source image.
        src: ImageId,
        /// Destination image.
        dst: ImageId,
    },
    /// Clear a whole image to zero.
    ClearImage {
        /// The cleared image.
        image: ImageId,
    },
    /// Upload from the staging buffer into an image.
    CopyBufferToImage {
        /// Destination image.
        dst: ImageId,
    },
    /// Read an image back into the staging buffer.
    CopyImageToBuffer {
        /// Source image.
        src: ImageId,
    },
    /// Bind the brush compute pipeline.
    BindPipeline,
    /// Push the per-dispatch parameter block.
    PushParams(DispatchParams),
    /// Bind three images as writable storage targets at slots 0, 1, 2.
    BindStorage {
        /// Slot 0: read source of the brush.
        slot0: ImageId,
        /// Slot 1: the image painted into.
        slot1: ImageId,
        /// Slot 2: the stroke marks.
        slot2: ImageId,
    },
    /// Dispatch the bound kernel over a workgroup grid.
    Dispatch {
        /// Workgroups along x.
        groups_x: u32,
        /// Workgroups along y.
        groups_y: u32,
    },
}

/// The tracked layout of each of the four images.
#[derive(Clone, Copy, PartialEq, Eq, Structural, Debug)]
pub struct LayoutState {
    /// Layout of Original.
    pub original: ImgLayout,
    /// Layout of Base.
    pub base: ImgLayout,
    /// Layout of Working.
    pub working: ImgLayout,
    /// Layout of Stencil.
    pub stencil: ImgLayout,
}

impl LayoutState {
    /// The layout of `img` in this state.
    pub open spec fn of(self, img: ImageId) -> ImgLayout {
        match img {
            ImageId::Original => self.original,
            ImageId::Base => self.base,
            ImageId::Working => self.working,
            ImageId::Stencil => self.stencil,
        }
    }

    /// This state with `img` set to layout `l`.
    pub open spec fn with(self, img: ImageId, l: ImgLayout) -> LayoutState {
        match img {
            ImageId::Original => LayoutState { original: l, ..self },
            ImageId::Base => LayoutState { base: l, ..self },
            ImageId::Working => LayoutState { working: l, ..self },
            ImageId::Stencil => LayoutState { stencil: l, ..self },
        }
    }

    /// All four images still undefined: the state right after allocation.
    pub open spec fn all_undefined(self) -> bool {
        self == (LayoutState {
            original: ImgLayout::Undefined,
            base: ImgLayout::Undefined,
            working: ImgLayout::Undefined,
            stencil: ImgLayout::Undefined,
        })
    }

    /// The steady state between frames: Working is sampled by the display
    /// layer, the other three sit in General.
    pub open spec fn steady(self) -> bool {
        self == (LayoutState {
            original: ImgLayout::General,
            base: ImgLayout::General,
            working: ImgLayout::ShaderReadOnly,
            stencil: ImgLayout::General,
        })
    }
}

/// A layout a transfer source must be in.
pub open spec fn transfer_src_ok(l: ImgLayout) -> bool {
    l == ImgLayout::TransferSrc || l == ImgLayout::General
}

/// A layout a transfer destination must be in.
pub open spec fn transfer_dst_ok(l: ImgLayout) -> bool {
    l == ImgLayout::TransferDst || l == ImgLayout::General
}

/// The destination stage/access masks of a barrier must match the operation
/// that follows: transfers pair with the Transfer stage and a transfer
/// access, storage writes with the compute stage and shader writes, and a
/// hand-off to the display layer ends the frame's work on the image.
pub open spec fn barrier_masks_ok(b: BarrierInfo) -> bool {
    match b.to {
        ImgLayout::Undefined => false,
        ImgLayout::TransferDst => b.dst_stage == StageMask::Transfer && b.dst_access
            == AccessMask::TransferWrite,
        ImgLayout::TransferSrc => b.dst_stage == StageMask::Transfer && b.dst_access
            == AccessMask::TransferRead,
        ImgLayout::General => (b.dst_stage == StageMask::ComputeShader && b.dst_access
            == AccessMask::ShaderWrite) || (b.dst_stage == StageMask::Transfer && (b.dst_access
            == AccessMask::TransferWrite || b.dst_access == AccessMask::TransferRead)),
        ImgLayout::ShaderReadOnly => b.dst_stage == StageMask::BottomOfPipe && (b.dst_access
            == AccessMask::NoAccess || b.dst_access == AccessMask::ShaderRead),
    }
}

/// Whether one command is legal in layout state `ls`.
///
/// Original is write-once: after its upload it is never again a copy or
/// clear destination, never bound as a storage target.
pub open spec fn cmd_valid(c: GpuCmd, ls: LayoutState) -> bool {
    match c {
        GpuCmd::Barrier(b) => ls.of(b.image) == b.from && barrier_masks_ok(b),
        GpuCmd::CopyImage { src, dst } => src != dst && dst != ImageId::Original
            && transfer_src_ok(ls.of(src)) && transfer_dst_ok(ls.of(dst)),
        GpuCmd::ClearImage { image } => image != ImageId::Original && transfer_dst_ok(ls.of(image)),
        GpuCmd::CopyBufferToImage { dst } => ls.of(dst) == ImgLayout::TransferDst,
        GpuCmd::CopyImageToBuffer { src } => transfer_src_ok(ls.of(src)),
        GpuCmd::BindPipeline => true,
        GpuCmd::PushParams(_) => true,
        GpuCmd::BindStorage { slot0, slot1, slot2 } => slot0 != ImageId::Original && slot1
            != ImageId::Original && slot2 != ImageId::Original && ls.of(slot0)
            == ImgLayout::General && ls.of(slot1) == ImgLayout::General && ls.of(slot2)
            == ImgLayout::General,
        GpuCmd::Dispatch { .. } => ls.base == ImgLayout::General && ls.working
            == ImgLayout::General && ls.stencil == ImgLayout::General,
    }
}

/// The layout state after one command.
pub open spec fn cmd_step(c: GpuCmd, ls: LayoutState) -> LayoutState {
    match c {
        GpuCmd::Barrier(b) => ls.with(b.image, b.to),
        _ => ls,
    }
}

/// Every command in `cmds` is legal in the layout state produced by the
/// commands before it, starting from `ls`.
pub open spec fn cmds_ok(cmds: Seq<GpuCmd>, ls: LayoutState) -> bool
    decreases cmds.len(),
{
    cmds.len() == 0 || (cmd_valid(cmds[0], ls) && cmds_ok(cmds.skip(1), cmd_step(cmds[0], ls)))
}

/// The layout state after the whole list `cmds`.
pub open spec fn cmds_apply(cmds: Seq<GpuCmd>, ls: LayoutState) -> LayoutState
    decreases cmds.len(),
{
    if cmds.len() == 0 {
        ls
    } else {
        cmds_apply(cmds.skip(1), cmd_step(cmds[0], ls))
    }
}

/// Appending one legal command keeps a list legal, and steps the final state.
pub proof fn lemma_cmds_snoc(cmds: Seq<GpuCmd>, ls: LayoutState, c: GpuCmd)
    requires
        cmds_ok(cmds, ls),
        cmd_valid(c, cmds_apply(cmds, ls)),
    ensures
        cmds_ok(cmds.push(c), ls),
        cmds_apply(cmds.push(c), ls) == cmd_step(c, cmds_apply(cmds, ls)),
    decreases cmds.len(),
{
    if cmds.len() == 0 {
        assert(cmds.push(c)[0] == c);
        assert(cmds.push(c).skip(1) =~= Seq::<GpuCmd>::empty());
        assert(cmds_ok(cmds.push(c).skip(1), cmd_step(c, ls)));
        assert(cmds_apply(cmds.push(c), ls) == cmds_apply(
            cmds.push(c).skip(1),
            cmd_step(c, ls),
        ));
    } else {
        assert(cmds.push(c)[0] == cmds[0]);
        assert(cmds.push(c).skip(1) =~= cmds.skip(1).push(c));
        lemma_cmds_snoc(cmds.skip(1), cmd_step(cmds[0], ls), c);
        assert(cmds_ok(cmds.push(c).skip(1), cmd_step(cmds[0], ls)));
    }
}

/// The number of readback (image-to-buffer) commands in a list.
pub open spec fn count_readbacks(cmds: Seq<GpuCmd>) -> nat
    decreases cmds.len(),
{
    if cmds.len() == 0 {
        0
    } else {
        (if cmds[0] matches GpuCmd::CopyImageToBuffer { .. } {
            1nat
        } else {
            0nat
        }) + count_readbacks(cmds.skip(1))
    }
}

/// Appending a command adds its own readback count.
pub proof fn lemma_count_readbacks_snoc(cmds: Seq<GpuCmd>, c: GpuCmd)
    ensures
        count_readbacks(cmds.push(c)) == count_readbacks(cmds) + (
        if c matches GpuCmd::CopyImageToBuffer { .. } {
            1nat
        } else {
            0nat
        }),
    decreases cmds.len(),
{
    if cmds.len() == 0 {
        assert(cmds.push(c)[0] == c);
        assert(cmds.push(c).skip(1) =~= Seq::<GpuCmd>::empty());
        assert(count_readbacks(cmds.push(c).skip(1)) == 0);
    } else {
        assert(cmds.push(c)[0] == cmds[0]);
        assert(cmds.push(c).skip(1) =~= cmds.skip(1).push(c));
        lemma_count_readbacks_snoc(cmds.skip(1), c);
    }
}

/// Records one frame's command list while tracking image layouts.
///
/// All commands of the engine go through a recorder; its methods refuse any
/// command whose layout preconditions do not hold, so a finished recording
/// always satisfies `cmds_ok` from the state it was opened in.
pub struct CmdRecorder {
    cmds: Vec<GpuCmd>,
    layouts: LayoutState,
    start: Ghost<LayoutState>,
    rb: Ghost<nat>,
}

impl CmdRecorder {
    /// The layout state the recording started from.
    pub closed spec fn start_state(self) -> LayoutState {
        self.start@
    }

    /// The layout state after the commands recorded so far.
    pub closed spec fn cur(self) -> LayoutState {
        self.layouts
    }

    /// The commands recorded so far.
    pub closed spec fn recorded(self) -> Seq<GpuCmd> {
        self.cmds@
    }

    /// The number of readback commands recorded so far.
    pub closed spec fn readbacks(self) -> nat {
        self.rb@
    }

    /// The recording is legal from its start state and `cur` tracks it.
    pub closed spec fn wf(self) -> bool {
        &&& cmds_ok(self.cmds@, self.start@)
        &&& cmds_apply(self.cmds@, self.start@) == self.layouts
        &&& count_readbacks(self.cmds@) == self.rb@
    }

    /// Opens an empty recording from layout state `ls`.
    pub fn new(ls: LayoutState) -> (r: CmdRecorder)
        ensures
            r.wf(),
            r.start_state() == ls,
            r.cur() == ls,
            r.recorded() == Seq::<GpuCmd>::empty(),
            r.readbacks() == 0,
    {
        CmdRecorder { cmds: Vec::new(), layouts: ls, start: Ghost(ls), rb: Ghost(0nat) }
    }

    /// Records one command; callers must have checked its validity.
    fn record(&mut self, c: GpuCmd)
        requires
            old(self).wf(),
            cmd_valid(c, old(self).cur()),
        ensures
            final(self).wf(),
            final(self).start_state() == old(self).start_state(),
            final(self).recorded() == old(self).recorded().push(c),
            final(self).cur() == cmd_step(c, old(self).cur()),
            final(self).readbacks() == old(self).readbacks() + (
            if c matches GpuCmd::CopyImageToBuffer { .. } {
                1nat
            } else {
                0nat
            }),
    {
        proof {
            lemma_cmds_snoc(self.cmds@, self.start@, c);
            lemma_count_readbacks_snoc(self.cmds@, c);
        }
        proof {
            let newrb = self.rb@ + (if c matches GpuCmd::CopyImageToBuffer { .. } {
                1nat
            } else {
                0nat
            });
            self.rb@ = newrb;
        }
        let next = match c {
            GpuCmd::Barrier(b) => {
                let l = self.layouts;
                match b.image {
                    ImageId::Original => LayoutState { original: b.to, ..l },
                    ImageId::Base => LayoutState { base: b.to, ..l },
                    ImageId::Working => LayoutState { working: b.to, ..l },
                    ImageId::Stencil => LayoutState { stencil: b.to, ..l },
                }
            },
            _ => self.layouts,
        };
        self.cmds.push(c);
        self.layouts = next;
    }

    /// Emits exactly one layout transition for `img`, which must currently be
    /// in layout `from`, with masks matching the operation that follows.
    pub fn barrier(
        &mut self,
        img: ImageId,
        from: ImgLayout,
        to: ImgLayout,
        src_stage: StageMask,
        dst_stage: StageMask,
        src_access: AccessMask,
        dst_access: AccessMask,
    )
        requires
            old(self).wf(),
            old(self).cur().of(img) == from,
            barrier_masks_ok(
                BarrierInfo { image: img, from, to, src_stage, dst_stage, src_access, dst_access },
            ),
        ensures
            final(self).wf(),
            final(self).start_state() == old(self).start_state(),
            final(self).recorded() == old(self).recorded().push(
                GpuCmd::Barrier(
                    BarrierInfo {
                        image: img,
                        from,
                        to,
                        src_stage,
                        dst_stage,
                        src_access,
                        dst_access,
                    },
                ),
            ),
            final(self).cur() == old(self).cur().with(img, to),
            final(self).readbacks() == old(self).readbacks(),
    {
        self.record(
            GpuCmd::Barrier(
                BarrierInfo { image: img, from, to, src_stage, dst_stage, src_access, dst_access },
            ),
        );
    }

    /// Records a full-image copy; both images must sit in transfer-capable
    /// layouts and Original is never a destination.
    pub fn copy_image(&mut self, src: ImageId, dst: ImageId)
        requires
            old(self).wf(),
            src != dst,
            dst != ImageId::Original,
            transfer_src_ok(old(self).cur().of(src)),
            transfer_dst_ok(old(self).cur().of(dst)),
        ensures
            final(self).wf(),
            final(self).start_state() == old(self).start_state(),
            final(self).recorded() == old(self).recorded().push(GpuCmd::CopyImage { src, dst }),
            final(self).cur() == old(self).cur(),
            final(self).readbacks() == old(self).readbacks(),
    {
        self.record(GpuCmd::CopyImage { src, dst });
    }

    /// Records a clear-to-zero; Original is never cleared.
    pub fn clear_image(&mut self, image: ImageId)
        requires
            old(self).wf(),
            image != ImageId::Original,
            transfer_dst_ok(old(self).cur().of(image)),
        ensures
            final(self).wf(),
            final(self).start_state() == old(self).start_state(),
            final(self).recorded() == old(self).recorded().push(GpuCmd::ClearImage { image }),
            final(self).cur() == old(self).cur(),
            final(self).readbacks() == old(self).readbacks(),
    {
        self.record(GpuCmd::ClearImage { image });
    }

    /// Records a staging-buffer upload into `dst`.
    pub fn copy_buffer_to_image(&mut self, dst: ImageId)
        requires
            old(self).wf(),
            old(self).cur().of(dst) == ImgLayout::TransferDst,
        ensures
            final(self).wf(),
            final(self).start_state() == old(self).start_state(),
            final(self).recorded() == old(self).recorded().push(GpuCmd::CopyBufferToImage { dst }),
            final(self).cur() == old(self).cur(),
            final(self).readbacks() == old(self).readbacks(),
    {
        self.record(GpuCmd::CopyBufferToImage { dst });
    }

    /// Records a readback of `src` into the staging buffer.
    pub fn copy_image_to_buffer(&mut self, src: ImageId)
        requires
            old(self).wf(),
            transfer_src_ok(old(self).cur().of(src)),
        ensures
            final(self).wf(),
            final(self).start_state() == old(self).start_state(),
            final(self).recorded() == old(self).recorded().push(GpuCmd::CopyImageToBuffer { src }),
            final(self).cur() == old(self).cur(),
            final(self).readbacks() == old(self).readbacks() + 1,
    {
        self.record(GpuCmd::CopyImageToBuffer { src });
    }

    /// Records the pipeline bind.
    pub fn bind_pipeline(&mut self)
        requires
            old(self).wf(),
        ensures
            final(self).wf(),
            final(self).start_state() == old(self).start_state(),
            final(self).recorded() == old(self).recorded().push(GpuCmd::BindPipeline),
            final(self).cur() == old(self).cur(),
            final(self).readbacks() == old(self).readbacks(),
    {
        self.record(GpuCmd::BindPipeline);
    }

    /// Records the parameter push.
    pub fn push_params(&mut self, p: DispatchParams)
        requires
            old(self).wf(),
        ensures
            final(self).wf(),
            final(self).start_state() == old(self).start_state(),
            final(self).recorded() == old(self).recorded().push(GpuCmd::PushParams(p)),
            final(self).cur() == old(self).cur(),
            final(self).readbacks() == old(self).readbacks(),
    {
        self.record(GpuCmd::PushParams(p));
    }

    /// Records the storage bindings; all three images must be in General.
    pub fn bind_storage(&mut self, slot0: ImageId, slot1: ImageId, slot2: ImageId)
        requires
            old(self).wf(),
            slot0 != ImageId::Original,
            slot1 != ImageId::Original,
            slot2 != ImageId::Original,
            old(self).cur().of(slot0) == ImgLayout::General,
            old(self).cur().of(slot1) == ImgLayout::General,
            old(self).cur().of(slot2) == ImgLayout::General,
        ensures
            final(self).wf(),
            final(self).start_state() == old(self).start_state(),
            final(self).recorded() == old(self).recorded().push(
                GpuCmd::BindStorage { slot0, slot1, slot2 },
            ),
            final(self).cur() == old(self).cur(),
            final(self).readbacks() == old(self).readbacks(),
    {
        self.record(GpuCmd::BindStorage { slot0, slot1, slot2 });
    }

    /// Records the dispatch; Base, Working and Stencil must be in General.
    pub fn dispatch(&mut self, groups_x: u32, groups_y: u32)
        requires
            old(self).wf(),
            old(self).cur().base == ImgLayout::General,
            old(self).cur().working == ImgLayout::General,
            old(self).cur().stencil == ImgLayout::General,
        ensures
            final(self).wf(),
            final(self).start_state() == old(self).start_state(),
            final(self).recorded() == old(self).recorded().push(
                GpuCmd::Dispatch { groups_x, groups_y },
            ),
            final(self).cur() == old(self).cur(),
            final(self).readbacks() == old(self).readbacks(),
    {
        self.record(GpuCmd::Dispatch { groups_x, groups_y });
    }

    /// Closes the recording and hands the command list out.
    pub fn finish(self) -> (r: Vec<GpuCmd>)
        requires
            self.wf(),
        ensures
            r@ == self.recorded(),
            cmds_ok(r@, self.start_state()),
            cmds_apply(r@, self.start_state()) == self.cur(),
            count_readbacks(r@) == self.readbacks(),
    {
        self.cmds
    }
}

} // verus!
