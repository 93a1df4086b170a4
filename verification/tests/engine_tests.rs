use brushkit::editor::{Editor, EditorSetup};
use brushkit::gpu::{GpuCmd, ImageId};
use brushkit::input::{BrushState, Tool};

fn idle_brush() -> BrushState {
    BrushState {
        color_r: 255,
        color_g: 255,
        color_b: 255,
        cursor_x: 0,
        cursor_y: 0,
        prev_x: 0,
        prev_y: 0,
        weight_ax: 0,
        weight_ay: 0,
        weight_bx: 0,
        weight_by: 0,
        tool: Tool::Draw,
        pressed: false,
        held: false,
        released: false,
        reset_requested: false,
        merge_requested: false,
        export_requested: false,
        space_held: false,
        shift_held: false,
        in_scene: true,
        compute_only: false,
    }
}

fn black_editor(w: usize, h: usize) -> Editor {
    let pixels = vec![0u8; w * h * 4];
    let setup = EditorSetup::create(w, h);
    let (ed, cmds) = setup.initialize_from_pixels(pixels);
    assert!(cmds.len() > 0);
    ed
}

fn texel(ed: &Editor, x: usize, y: usize) -> [u8; 4] {
    let w = ed.width();
    let d = ed.working_data();
    let i = (y * w + x) * 4;
    [d[i], d[i + 1], d[i + 2], d[i + 3]]
}

#[test]
fn initialization_state() {
    let mut pixels = vec![0u8; 4 * 4 * 4];
    pixels[0] = 17;
    pixels[63] = 99;
    let setup = EditorSetup::create(4, 4);
    let (ed, _cmds) = setup.initialize_from_pixels(pixels.clone());
    assert_eq!(ed.width(), 4);
    assert_eq!(ed.height(), 4);
    assert_eq!(ed.original_data(), &pixels);
    assert_eq!(ed.base_data(), &pixels);
    assert_eq!(ed.working_data(), &pixels);
    assert_eq!(ed.stencil_data(), &vec![0u8; 16]);
    assert!(!ed.export_in_flight());
    assert_eq!(ed.exports_queued(), 0);
}

#[test]
fn scenario_diagonal_stroke_merge_reset() {
    // 4x4 image, Original all black.
    let mut ed = black_editor(4, 4);

    // Stroke start at pixel (0, 0).
    let mut press = idle_brush();
    press.pressed = true;
    ed.frame(&press);

    // Stroke held from (0, 0) to (3, 3) in pixel units (subpixel scale 256).
    let mut held = idle_brush();
    held.held = true;
    held.prev_x = 0;
    held.prev_y = 0;
    held.cursor_x = 768;
    held.cursor_y = 768;
    ed.frame(&held);

    // The diagonal is painted white; the far corners are untouched: an
    // interpolated band along the segment, not a full fill.
    assert_eq!(texel(&ed, 0, 0), [255, 255, 255, 255]);
    assert_eq!(texel(&ed, 1, 1), [255, 255, 255, 255]);
    assert_eq!(texel(&ed, 2, 2), [255, 255, 255, 255]);
    assert_eq!(texel(&ed, 3, 3), [255, 255, 255, 255]);
    assert_eq!(texel(&ed, 3, 0), [0, 0, 0, 0]);
    assert_eq!(texel(&ed, 0, 3), [0, 0, 0, 0]);
    let painted = ed.working_data().chunks(4).filter(|c| c[0] == 255).count();
    assert!(painted > 0 && painted < 16);

    // The stencil marks exactly what was painted.
    assert_eq!(ed.stencil_data()[0], 1);
    assert_eq!(ed.stencil_data()[3], 0);

    // Base is untouched by the stroke.
    assert_eq!(ed.base_data(), &vec![0u8; 64]);

    // Merge: Base now equals the diagonal coverage.
    let mut merge = idle_brush();
    merge.merge_requested = true;
    let working_at_merge = ed.working_data().clone();
    ed.frame(&merge);
    assert_eq!(ed.base_data(), &working_at_merge);
    assert_eq!(ed.working_data(), &working_at_merge);
    assert_eq!(ed.stencil_data(), &vec![0u8; 16]);

    // Reset: Base and Working revert to all black, so Original was
    // untouched by both the stroke and the Merge.
    let mut reset = idle_brush();
    reset.reset_requested = true;
    ed.frame(&reset);
    assert_eq!(ed.base_data(), &vec![0u8; 64]);
    assert_eq!(ed.working_data(), &vec![0u8; 64]);
    assert_eq!(ed.original_data(), &vec![0u8; 64]);
}

#[test]
fn reset_restores_after_any_strokes() {
    let mut pixels = vec![0u8; 64];
    for (i, p) in pixels.iter_mut().enumerate() {
        *p = (i * 3) as u8;
    }
    let setup = EditorSetup::create(4, 4);
    let (mut ed, _) = setup.initialize_from_pixels(pixels.clone());

    // A few arbitrary strokes and merges.
    let mut press = idle_brush();
    press.pressed = true;
    ed.frame(&press);
    let mut held = idle_brush();
    held.held = true;
    held.cursor_x = 900;
    held.cursor_y = 200;
    ed.frame(&held);
    let mut merge = idle_brush();
    merge.merge_requested = true;
    ed.frame(&merge);
    held.cursor_x = 100;
    ed.frame(&held);

    // Reset restores Original exactly, whatever happened before.
    let mut reset = idle_brush();
    reset.reset_requested = true;
    ed.frame(&reset);
    assert_eq!(ed.base_data(), &pixels);
    assert_eq!(ed.working_data(), &pixels);
    assert_eq!(ed.original_data(), &pixels);
}

#[test]
fn repeated_dispatch_is_idempotent() {
    let mut ed = black_editor(4, 4);
    let mut held = idle_brush();
    held.held = true;
    held.prev_x = 100;
    held.prev_y = 100;
    held.cursor_x = 700;
    held.cursor_y = 500;
    ed.frame(&held);
    let once_working = ed.working_data().clone();
    let once_stencil = ed.stencil_data().clone();
    // The identical dispatch again, with the stencil already marked.
    ed.frame(&held);
    assert_eq!(ed.working_data(), &once_working);
    assert_eq!(ed.stencil_data(), &once_stencil);
}

#[test]
fn stroke_start_clears_stencil() {
    let mut ed = black_editor(4, 4);
    let mut held = idle_brush();
    held.held = true;
    held.cursor_x = 128;
    held.cursor_y = 128;
    ed.frame(&held);
    assert!(ed.stencil_data().iter().any(|&m| m == 1));
    let mut press = idle_brush();
    press.pressed = true;
    ed.frame(&press);
    assert_eq!(ed.stencil_data(), &vec![0u8; 16]);
}

#[test]
fn no_paint_while_panning_or_outside() {
    let mut ed = black_editor(4, 4);
    let before = ed.working_data().clone();

    let mut held = idle_brush();
    held.held = true;
    held.cursor_x = 128;
    held.cursor_y = 128;
    held.space_held = true;
    ed.frame(&held);
    assert_eq!(ed.working_data(), &before);

    held.space_held = false;
    held.in_scene = false;
    ed.frame(&held);
    assert_eq!(ed.working_data(), &before);

    held.in_scene = true;
    held.compute_only = true;
    ed.frame(&held);
    assert_eq!(ed.working_data(), &before);
}

#[test]
fn reset_frame_skips_painting() {
    let mut ed = black_editor(4, 4);
    let mut b = idle_brush();
    b.held = true;
    b.cursor_x = 128;
    b.cursor_y = 128;
    b.reset_requested = true;
    ed.frame(&b);
    assert_eq!(ed.working_data(), &vec![0u8; 64]);
}

#[test]
fn reset_frame_commands() {
    let mut ed = black_editor(4, 4);
    let mut reset = idle_brush();
    reset.reset_requested = true;
    let cmds = ed.frame(&reset);
    assert_eq!(cmds.len(), 4);
    assert_eq!(cmds[0], GpuCmd::CopyImage { src: ImageId::Original, dst: ImageId::Base });
    assert!(matches!(cmds[1], GpuCmd::Barrier(_)));
    assert_eq!(cmds[2], GpuCmd::CopyImage { src: ImageId::Original, dst: ImageId::Working });
    assert!(matches!(cmds[3], GpuCmd::Barrier(_)));
}

#[test]
fn paint_frame_commands_cover_extent() {
    let mut ed = black_editor(100, 40);
    let mut held = idle_brush();
    held.held = true;
    held.cursor_x = 256;
    held.cursor_y = 256;
    let cmds = ed.frame(&held);
    let mut saw_dispatch = false;
    for c in &cmds {
        if let GpuCmd::Dispatch { groups_x, groups_y } = c {
            saw_dispatch = true;
            assert!(*groups_x as usize * 16 >= 100);
            assert!(*groups_y as usize * 16 >= 40);
        }
    }
    assert!(saw_dispatch);
    assert!(matches!(cmds[0], GpuCmd::Barrier(_)));
}

#[test]
fn export_single_readback_in_flight() {
    let mut pixels = vec![7u8; 64];
    let setup = EditorSetup::create(4, 4);
    let (mut ed, _) = setup.initialize_from_pixels(pixels.clone());

    // First request: the readback starts at once.
    let mut exp = idle_brush();
    exp.export_requested = true;
    let cmds1 = ed.frame(&exp);
    assert!(ed.export_in_flight());
    assert_eq!(ed.exports_queued(), 0);
    let readbacks1 = cmds1
        .iter()
        .filter(|c| matches!(c, GpuCmd::CopyImageToBuffer { .. }))
        .count();
    assert_eq!(readbacks1, 1);

    // Second request in the next frame: deferred, not dropped; still
    // exactly one readback in flight and no new readback command.
    let cmds2 = ed.frame(&exp);
    assert!(ed.export_in_flight());
    assert_eq!(ed.exports_queued(), 1);
    let readbacks2 = cmds2
        .iter()
        .filter(|c| matches!(c, GpuCmd::CopyImageToBuffer { .. }))
        .count();
    assert_eq!(readbacks2, 0);

    // Paint and merge so the second export sees different Base data.
    let mut press = idle_brush();
    press.pressed = true;
    ed.frame(&press);
    let mut held = idle_brush();
    held.held = true;
    held.cursor_x = 768;
    held.cursor_y = 768;
    ed.frame(&held);
    let mut merge = idle_brush();
    merge.merge_requested = true;
    ed.frame(&merge);
    let second_base = ed.base_data().clone();

    // The first completion hands out the first snapshot.
    let first = ed.finish_export();
    assert_eq!(first, pixels);
    assert!(!ed.export_in_flight());

    // The next frame starts the deferred export with the current Base.
    let idle = idle_brush();
    let cmds3 = ed.frame(&idle);
    assert!(ed.export_in_flight());
    assert_eq!(ed.exports_queued(), 0);
    let readbacks3 = cmds3
        .iter()
        .filter(|c| matches!(c, GpuCmd::CopyImageToBuffer { .. }))
        .count();
    assert_eq!(readbacks3, 1);
    let second = ed.finish_export();
    assert_eq!(second, second_base);
    assert_ne!(second, pixels);
}

#[test]
fn merge_keeps_original_intact() {
    let mut pixels = vec![3u8; 64];
    pixels[5] = 77;
    let setup = EditorSetup::create(4, 4);
    let (mut ed, _) = setup.initialize_from_pixels(pixels.clone());
    let mut press = idle_brush();
    press.pressed = true;
    ed.frame(&press);
    let mut held = idle_brush();
    held.held = true;
    held.cursor_x = 500;
    held.cursor_y = 500;
    ed.frame(&held);
    let mut merge = idle_brush();
    merge.merge_requested = true;
    ed.frame(&merge);
    assert_eq!(ed.original_data(), &pixels);
    let mut reset = idle_brush();
    reset.reset_requested = true;
    ed.frame(&reset);
    assert_eq!(ed.base_data(), &pixels);
    assert_eq!(ed.working_data(), &pixels);
}

#[test]
fn merge_with_no_stroke_is_a_silent_noop() {
    let mut pixels = vec![42u8; 64];
    pixels[10] = 9;
    let setup = EditorSetup::create(4, 4);
    let (mut ed, _) = setup.initialize_from_pixels(pixels.clone());
    let mut merge = idle_brush();
    merge.merge_requested = true;
    ed.frame(&merge);
    // With no stroke, Working already equals Base: identical data is
    // re-copied and nothing changes.
    assert_eq!(ed.base_data(), &pixels);
    assert_eq!(ed.working_data(), &pixels);
    ed.frame(&merge);
    assert_eq!(ed.base_data(), &pixels);
}

#[test]
fn double_reset_is_a_silent_noop() {
    let mut ed = black_editor(4, 4);
    let mut reset = idle_brush();
    reset.reset_requested = true;
    ed.frame(&reset);
    ed.frame(&reset);
    assert_eq!(ed.base_data(), &vec![0u8; 64]);
    assert_eq!(ed.working_data(), &vec![0u8; 64]);
}
