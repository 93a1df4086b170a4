use brushkit::params::{param_words_to_bytes, ParamWords};
use brushkit::Application;

#[test]
fn application_shell_defaults() {
    let a = Application::new();
    assert_eq!(a.window_width, 1180);
    assert_eq!(a.window_height, 1180);
    assert!(a.vsync);
    assert!(a.log_fps);
}

#[test]
fn parameter_block_layout_is_tightly_packed() {
    let p = ParamWords {
        color: [0x01020304, 0x05060708, 0x090a0b0c, 0x0d0e0f10],
        cursor_a: [0x11121314, 0x15161718],
        cursor_b: [0x191a1b1c, 0x1d1e1f20],
        weight_a: [0x21222324, 0x25262728],
        weight_b: [0x292a2b2c, 0x2d2e2f30],
        tool: 0x31323334,
    };
    let bytes = param_words_to_bytes(&p);
    assert_eq!(bytes.len(), 52);
    // Color words first, little-endian, no padding.
    assert_eq!(&bytes[0..4], &[0x04, 0x03, 0x02, 0x01]);
    assert_eq!(&bytes[4..8], &[0x08, 0x07, 0x06, 0x05]);
    assert_eq!(&bytes[12..16], &[0x10, 0x0f, 0x0e, 0x0d]);
    // Cursor a, cursor b.
    assert_eq!(&bytes[16..20], &[0x14, 0x13, 0x12, 0x11]);
    assert_eq!(&bytes[24..28], &[0x1c, 0x1b, 0x1a, 0x19]);
    // Weight anchors.
    assert_eq!(&bytes[32..36], &[0x24, 0x23, 0x22, 0x21]);
    assert_eq!(&bytes[40..44], &[0x2c, 0x2b, 0x2a, 0x29]);
    // The tool index is the last word.
    assert_eq!(&bytes[48..52], &[0x34, 0x33, 0x32, 0x31]);
}

#[test]
fn parameter_block_zero() {
    let p = ParamWords {
        color: [0; 4],
        cursor_a: [0; 2],
        cursor_b: [0; 2],
        weight_a: [0; 2],
        weight_b: [0; 2],
        tool: 0,
    };
    let bytes = param_words_to_bytes(&p);
    assert_eq!(bytes, vec![0u8; 52]);
}
