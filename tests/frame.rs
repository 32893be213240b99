use pockystation_core::config::CoreVariables;
use pockystation_core::video::convert_framebuffer;
use pockystation_core::session::Context;

fn sample_fb() -> [u32; 32] {
    let mut fb = [0u32; 32];
    fb[0] = 0b101;
    fb[31] = 0x8000_0000;
    fb[5] = 0xffff_ffff;
    fb
}

#[test]
fn clear_bits_are_white() {
    let out = convert_framebuffer(&sample_fb(), false);
    assert_eq!(out.len(), 1024);
    assert_eq!(out[0], 0);
    assert_eq!(out[1], 0xffffff);
    assert_eq!(out[2], 0);
    assert_eq!(out[3], 0xffffff);
    assert_eq!(out[5 * 32 + 17], 0);
    assert_eq!(out[1023], 0);
    assert_eq!(out[1022], 0xffffff);
}

#[test]
fn rotation_inverts_offsets() {
    let fb = sample_fb();
    let plain = convert_framebuffer(&fb, false);
    let rotated = convert_framebuffer(&fb, true);
    for k in 0..1024 {
        assert_eq!(rotated[1024 - k - 1], plain[k]);
    }
    assert_eq!(rotated[1023], 0);
    assert_eq!(rotated[1022], 0xffffff);
}

#[test]
fn rotation_needs_option_and_machine() {
    let fb = sample_fb();
    let plain = convert_framebuffer(&fb, false);
    let rotated = convert_framebuffer(&fb, true);
    let on = Context::new(CoreVariables { rtc_host_sync: false, lcd_rotation_en: true }, 10).unwrap();
    let off = Context::new(CoreVariables { rtc_host_sync: false, lcd_rotation_en: false }, 10).unwrap();
    assert_eq!(on.render_frame(&fb, true), rotated);
    assert_eq!(on.render_frame(&fb, false), plain);
    assert_eq!(off.render_frame(&fb, true), plain);
    assert_eq!(off.render_frame(&fb, false), plain);
}
