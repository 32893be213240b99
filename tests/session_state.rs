use pockystation_core::config::{option_value, parse_bool, CoreVariables};
use pockystation_core::retrolog::{init, LogBackend};
use pockystation_core::session::Context;

#[test]
fn bool_option_words() {
    for w in ["true", "enabled", "on"] {
        assert_eq!(parse_bool(w), Ok(true));
    }
    for w in ["false", "disabled", "off"] {
        assert_eq!(parse_bool(w), Ok(false));
    }
    for w in ["", "yes", "True", "enabled ", "of"] {
        assert_eq!(parse_bool(w), Err(()));
    }
    assert!(option_value(Some("on"), false));
    assert!(!option_value(Some("off"), true));
    assert!(option_value(Some("maybe"), true));
    assert!(!option_value(None, false));
}

#[test]
fn default_options() {
    let v = CoreVariables::defaults();
    assert!(!v.rtc_host_sync);
    assert!(v.lcd_rotation_en);
}

#[test]
fn rtc_sync_every_sixty_frames() {
    let mut ctx = Context::new(CoreVariables { rtc_host_sync: true, lcd_rotation_en: true }, 0).unwrap();
    let mut due = Vec::new();
    for frame in 0..181 {
        if ctx.rtc_sync_due() {
            due.push(frame);
        }
    }
    assert_eq!(due, vec![0, 60, 120, 180]);
}

#[test]
fn rtc_sync_off_never_due() {
    let mut ctx = Context::new(CoreVariables::defaults(), 0).unwrap();
    for _ in 0..200 {
        assert!(!ctx.rtc_sync_due());
    }
    ctx.refresh_variables(CoreVariables { rtc_host_sync: true, lcd_rotation_en: false });
    assert!(ctx.rtc_sync_due());
    assert!(!ctx.rotate_display(true));
}

#[test]
fn log_destination() {
    assert_eq!(init(true), LogBackend::Host);
    assert_eq!(init(false), LogBackend::StdErr);
}
