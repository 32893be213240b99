use pockystation_core::input::{button_interrupt, poll_controllers, Interrupt, JoyPadButton, PadState};

fn released() -> PadState {
    PadState { a: false, up: false, down: false, left: false, right: false }
}

#[test]
fn only_up_drives_only_up_line() {
    let pad = PadState { up: true, ..released() };
    let levels = poll_controllers(&pad);
    assert_eq!(levels.len(), 5);
    for (line, active) in &levels {
        assert_eq!(*active, *line == Interrupt::UpButton);
    }
    let levels = poll_controllers(&released());
    assert_eq!(levels.len(), 5);
    assert!(levels.iter().all(|(_, active)| !*active));
}

#[test]
fn table_maps_each_button() {
    assert_eq!(button_interrupt(JoyPadButton::A), Interrupt::ActionButton);
    assert_eq!(button_interrupt(JoyPadButton::Up), Interrupt::UpButton);
    assert_eq!(button_interrupt(JoyPadButton::Down), Interrupt::DownButton);
    assert_eq!(button_interrupt(JoyPadButton::Left), Interrupt::LeftButton);
    assert_eq!(button_interrupt(JoyPadButton::Right), Interrupt::RightButton);
}

#[test]
fn all_lines_written_in_order() {
    let pad = PadState { a: true, up: false, down: true, left: false, right: true };
    let levels = poll_controllers(&pad);
    assert_eq!(
        levels,
        vec![
            (Interrupt::ActionButton, true),
            (Interrupt::UpButton, false),
            (Interrupt::DownButton, true),
            (Interrupt::LeftButton, false),
            (Interrupt::RightButton, true),
        ]
    );
}
