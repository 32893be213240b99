//! Mapping of the host controller onto the machine's button interrupt lines.

use vstd::prelude::*;

verus! {

/// Host controller buttons that the machine uses.
#[derive(Clone, Copy, Debug, PartialEq, Eq, Structural)]
pub enum JoyPadButton {
    A,
    Up,
    Down,
    Left,
    Right,
}

/// The machine's button interrupt lines.
#[derive(Clone, Copy, Debug, PartialEq, Eq, Structural)]
pub enum Interrupt {
    ActionButton,
    UpButton,
    DownButton,
    LeftButton,
    RightButton,
}

/// Which host buttons are held down in the current frame.
#[derive(Clone, Copy, Debug, PartialEq, Eq, Structural)]
pub struct PadState {
    pub a: bool,
    pub up: bool,
    pub down: bool,
    pub left: bool,
    pub right: bool,
}

/// Whether `b` is held in `pad`.
pub open spec fn is_pressed(pad: PadState, b: JoyPadButton) -> bool {
    match b {
        JoyPadButton::A => pad.a,
        JoyPadButton::Up => pad.up,
        JoyPadButton::Down => pad.down,
        JoyPadButton::Left => pad.left,
        JoyPadButton::Right => pad.right,
    }
}

/// The interrupt line that a host button drives.
pub open spec fn line_of(b: JoyPadButton) -> Interrupt {
    match b {
        JoyPadButton::A => Interrupt::ActionButton,
        JoyPadButton::Up => Interrupt::UpButton,
        JoyPadButton::Down => Interrupt::DownButton,
        JoyPadButton::Left => Interrupt::LeftButton,
        JoyPadButton::Right => Interrupt::RightButton,
    }
}

/// The buttons in the order in which they are polled.
pub open spec fn polled_buttons() -> Seq<JoyPadButton> {
    seq![
        JoyPadButton::A,
        JoyPadButton::Up,
        JoyPadButton::Down,
        JoyPadButton::Left,
        JoyPadButton::Right,
    ]
}

/// The level of every line for one frame, as (line, active) pairs.
pub open spec fn line_levels(pad: PadState) -> Seq<(Interrupt, bool)> {
    polled_buttons().map_values(|b: JoyPadButton| (line_of(b), is_pressed(pad, b)))
}

/// The interrupt line that host button `b` drives.
pub fn button_interrupt(b: JoyPadButton) -> (r: Interrupt)
    ensures
        r == line_of(b),
{
    match b {
        JoyPadButton::A => Interrupt::ActionButton,
        JoyPadButton::Up => Interrupt::UpButton,
        JoyPadButton::Down => Interrupt::DownButton,
        JoyPadButton::Left => Interrupt::LeftButton,
        JoyPadButton::Right => Interrupt::RightButton,
    }
}

/// Whether `b` is held in `pad`.
pub fn pressed(pad: &PadState, b: JoyPadButton) -> (r: bool)
    ensures
        r == is_pressed(*pad, b),
{
    match b {
        JoyPadButton::A => pad.a,
        JoyPadButton::Up => pad.up,
        JoyPadButton::Down => pad.down,
        JoyPadButton::Left => pad.left,
        JoyPadButton::Right => pad.right,
    }
}

/// The buttons in the order in which they are polled.
pub fn button_map() -> (r: Vec<JoyPadButton>)
    ensures
        r@ == polled_buttons(),
{
    let r = vec![
        JoyPadButton::A,
        JoyPadButton::Up,
        JoyPadButton::Down,
        JoyPadButton::Left,
        JoyPadButton::Right,
    ];
    assert(r@ =~= polled_buttons());
    r
}

/// The level to write to each button interrupt line this frame. Every line
/// is written every frame, whether or not its button changed.
pub fn poll_controllers(pad: &PadState) -> (r: Vec<(Interrupt, bool)>)
    ensures
        r@ == line_levels(*pad),
{
    let buttons = button_map();
    let mut r: Vec<(Interrupt, bool)> = Vec::new();
    let mut i: usize = 0;
    while i < buttons.len()
        invariant
            buttons@ == polled_buttons(),
            i <= buttons.len(),
            r@ =~= line_levels(*pad).take(i as int),
        decreases buttons.len() - i,
    {
        let b = buttons[i];
        r.push((button_interrupt(b), pressed(pad, b)));
        i += 1;
    }
    assert(line_levels(*pad).take(5) =~= line_levels(*pad));
    r
}

/// With only Up held, the Up line is the one active line; once Up is
/// released every line is inactive again.
pub proof fn lemma_levels_follow_pad(pad: PadState)
    requires
        pad == (PadState { a: false, up: true, down: false, left: false, right: false }),
    ensures
        line_levels(pad).len() == 5,
        forall|i: int|
            0 <= i < 5 ==> (#[trigger] line_levels(pad)[i]).1 == (line_levels(pad)[i].0
                == Interrupt::UpButton),
        forall|i: int|
            0 <= i < 5 ==> !(#[trigger] line_levels(PadState { up: false, ..pad })[i]).1,
{
}

} // verus!
