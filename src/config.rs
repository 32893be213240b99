//! The session's named options and how their host values are read.

use vstd::prelude::*;
use vstd::string::StringSliceAdditionalSpecFns;

verus! {

/// The two boolean options of a session.
#[derive(Clone, Copy, Debug, PartialEq, Eq, Structural)]
pub struct CoreVariables {
    /// Synchronise the emulated real-time clock with the host clock.
    pub rtc_host_sync: bool,
    /// Rotate the display when the running software asks for it.
    pub lcd_rotation_en: bool,
}

/// Default of the clock synchronisation option.
pub const RTC_HOST_SYNC_DEFAULT: bool = false;

/// Default of the display rotation option.
pub const LCD_ROTATION_DEFAULT: bool = true;

impl CoreVariables {
    /// The options as they stand before the host says anything.
    pub fn defaults() -> (r: CoreVariables)
        ensures
            r.rtc_host_sync == RTC_HOST_SYNC_DEFAULT,
            r.lcd_rotation_en == LCD_ROTATION_DEFAULT,
    {
        CoreVariables { rtc_host_sync: RTC_HOST_SYNC_DEFAULT, lcd_rotation_en: LCD_ROTATION_DEFAULT }
    }
}

/// The words read as "on": "true", "enabled", "on" (ASCII).
pub open spec fn is_on_word(w: Seq<u8>) -> bool {
    ||| w == seq![116u8, 114, 117, 101]
    ||| w == seq![101u8, 110, 97, 98, 108, 101, 100]
    ||| w == seq![111u8, 110]
}

/// The words read as "off": "false", "disabled", "off" (ASCII).
pub open spec fn is_off_word(w: Seq<u8>) -> bool {
    ||| w == seq![102u8, 97, 108, 115, 101]
    ||| w == seq![100u8, 105, 115, 97, 98, 108, 101, 100]
    ||| w == seq![111u8, 102, 102]
}

/// Whether the bytes of `s` are exactly `w`.
fn bytes_are(s: &[u8], w: &Vec<u8>) -> (r: bool)
    ensures
        r == (s@ == w@),
{
    if s.len() != w.len() {
        return false;
    }
    let mut i: usize = 0;
    while i < s.len()
        invariant
            s@.len() == w@.len(),
            i <= s@.len(),
            forall|j: int| 0 <= j < i ==> s@[j] == w@[j],
        decreases s.len() - i,
    {
        if s[i] != w[i] {
            return false;
        }
        i += 1;
    }
    assert(s@ =~= w@);
    true
}

/// Reads a boolean option value: "true", "enabled" and "on" are `true`,
/// "false", "disabled" and "off" are `false`, anything else is an error.
pub fn parse_bool(opt: &str) -> (r: Result<bool, ()>)
    ensures
        r == Ok::<bool, ()>(true) <==> is_on_word(opt.spec_bytes()),
        r == Ok::<bool, ()>(false) <==> is_off_word(opt.spec_bytes()),
        r is Err <==> !is_on_word(opt.spec_bytes()) && !is_off_word(opt.spec_bytes()),
{
    let b = opt.as_bytes();
    let on_words = vec![
        vec![116u8, 114, 117, 101],
        vec![101u8, 110, 97, 98, 108, 101, 100],
        vec![111u8, 110],
    ];
    let off_words = vec![
        vec![102u8, 97, 108, 115, 101],
        vec![100u8, 105, 115, 97, 98, 108, 101, 100],
        vec![111u8, 102, 102],
    ];
    if bytes_are(b, &on_words[0]) || bytes_are(b, &on_words[1]) || bytes_are(b, &on_words[2]) {
        return Ok(true);
    }
    if bytes_are(b, &off_words[0]) || bytes_are(b, &off_words[1]) || bytes_are(b, &off_words[2]) {
        return Ok(false);
    }
    Err(())
}

/// The value of a boolean option from what the host holds for it: the
/// parsed value, or `default` when the host has none or it does not parse.
pub fn option_value(raw: Option<&str>, default: bool) -> (r: bool)
    ensures
        raw matches Some(s) && is_on_word(s.spec_bytes()) ==> r,
        raw matches Some(s) && is_off_word(s.spec_bytes()) ==> !r,
        (raw matches Some(s) ==> !is_on_word(s.spec_bytes()) && !is_off_word(s.spec_bytes()))
            ==> r == default,
{
    match raw {
        Some(s) => match parse_bool(s) {
            Ok(v) => v,
            Err(()) => default,
        },
        None => default,
    }
}

} // verus!
