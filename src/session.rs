//! The session adapter's own state and the decisions it takes each frame.

use vstd::prelude::*;

use crate::config::CoreVariables;
use crate::error::Error;
use crate::rtc::RTC_SYNC_DELAY_FRAMES;
use crate::savestate::{
    MAX_STATE_LEN, PREFIX_LEN, SAVESTATE_MARGIN, framed, max_length_of, read_frame,
    savestate_max_length, unframed, write_frame,
};
use crate::video::{convert_framebuffer, frame_of, rotation_applies};

verus! {

/// Abstract state of a session.
pub ghost struct SessionView {
    pub rtc_host_sync: bool,
    pub lcd_rotation_en: bool,
    /// Frames left before the next clock synchronisation.
    pub rtc_sync_counter: nat,
    /// Advertised savestate size, probed once at start.
    pub savestate_max_len: nat,
}

/// The state a session holds besides the emulated machine itself.
pub struct Context {
    rtc_host_sync: bool,
    lcd_rotation_en: bool,
    rtc_sync_counter: u32,
    savestate_max_len: usize,
}

/// The countdown after one frame with synchronisation enabled.
pub open spec fn next_countdown(counter: nat) -> nat {
    if counter == 0 {
        (RTC_SYNC_DELAY_FRAMES - 1) as nat
    } else {
        (counter - 1) as nat
    }
}

impl View for Context {
    type V = SessionView;

    closed spec fn view(&self) -> SessionView {
        SessionView {
            rtc_host_sync: self.rtc_host_sync,
            lcd_rotation_en: self.lcd_rotation_en,
            rtc_sync_counter: self.rtc_sync_counter as nat,
            savestate_max_len: self.savestate_max_len as nat,
        }
    }
}

impl Context {
    /// Starts a session with options `vars`, once the machine is built and
    /// its state found to encode to `state_len` bytes. Fails with
    /// `EncodeError` when no savestate could hold such a state.
    pub fn new(vars: CoreVariables, state_len: usize) -> (r: Result<Context, Error>)
        ensures
            r is Ok <==> max_length_of(state_len as int) is Some,
            r matches Ok(c) ==> c@ == (SessionView {
                rtc_host_sync: vars.rtc_host_sync,
                lcd_rotation_en: vars.lcd_rotation_en,
                rtc_sync_counter: 0,
                savestate_max_len: max_length_of(state_len as int)->0 as nat,
            }),
            r matches Err(e) ==> e == Error::EncodeError,
    {
        let max_len = savestate_max_length(state_len)?;
        let mut context = Context {
            rtc_host_sync: false,
            lcd_rotation_en: true,
            rtc_sync_counter: 0,
            savestate_max_len: 0,
        };
        context.refresh_variables(vars);
        context.savestate_max_len = max_len;
        Ok(context)
    }

    /// Applies new option values; they take effect from the next frame.
    pub fn refresh_variables(&mut self, vars: CoreVariables)
        ensures
            final(self)@ == (SessionView {
                rtc_host_sync: vars.rtc_host_sync,
                lcd_rotation_en: vars.lcd_rotation_en,
                ..old(self)@
            }),
    {
        self.rtc_host_sync = vars.rtc_host_sync;
        self.lcd_rotation_en = vars.lcd_rotation_en;
    }

    /// Counts down one frame towards the next clock synchronisation.
    /// Returns `true` when the clock must be synchronised this frame. With
    /// synchronisation off nothing changes.
    pub fn rtc_sync_due(&mut self) -> (r: bool)
        ensures
            !old(self)@.rtc_host_sync ==> !r && final(self)@ == old(self)@,
            old(self)@.rtc_host_sync ==> r == (old(self)@.rtc_sync_counter == 0) && final(self)@
                == (SessionView {
                rtc_sync_counter: next_countdown(old(self)@.rtc_sync_counter),
                ..old(self)@
            }),
    {
        if !self.rtc_host_sync {
            return false;
        }
        let due = self.rtc_sync_counter == 0;
        if due {
            self.rtc_sync_counter = RTC_SYNC_DELAY_FRAMES;
        }
        self.rtc_sync_counter = self.rtc_sync_counter - 1;
        due
    }

    /// Whether this frame is shown rotated, given whether the machine asks
    /// for rotation.
    pub fn rotate_display(&self, lcd_rotated: bool) -> (r: bool)
        ensures
            r == rotation_applies(self@.lcd_rotation_en, lcd_rotated),
    {
        self.lcd_rotation_en && lcd_rotated
    }

    /// The host frame for the machine's framebuffer `fb`.
    pub fn render_frame(&self, fb: &[u32; 32], lcd_rotated: bool) -> (r: Vec<u32>)
        ensures
            r@ == frame_of(fb@, rotation_applies(self@.lcd_rotation_en, lcd_rotated)),
    {
        let rotate = self.rotate_display(lcd_rotated);
        convert_framebuffer(fb, rotate)
    }

    /// The savestate size advertised to the host.
    pub fn serialize_size(&self) -> (r: usize)
        ensures
            r == self@.savestate_max_len,
    {
        self.savestate_max_len
    }

    /// Writes the encoded machine state `state` into the host's buffer.
    /// Fails with `EncodeError`, leaving the buffer as it was, when the
    /// container does not fit.
    pub fn serialize(&self, state: &Vec<u8>, buf: &mut Vec<u8>) -> (r: Result<(), Error>)
        ensures
            r is Ok <==> (state@.len() <= MAX_STATE_LEN && PREFIX_LEN + state@.len() <= old(
                buf,
            )@.len()),
            r is Ok ==> final(buf)@ == framed(state@) + old(buf)@.skip(
                PREFIX_LEN + state@.len(),
            ),
            r is Err ==> final(buf)@ == old(buf)@,
            r matches Err(e) ==> e == Error::EncodeError,
    {
        write_frame(state, buf)
    }

    /// Reads the encoded machine state back from a host buffer. Fails with
    /// `DecodeError` on a truncated or malformed buffer; the session is not
    /// changed either way.
    pub fn unserialize(&self, buf: &Vec<u8>) -> (r: Result<Vec<u8>, Error>)
        ensures
            r is Ok <==> unframed(buf@) is Some,
            r matches Ok(s) ==> Some(s@) == unframed(buf@),
            r matches Err(e) ==> e == Error::DecodeError,
    {
        read_frame(buf)
    }
}

/// A state that has grown by no more than the headroom since the probe is
/// always written in full into a buffer of the advertised size.
pub proof fn lemma_serialize_fits(probed_len: int, state_len: int, buf_len: int)
    requires
        0 <= probed_len,
        0 <= state_len <= probed_len + SAVESTATE_MARGIN,
        state_len <= MAX_STATE_LEN,
        max_length_of(probed_len) matches Some(n) && n == buf_len,
    ensures
        state_len <= MAX_STATE_LEN && PREFIX_LEN + state_len <= buf_len,
{
}

} // verus!
