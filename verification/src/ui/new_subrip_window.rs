//! The window in which a new cue is written.

use crate::subrip::{Subrip, SubripFormat, SubripState};
use crate::time::{wrapped_millis, TimeOfDay, SECS_PER_DAY};
use vstd::prelude::*;
use vstd::string::StringExecFns;

verus! {

/// How long a new cue lasts, in milliseconds.
pub const DEFAULT_DURATION_MS: i64 = 5000;

/// The window in which a new cue is written.
#[derive(Debug)]
pub struct NewSubripWindow {
    pub title: String,
    /// The text written so far.
    pub subrip_text: String,
    pub visible: bool,
}

/// Where a new cue begins, in milliseconds since midnight: at the playhead,
/// given in whole seconds, or at midnight where there is no playhead or it
/// stands beyond the day. Of the seconds the low 32 bits count.
pub open spec fn new_cue_begin(cursor_timestamp: Option<i64>) -> int {
    match cursor_timestamp {
        Some(seconds) if seconds as int % 0x1_0000_0000 < SECS_PER_DAY => (seconds as int
            % 0x1_0000_0000) * 1000,
        _ => 0,
    }
}

/// Whether `cue` is the new cue with the text `content` for a playhead at
/// `cursor_timestamp`: it begins there, lasts the default duration, and is
/// neither loaded nor deleted.
pub open spec fn is_new_cue(cue: Subrip, content: Seq<char>, cursor_timestamp: Option<i64>)
    -> bool {
    &&& cue.wf()
    &&& cue.content@ == content
    &&& cue.begin_time.millis == new_cue_begin(cursor_timestamp)
    &&& cue.end_time.millis == wrapped_millis(
        new_cue_begin(cursor_timestamp),
        DEFAULT_DURATION_MS as int,
    )
    &&& cue.index == 0
    &&& cue.format == SubripFormat::SRT
    &&& cue.state == (SubripState { is_loaded: false, is_deleted: false })
}

/// The number that the low 32 bits of `v` write.
pub fn low_32_bits(v: i64) -> (r: i64)
    ensures
        r == v as int % 0x1_0000_0000,
        0 <= r < 0x1_0000_0000,
{
    if v >= 0 {
        v % 0x1_0000_0000
    } else {
        let below: i64 = -(v + 1);
        let rest: i64 = below % 0x1_0000_0000;
        proof {
            let q = below as int / 0x1_0000_0000;
            assert(below == q * 0x1_0000_0000 + rest);
            assert(v == (-q - 1) * 0x1_0000_0000 + (0x1_0000_0000 - 1 - rest));
            vstd::arithmetic::div_mod::lemma_fundamental_div_mod_converse(
                v as int,
                0x1_0000_0000,
                -q - 1,
                0x1_0000_0000 - 1 - rest,
            );
        }
        0x1_0000_0000 - 1 - rest
    }
}

impl Default for NewSubripWindow {
    fn default() -> (r: Self)
        ensures
            !r.visible,
            r.subrip_text@.len() == 0,
            r.title@ == seq!['N', 'e', 'w', ' ', 'S', 'u', 'b', 'r', 'i', 'p'],
    {
        Self::new()
    }
}

impl NewSubripWindow {
    /// The window, hidden and without text.
    pub fn new() -> (r: Self)
        ensures
            !r.visible,
            r.subrip_text@.len() == 0,
            r.title@ == seq!['N', 'e', 'w', ' ', 'S', 'u', 'b', 'r', 'i', 'p'],
    {
        proof {
            reveal_strlit("New Subrip");
            assert("New Subrip"@ =~= seq!['N', 'e', 'w', ' ', 'S', 'u', 'b', 'r', 'i', 'p']);
        }
        Self { title: String::from_str("New Subrip"), subrip_text: String::new(), visible: false }
    }

    /// Shows the window if it is hidden, and hides it if it is shown.
    pub fn toggle_visible(&mut self)
        ensures
            final(self).visible == !old(self).visible,
            final(self).title == old(self).title,
            final(self).subrip_text == old(self).subrip_text,
    {
        self.visible = !self.visible;
    }

    /// The cue that the text written makes, for a playhead at
    /// `cursor_timestamp` whole seconds.
    pub fn create_subrip(&self, cursor_timestamp: Option<i64>) -> (r: Subrip)
        ensures
            is_new_cue(r, self.subrip_text@, cursor_timestamp),
    {
        let begin_time = match cursor_timestamp {
            Some(seconds) => {
                let low = low_32_bits(seconds);
                if low < SECS_PER_DAY as i64 {
                    TimeOfDay { millis: (low * 1000) as u32 }
                } else {
                    TimeOfDay::midnight()
                }
            },
            None => TimeOfDay::midnight(),
        };
        Subrip::new(self.subrip_text.as_str(), begin_time, DEFAULT_DURATION_MS)
    }

    /// One frame of the window: a click on "submit" while the window is
    /// shown and holds text makes a cue of the text and clears it.
    pub fn draw(&mut self, submit_clicked: bool, cursor_timestamp: Option<i64>) -> (r: Option<
        Subrip,
    >)
        ensures
            final(self).visible == old(self).visible,
            final(self).title == old(self).title,
            match r {
                Some(cue) => old(self).visible && submit_clicked && old(self).subrip_text@.len() > 0
                    && is_new_cue(cue, old(self).subrip_text@, cursor_timestamp)
                    && final(self).subrip_text@.len() == 0,
                None => !(old(self).visible && submit_clicked && old(self).subrip_text@.len() > 0)
                    && final(self).subrip_text == old(self).subrip_text,
            },
    {
        if self.visible && submit_clicked && !self.subrip_text.as_str().is_empty() {
            let cue = self.create_subrip(cursor_timestamp);
            self.subrip_text = String::new();
            Some(cue)
        } else {
            None
        }
    }
}

} // verus!
