//! One row of the cue list: begin, end and text of a cue, each in a field
//! that can be written in.

use crate::subrip::Subrip;
use crate::time::{clock_reading, clock_text, time_of_reading, TimeOfDay};
use vstd::prelude::*;

verus! {

/// One row of the cue list.
#[derive(Debug)]
pub struct SubripListItem {
    /// The place of the cue in the cue store.
    pub subrip: usize,
    /// The begin as written in its field, `hh:mm:ss`.
    pub begin_time_text: String,
    /// The end as written in its field, `hh:mm:ss`.
    pub end_time_text: String,
    /// The text as written in its field.
    pub content_text: String,
    /// The begin field as it was when it was last taken over.
    pub old_begin_time_text: String,
    /// The end field as it was when it was last taken over.
    pub old_end_time_text: String,
    /// The text field as it was when it was last taken over.
    pub old_content_text: String,
}

/// The time of a cue after its field, which read `old_text` when it was
/// last taken over, reads `text`: the time that the text stands for, if the
/// text has changed and stands for one, and the time as it was otherwise.
pub open spec fn time_after_edit(time: TimeOfDay, text: Seq<char>, old_text: Seq<char>)
    -> TimeOfDay {
    time_after_reading(time, text != old_text, time_of_reading(clock_reading(text)))
}

/// The time of a cue after its field is taken over: what the field reads
/// as, if it has changed and reads as a time, and the time as it was
/// otherwise.
pub open spec fn time_after_reading(time: TimeOfDay, changed: bool, reading: Option<TimeOfDay>)
    -> TimeOfDay {
    match reading {
        Some(t) if changed => t,
        _ => time,
    }
}

impl SubripListItem {
    /// The row of the cue at `place`: the fields show the cue, and nothing
    /// has been taken over from them yet.
    pub fn new(place: usize, subrip: &Subrip) -> (r: Self)
        ensures
            r.subrip == place,
            r.content_text == subrip.content,
            r.begin_time_text@ == clock_text(subrip.begin_time.millis as nat),
            r.end_time_text@ == clock_text(subrip.end_time.millis as nat),
            r.old_content_text@.len() == 0,
            r.old_begin_time_text@.len() == 0,
            r.old_end_time_text@.len() == 0,
    {
        Self {
            subrip: place,
            content_text: subrip.get_content(),
            begin_time_text: subrip.get_begin_time().to_clock_text(),
            end_time_text: subrip.get_end_time().to_clock_text(),
            old_content_text: String::new(),
            old_begin_time_text: String::new(),
            old_end_time_text: String::new(),
        }
    }

    /// The time of a cue after its field is taken over: what the field
    /// reads as, if it has changed and reads as a time, and the time as it
    /// was otherwise.
    pub fn edited_time(time: TimeOfDay, changed: bool, reading: Option<TimeOfDay>) -> (r: TimeOfDay)
        ensures
            r == time_after_reading(time, changed, reading),
    {
        match reading {
            Some(t) => if changed {
                t
            } else {
                time
            },
            None => time,
        }
    }

    /// Whether two texts are the same.
    fn same_text(a: &str, b: &str) -> (r: bool)
        ensures
            r == (a@ == b@),
    {
        let x = a.to_owned();
        let y = b.to_owned();
        x == y
    }

    /// Whether `after` and `cue_after` are this row and the cue `cue_before`
    /// once the fields have been taken over: each field is remembered as
    /// taken over, and a field that had changed since it was last taken
    /// over has changed the cue, if it could be read. A time field that
    /// cannot be read as `hh:mm:ss` leaves the time as it was. Index,
    /// format and flags of the cue stay.
    pub open spec fn taken_over(
        &self,
        cue_before: Subrip,
        after: SubripListItem,
        cue_after: Subrip,
    ) -> bool {
        &&& after.subrip == self.subrip
        &&& after.begin_time_text == self.begin_time_text
        &&& after.end_time_text == self.end_time_text
        &&& after.content_text == self.content_text
        &&& after.old_begin_time_text@ == self.begin_time_text@
        &&& after.old_end_time_text@ == self.end_time_text@
        &&& after.old_content_text@ == self.content_text@
        &&& cue_after.begin_time == time_after_edit(
            cue_before.begin_time,
            self.begin_time_text@,
            self.old_begin_time_text@,
        )
        &&& cue_after.end_time == time_after_edit(
            cue_before.end_time,
            self.end_time_text@,
            self.old_end_time_text@,
        )
        &&& cue_after.content@ == if self.content_text@ != self.old_content_text@ {
            self.content_text@
        } else {
            cue_before.content@
        }
        &&& cue_after.index == cue_before.index
        &&& cue_after.format == cue_before.format
        &&& cue_after.state == cue_before.state
    }

    /// Takes the fields over into the cue: see `taken_over`.
    pub fn sync_data(&mut self, subrip: &mut Subrip)
        ensures
            old(self).taken_over(*old(subrip), *final(self), *final(subrip)),
            old(subrip).wf() ==> final(subrip).wf(),
    {
        let begin = Self::edited_time(
            subrip.begin_time,
            !Self::same_text(self.begin_time_text.as_str(), self.old_begin_time_text.as_str()),
            TimeOfDay::parse_clock(self.begin_time_text.as_str()),
        );
        subrip.set_begin_time(&begin);
        self.old_begin_time_text = self.begin_time_text.clone();
        let end = Self::edited_time(
            subrip.end_time,
            !Self::same_text(self.end_time_text.as_str(), self.old_end_time_text.as_str()),
            TimeOfDay::parse_clock(self.end_time_text.as_str()),
        );
        subrip.set_end_time(&end);
        self.old_end_time_text = self.end_time_text.clone();
        if !Self::same_text(self.content_text.as_str(), self.old_content_text.as_str()) {
            self.old_content_text = self.content_text.clone();
            subrip.set_content(self.old_content_text.as_str());
        }
    }

    /// One frame of the row. A cue that is on the timeline has no row:
    /// nothing is shown and nothing is taken over. Otherwise the row is
    /// shown and its fields are taken over into the cue.
    pub fn draw(&mut self, subrip: &mut Subrip) -> (r: bool)
        ensures
            r == !old(subrip).state.is_loaded,
            !r ==> *final(self) == *old(self) && *final(subrip) == *old(subrip),
            r ==> old(self).taken_over(*old(subrip), *final(self), *final(subrip)),
            old(subrip).wf() ==> final(subrip).wf(),
    {
        if subrip.is_loaded() {
            return false;
        }
        self.sync_data(subrip);
        true
    }
}

} // verus!
