//! The window in which the text of a cue is changed.

use crate::subrip::Subrip;
use vstd::prelude::*;

verus! {

/// The window in which the text of a cue is changed.
#[derive(Debug)]
pub struct EditSubripWindow {
    /// The place of the cue in the cue store.
    pub subrip: Option<usize>,
    pub visible: bool,
    /// The text as it is being written.
    pub text: String,
}

impl Default for EditSubripWindow {
    fn default() -> (r: Self)
        ensures
            r.subrip is None,
            !r.visible,
            r.text@.len() == 0,
    {
        Self::new()
    }
}

impl EditSubripWindow {
    /// The window, hidden and without a cue.
    pub fn new() -> (r: Self)
        ensures
            r.subrip is None,
            !r.visible,
            r.text@.len() == 0,
    {
        Self { subrip: None, visible: false, text: String::new() }
    }

    /// Takes up the cue at `place` and shows the window.
    pub fn edit_subrip(&mut self, place: usize, subrip: &Subrip)
        ensures
            final(self).subrip == Some(place),
            final(self).text == subrip.content,
            final(self).visible,
    {
        self.set_subrip(place, subrip);
        self.visible = true;
    }

    /// Takes up the cue at `place`: its text is what is written from now on.
    pub fn set_subrip(&mut self, place: usize, subrip: &Subrip)
        ensures
            final(self).subrip == Some(place),
            final(self).text == subrip.content,
            final(self).visible == old(self).visible,
    {
        self.text = subrip.get_content();
        self.subrip = Some(place);
    }

    /// Gives the cue the text written and hides the window. Without a cue,
    /// or with one that is not in `subrips`, only the window is hidden.
    pub fn submit(&mut self, subrips: &mut Vec<Subrip>)
        ensures
            !final(self).visible,
            final(self).subrip == old(self).subrip,
            final(self).text == old(self).text,
            final(subrips)@.len() == old(subrips)@.len(),
            forall|i: int|
                0 <= i < old(subrips)@.len() && Some(i as usize) != old(self).subrip
                    ==> final(subrips)@[i] == old(subrips)@[i],
            match old(self).subrip {
                Some(place) if place < old(subrips)@.len() => {
                    let before = old(subrips)@[place as int];
                    let after = final(subrips)@[place as int];
                    &&& after.content@ == old(self).text@
                    &&& after.begin_time == before.begin_time
                    &&& after.end_time == before.end_time
                    &&& after.index == before.index
                    &&& after.format == before.format
                    &&& after.state == before.state
                },
                _ => final(subrips)@ == old(subrips)@,
            },
    {
        match self.subrip {
            Some(place) => {
                if place < subrips.len() {
                    let mut cue = subrips[place].clone();
                    cue.set_content(self.text.as_str());
                    subrips.set(place, cue);
                }
            },
            None => {},
        }
        self.visible = false;
    }

    /// One frame of the window: a click on "submit" while the window is
    /// shown gives the cue the text written and hides the window.
    pub fn draw(&mut self, submit_clicked: bool, subrips: &mut Vec<Subrip>)
        ensures
            final(self).subrip == old(self).subrip,
            final(self).text == old(self).text,
            final(self).visible == (old(self).visible && !submit_clicked),
            final(subrips)@.len() == old(subrips)@.len(),
            !(old(self).visible && submit_clicked) ==> final(subrips)@ == old(subrips)@,
            forall|i: int|
                0 <= i < old(subrips)@.len() && Some(i as usize) != old(self).subrip
                    ==> final(subrips)@[i] == old(subrips)@[i],
            old(self).visible && submit_clicked ==> match old(self).subrip {
                Some(place) if place < old(subrips)@.len() => {
                    let before = old(subrips)@[place as int];
                    let after = final(subrips)@[place as int];
                    &&& after.content@ == old(self).text@
                    &&& after.begin_time == before.begin_time
                    &&& after.end_time == before.end_time
                    &&& after.index == before.index
                    &&& after.format == before.format
                    &&& after.state == before.state
                },
                _ => final(subrips)@ == old(subrips)@,
            },
    {
        if self.visible && submit_clicked {
            self.submit(subrips);
        }
    }
}

} // verus!
