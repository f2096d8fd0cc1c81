//! The cue list: one row for each cue that is not on the timeline.

use crate::app::AppState;
use crate::subrip::{Subrip, SubripState};
use crate::text::{decimal, decimal_text};
use crate::time::clock_text;
use crate::ui::subrip_list_item::SubripListItem;
use vstd::prelude::*;
use vstd::string::StringExecFns;

verus! {

/// The cue list.
#[derive(Debug)]
pub struct SubripListWidget {
    pub item_widgets: Vec<SubripListItem>,
}

/// Whether `item` is the fresh row of the cue `subrip` at `place`.
pub open spec fn is_row_of(item: SubripListItem, place: int, subrip: Subrip) -> bool {
    &&& item.subrip == place
    &&& item.content_text == subrip.content
    &&& item.begin_time_text@ == clock_text(subrip.begin_time.millis as nat)
    &&& item.end_time_text@ == clock_text(subrip.end_time.millis as nat)
    &&& item.old_content_text@.len() == 0
    &&& item.old_begin_time_text@.len() == 0
    &&& item.old_end_time_text@.len() == 0
}

/// The line above the list: how many rows there are.
pub open spec fn total_text(count: nat) -> Seq<char> {
    seq!['T', 'o', 't', 'a', 'l', ':', ' '] + decimal_text(count) + seq![
        ' ',
        's',
        'u',
        'b',
        'r',
        'i',
        'p',
        '(',
        's',
        ')',
    ]
}

/// Whether a row dragged in this frame has been dropped on the timeline:
/// the pointer let go of it below the list.
pub open spec fn is_dropped_below(dragged: bool, released: bool, pointer_y: i32, list_bottom: i32)
    -> bool {
    dragged && released && pointer_y > list_bottom
}

impl SubripListWidget {
    /// A list without rows.
    pub fn new() -> (r: Self)
        ensures
            r.item_widgets@.len() == 0,
    {
        Self { item_widgets: Vec::new() }
    }

    /// Adds the row of the cue at `place`, after the rows that are there.
    pub fn add(&mut self, place: usize, subrip: &Subrip)
        ensures
            final(self).item_widgets@.len() == old(self).item_widgets@.len() + 1,
            final(self).item_widgets@.drop_last() == old(self).item_widgets@,
            is_row_of(final(self).item_widgets@.last(), place as int, *subrip),
    {
        let widget = SubripListItem::new(place, subrip);
        self.item_widgets.push(widget);
        assert(self.item_widgets@.drop_last() =~= old(self).item_widgets@);
    }

    /// Takes up the cues that the transcription of the open media gave:
    /// each is put into the cue store and gets a row, in the order given.
    /// Without open media nothing is taken up.
    pub fn translate_by_ai(&mut self, state: &mut AppState, translated: &Vec<Subrip>)
        requires
            old(state).wf(),
            forall|i: int| 0 <= i < translated@.len() ==> (#[trigger] translated@[i]).wf(),
        ensures
            final(state).wf(),
            final(state).screen_width == old(state).screen_width,
            final(state).screen_height == old(state).screen_height,
            final(state).file_path_opening == old(state).file_path_opening,
            old(state).file_path_opening is None ==> final(state).subrips@ == old(state).subrips@
                && final(self).item_widgets@ == old(self).item_widgets@,
            old(state).file_path_opening is Some ==> ({
                let cues = old(state).subrips@.len();
                let rows = old(self).item_widgets@.len();
                &&& final(state).subrips@ == old(state).subrips@ + translated@
                &&& final(self).item_widgets@.len() == rows + translated@.len()
                &&& final(self).item_widgets@.take(rows as int) == old(self).item_widgets@
                &&& forall|i: int|
                    0 <= i < translated@.len() ==> is_row_of(
                        #[trigger] final(self).item_widgets@[rows + i],
                        cues + i,
                        translated@[i],
                    )
            }),
    {
        if state.file_path_opening.is_none() {
            return ;
        }
        let ghost cues = state.subrips@.len();
        let ghost rows = self.item_widgets@.len();
        let mut i: usize = 0;
        while i < translated.len()
            invariant
                i <= translated@.len(),
                state.wf(),
                forall|k: int| 0 <= k < translated@.len() ==> (#[trigger] translated@[k]).wf(),
                state.screen_width == old(state).screen_width,
                state.screen_height == old(state).screen_height,
                state.file_path_opening == old(state).file_path_opening,
                cues == old(state).subrips@.len(),
                rows == old(self).item_widgets@.len(),
                state.subrips@ == old(state).subrips@ + translated@.take(i as int),
                self.item_widgets@.len() == rows + i,
                self.item_widgets@.take(rows as int) == old(self).item_widgets@,
                forall|k: int|
                    0 <= k < i ==> is_row_of(
                        #[trigger] self.item_widgets@[rows + k],
                        cues + k,
                        translated@[k],
                    ),
            decreases translated@.len() - i,
        {
            let cue = translated[i].clone();
            let ghost rows_before = self.item_widgets@;
            let place = state.add_subrip(cue);
            self.add(place, &translated[i]);
            proof {
                assert(state.subrips@ =~= old(state).subrips@ + translated@.take(i + 1));
                assert(self.item_widgets@.take(rows as int) =~= rows_before.take(rows as int));
                assert forall|k: int| 0 <= k < i + 1 implies is_row_of(
                    #[trigger] self.item_widgets@[rows + k],
                    cues + k,
                    translated@[k],
                ) by {
                    if k < i {
                        assert(self.item_widgets@[rows + k] == rows_before[rows + k]);
                    }
                }
            }
            i = i + 1;
        }
        proof {
            assert(translated@.take(i as int) =~= translated@);
        }
    }

    /// Marks every cue deleted. The cues stay in the store.
    pub fn delete_all_subrips(&mut self, state: &mut AppState)
        ensures
            final(self).item_widgets == old(self).item_widgets,
            final(state).screen_width == old(state).screen_width,
            final(state).screen_height == old(state).screen_height,
            final(state).file_path_opening == old(state).file_path_opening,
            final(state).subrips@.len() == old(state).subrips@.len(),
            forall|i: int|
                0 <= i < old(state).subrips@.len() ==> (#[trigger] final(state).subrips@[i])
                    == (Subrip {
                    state: SubripState { is_deleted: true, ..old(state).subrips@[i].state },
                    ..old(state).subrips@[i]
                }),
            old(state).wf() ==> final(state).wf(),
    {
        let mut i: usize = 0;
        while i < state.subrips.len()
            invariant
                i <= state.subrips@.len(),
                self.item_widgets == old(self).item_widgets,
                state.screen_width == old(state).screen_width,
                state.screen_height == old(state).screen_height,
                state.file_path_opening == old(state).file_path_opening,
                state.subrips@.len() == old(state).subrips@.len(),
                forall|k: int|
                    0 <= k < i ==> (#[trigger] state.subrips@[k]) == (Subrip {
                        state: SubripState { is_deleted: true, ..old(state).subrips@[k].state },
                        ..old(state).subrips@[k]
                    }),
                forall|k: int|
                    i <= k < state.subrips@.len() ==> (#[trigger] state.subrips@[k])
                        == old(state).subrips@[k],
            decreases state.subrips@.len() - i,
        {
            let mut cue = state.subrips[i].clone();
            cue.delete();
            state.subrips.set(i, cue);
            i = i + 1;
        }
    }

    /// The line above the list, `Total: n subrip(s)`.
    pub fn total_label(&self) -> (r: String)
        ensures
            r@ == total_text(self.item_widgets@.len()),
    {
        let mut label = String::from_str("Total: ");
        label.append(decimal(self.item_widgets.len() as u64).as_str());
        label.append(" subrip(s)");
        proof {
            reveal_strlit("Total: ");
            reveal_strlit(" subrip(s)");
            assert(label@ =~= total_text(self.item_widgets@.len()));
        }
        label
    }

    /// Takes up what the pointer did to row `index` in this frame: a row
    /// dropped below the list puts its cue on the timeline. The cue is then
    /// marked loaded, and its place comes back for the timeline to take.
    pub fn drop_item(
        &self,
        index: usize,
        state: &mut AppState,
        dragged: bool,
        released: bool,
        pointer_y: i32,
        list_bottom: i32,
    ) -> (r: Option<usize>)
        ensures
            final(state).screen_width == old(state).screen_width,
            final(state).screen_height == old(state).screen_height,
            final(state).file_path_opening == old(state).file_path_opening,
            final(state).subrips@.len() == old(state).subrips@.len(),
            old(state).wf() ==> final(state).wf(),
            match r {
                Some(place) => {
                    &&& is_dropped_below(dragged, released, pointer_y, list_bottom)
                    &&& index < self.item_widgets@.len()
                    &&& place == self.item_widgets@[index as int].subrip
                    &&& place < old(state).subrips@.len()
                    &&& final(state).subrips@ == old(state).subrips@.update(
                        place as int,
                        Subrip {
                            state: SubripState {
                                is_loaded: true,
                                ..old(state).subrips@[place as int].state
                            },
                            ..old(state).subrips@[place as int]
                        },
                    )
                },
                None => {
                    &&& !(is_dropped_below(dragged, released, pointer_y, list_bottom) && index
                        < self.item_widgets@.len() && self.item_widgets@[index as int].subrip
                        < old(state).subrips@.len())
                    &&& final(state).subrips@ == old(state).subrips@
                },
            },
    {
        if !(dragged && released && pointer_y > list_bottom) {
            return None;
        }
        if index >= self.item_widgets.len() {
            return None;
        }
        let place = self.item_widgets[index].subrip;
        if place >= state.subrips.len() {
            return None;
        }
        let mut cue = state.subrips[place].clone();
        cue.set_loading(true);
        state.subrips.set(place, cue);
        Some(place)
    }
}

} // verus!
