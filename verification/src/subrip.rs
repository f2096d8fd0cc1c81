//! The cue: one timed piece of subtitle text.

use crate::text::{parse_u32, u32_reading};
use crate::time::{wrapped_millis, TimeOfDay};
use crate::utils::{naive_time_from_str, wire_time_reading, TimeTextError};
use vstd::prelude::*;
use vstd::string::{StringExecFns, StringSliceAdditionalSpecFns};

verus! {

/// The subtitle formats a cue can be written in.
#[derive(PartialEq, Eq, Debug, Clone, Copy, Structural)]
pub enum SubripFormat {
    SRT,
}

impl Default for SubripFormat {
    fn default() -> (r: Self)
        ensures
            r == SubripFormat::SRT,
    {
        SubripFormat::SRT
    }
}

/// The flags of a cue: whether it has been put on the timeline, and whether
/// it has been deleted. A deleted cue stays in the store.
#[derive(Debug, Clone, Copy, PartialEq, Eq, Structural)]
pub struct SubripState {
    pub is_loaded: bool,
    pub is_deleted: bool,
}

impl Default for SubripState {
    fn default() -> (r: Self)
        ensures
            !r.is_loaded,
            !r.is_deleted,
    {
        SubripState { is_loaded: false, is_deleted: false }
    }
}

/// A cue. `end_time` is expected to lie after `begin_time`, but nothing
/// enforces it: a gesture may cross the two, and the cue is then kept as it
/// is. `index` means nothing until the cues are numbered for export.
#[derive(Debug)]
pub struct Subrip {
    pub state: SubripState,
    pub format: SubripFormat,
    pub index: u32,
    pub begin_time: TimeOfDay,
    pub end_time: TimeOfDay,
    pub content: String,
}

/// Why four texts are not a cue.
#[derive(Clone, Copy, Debug, PartialEq, Eq, Structural)]
pub enum SubripTextError {
    /// The first text is not an unsigned number.
    Index,
    /// The second text is not a time.
    BeginTime(TimeTextError),
    /// The third text is not a time.
    EndTime(TimeTextError),
}

/// The index, begin and end that the first three of four texts give, given
/// as their bytes.
pub open spec fn cue_reading(index: Seq<u8>, begin: Seq<u8>, end: Seq<u8>) -> Result<
    (u32, TimeOfDay, TimeOfDay),
    SubripTextError,
> {
    match u32_reading(index) {
        None => Err(SubripTextError::Index),
        Some(i) => match wire_time_reading(begin) {
            Err(e) => Err(SubripTextError::BeginTime(e)),
            Ok(b) => match wire_time_reading(end) {
                Err(e) => Err(SubripTextError::EndTime(e)),
                Ok(e) => Ok((i, b, e)),
            },
        },
    }
}

impl Subrip {
    /// Both times are times of day.
    pub open spec fn wf(&self) -> bool {
        self.begin_time.wf() && self.end_time.wf()
    }

    /// Whether both times are times of day.
    pub fn is_wf(&self) -> (r: bool)
        ensures
            r == self.wf(),
    {
        self.begin_time.is_wf() && self.end_time.is_wf()
    }

    /// A fresh SRT cue that starts at `begin_time` and lasts `duration`
    /// milliseconds, wrapping at midnight. It is neither loaded nor deleted
    /// and has index 0.
    pub fn new(content: &str, begin_time: TimeOfDay, duration: i64) -> (r: Self)
        requires
            begin_time.wf(),
        ensures
            r.wf(),
            r.state == (SubripState { is_loaded: false, is_deleted: false }),
            r.format == SubripFormat::SRT,
            r.index == 0,
            r.begin_time == begin_time,
            r.end_time.millis == wrapped_millis(begin_time.millis as int, duration as int),
            r.content@ == content@,
    {
        Self {
            state: SubripState::default(),
            format: SubripFormat::SRT,
            index: 0,
            begin_time,
            end_time: begin_time.add_millis(duration),
            content: String::from_str(content),
        }
    }

    /// Makes a cue of four texts: index, begin as `MM:SS.mmm`, end in the
    /// same form, and content. The first text that does not read decides
    /// the error.
    pub fn from_vec_str(str: [&str; 4]) -> (r: Result<Self, SubripTextError>)
        ensures
            match cue_reading(str[0].spec_bytes(), str[1].spec_bytes(), str[2].spec_bytes()) {
                Err(e) => r == Err::<Subrip, SubripTextError>(e),
                Ok((index, begin, end)) => r matches Ok(cue) && cue.wf() && cue.index == index
                    && cue.begin_time == begin && cue.end_time == end && cue.content@ == str[3]@
                    && cue.format == SubripFormat::SRT && cue.state == (SubripState {
                    is_loaded: false,
                    is_deleted: false,
                }),
            },
    {
        let index = match parse_u32(str[0].as_bytes()) {
            Some(i) => i,
            None => {
                return Err(SubripTextError::Index);
            },
        };
        let start = match naive_time_from_str(str[1]) {
            Ok(t) => t,
            Err(e) => {
                return Err(SubripTextError::BeginTime(e));
            },
        };
        let end = match naive_time_from_str(str[2]) {
            Ok(t) => t,
            Err(e) => {
                return Err(SubripTextError::EndTime(e));
            },
        };
        Ok(
            Self {
                format: SubripFormat::SRT,
                index,
                begin_time: start,
                end_time: end,
                content: String::from_str(str[3]),
                state: SubripState::default(),
            },
        )
    }

    pub fn set_index(&mut self, index: u32)
        ensures
            *final(self) == (Subrip { index, ..*old(self) }),
    {
        self.index = index;
    }

    pub fn set_format(&mut self, format: SubripFormat)
        ensures
            *final(self) == (Subrip { format, ..*old(self) }),
    {
        self.format = format;
    }

    pub fn set_begin_time(&mut self, time: &TimeOfDay)
        ensures
            *final(self) == (Subrip { begin_time: *time, ..*old(self) }),
    {
        self.begin_time = *time;
    }

    pub fn set_end_time(&mut self, time: &TimeOfDay)
        ensures
            *final(self) == (Subrip { end_time: *time, ..*old(self) }),
    {
        self.end_time = *time;
    }

    pub fn set_content(&mut self, content: &str)
        ensures
            final(self).content@ == content@,
            final(self).state == old(self).state,
            final(self).format == old(self).format,
            final(self).index == old(self).index,
            final(self).begin_time == old(self).begin_time,
            final(self).end_time == old(self).end_time,
    {
        self.content = String::from_str(content);
    }

    pub fn get_index(&self) -> (r: u32)
        ensures
            r == self.index,
    {
        self.index
    }

    pub fn get_format(&self) -> (r: SubripFormat)
        ensures
            r == self.format,
    {
        self.format
    }

    pub fn get_begin_time(&self) -> (r: TimeOfDay)
        ensures
            r == self.begin_time,
    {
        self.begin_time
    }

    pub fn get_end_time(&self) -> (r: TimeOfDay)
        ensures
            r == self.end_time,
    {
        self.end_time
    }

    pub fn get_content(&self) -> (r: String)
        ensures
            r == self.content,
    {
        self.content.clone()
    }

    pub fn get_content_ref(&self) -> (r: &String)
        ensures
            *r == self.content,
    {
        &self.content
    }

    /// Milliseconds from begin to end; negative while the two are crossed.
    pub fn get_duration(&self) -> (r: i64)
        requires
            self.wf(),
        ensures
            r == self.end_time.millis - self.begin_time.millis,
    {
        self.end_time.millis_since(self.begin_time)
    }

    /// Shifts the begin by `delta` milliseconds, wrapping at midnight.
    pub fn add_begin_delta(&mut self, delta: i64)
        requires
            old(self).wf(),
        ensures
            final(self).wf(),
            final(self).begin_time.millis == wrapped_millis(
                old(self).begin_time.millis as int,
                delta as int,
            ),
            *final(self) == (Subrip { begin_time: final(self).begin_time, ..*old(self) }),
    {
        self.begin_time = self.begin_time.add_millis(delta);
    }

    /// Shifts the end by `delta` milliseconds, wrapping at midnight.
    pub fn add_end_delta(&mut self, delta: i64)
        requires
            old(self).wf(),
        ensures
            final(self).wf(),
            final(self).end_time.millis == wrapped_millis(
                old(self).end_time.millis as int,
                delta as int,
            ),
            *final(self) == (Subrip { end_time: final(self).end_time, ..*old(self) }),
    {
        self.end_time = self.end_time.add_millis(delta);
    }

    pub fn is_loaded(&self) -> (r: bool)
        ensures
            r == self.state.is_loaded,
    {
        self.state.is_loaded
    }

    pub fn set_loading(&mut self, flag: bool)
        ensures
            *final(self) == (Subrip {
                state: SubripState { is_loaded: flag, ..old(self).state },
                ..*old(self)
            }),
    {
        self.state.is_loaded = flag;
    }

    /// Marks the cue deleted. It stays where it is.
    pub fn delete(&mut self)
        ensures
            *final(self) == (Subrip {
                state: SubripState { is_deleted: true, ..old(self).state },
                ..*old(self)
            }),
    {
        self.state.is_deleted = true;
    }

    pub fn is_deleted(&self) -> (r: bool)
        ensures
            r == self.state.is_deleted,
    {
        self.state.is_deleted
    }

    pub fn toggle_loading(&mut self)
        ensures
            *final(self) == (Subrip {
                state: SubripState { is_loaded: !old(self).state.is_loaded, ..old(self).state },
                ..*old(self)
            }),
    {
        self.state.is_loaded = !self.state.is_loaded;
    }
}

impl PartialEq for Subrip {
    fn eq(&self, other: &Self) -> (r: bool) {
        self.content == other.content && self.index == other.index && self.begin_time
            == other.begin_time && self.end_time == other.end_time && self.format == other.format
            && self.state == other.state
    }
}

impl vstd::std_specs::cmp::PartialEqSpecImpl for Subrip {
    open spec fn obeys_eq_spec() -> bool {
        true
    }

    open spec fn eq_spec(&self, other: &Self) -> bool {
        self.content@ == other.content@ && self.index == other.index && self.begin_time
            == other.begin_time && self.end_time == other.end_time && self.format == other.format
            && self.state == other.state
    }
}

impl Clone for Subrip {
    fn clone(&self) -> (r: Self)
        ensures
            r == *self,
    {
        Subrip {
            state: self.state,
            format: self.format,
            index: self.index,
            begin_time: self.begin_time,
            end_time: self.end_time,
            content: self.content.clone(),
        }
    }
}

impl Default for Subrip {
    fn default() -> (r: Self)
        ensures
            r.wf(),
            r.state == (SubripState { is_loaded: false, is_deleted: false }),
            r.format == SubripFormat::SRT,
            r.index == 0,
            r.begin_time.millis == 0,
            r.end_time.millis == 0,
            r.content@ == Seq::<char>::empty(),
    {
        Subrip {
            state: SubripState::default(),
            format: SubripFormat::SRT,
            index: 0,
            begin_time: TimeOfDay::midnight(),
            end_time: TimeOfDay::midnight(),
            content: String::new(),
        }
    }
}

} // verus!
