//! The SRT reader: the way back from SRT text to cues.

use crate::io::srt_reading::{
    first_blank_line, first_block_len, first_newline, header_len, srt_block_reading, srt_reading,
    srt_time_reading, three_digit_reading, two_digit_reading, CueReading,
};
use crate::io::srt_writer::arrow_text;
use crate::subrip::{Subrip, SubripFormat, SubripState};
use crate::text::char_digit;
use crate::time::{TimeOfDay, MILLIS_PER_DAY};
use vstd::prelude::*;
use vstd::string::{StrSliceExecFns, StringExecFns};

verus! {

/// Whether `cue` is the cue made of what was read as `reading`: an SRT cue
/// with the begin, end and text read, index 0, neither loaded nor deleted.
pub open spec fn is_cue_of(cue: Subrip, reading: CueReading) -> bool {
    &&& cue.wf()
    &&& cue.begin_time.millis == reading.begin
    &&& cue.end_time.millis == reading.end
    &&& cue.content@ == reading.content
    &&& cue.index == 0
    &&& cue.format == SubripFormat::SRT
    &&& cue.state == (SubripState { is_loaded: false, is_deleted: false })
}

/// Whether `cues` are the cues made of what was read as `readings`, one
/// for one and in the same order.
pub open spec fn are_cues_of(cues: Seq<Subrip>, readings: Seq<CueReading>) -> bool {
    &&& cues.len() == readings.len()
    &&& forall|i: int| 0 <= i < cues.len() ==> is_cue_of(#[trigger] cues[i], readings[i])
}

/// The characters of a text.
fn chars_of(text: &str) -> (r: Vec<char>)
    ensures
        r@ == text@,
{
    let mut chars: Vec<char> = Vec::new();
    for c in it: text.chars()
        invariant
            chars@ == it.seq().take(it.index() as int),
            it.seq() == text@,
    {
        chars.push(c);
    }
    assert(chars@ =~= text@);
    chars
}

/// The digit that a character stands for.
fn digit_of(c: char) -> (r: Option<u32>)
    ensures
        match char_digit(c) {
            Some(d) => r == Some(d as u32) && 0 <= d < 10,
            None => r is None,
        },
{
    if c == '0' {
        Some(0)
    } else if c == '1' {
        Some(1)
    } else if c == '2' {
        Some(2)
    } else if c == '3' {
        Some(3)
    } else if c == '4' {
        Some(4)
    } else if c == '5' {
        Some(5)
    } else if c == '6' {
        Some(6)
    } else if c == '7' {
        Some(7)
    } else if c == '8' {
        Some(8)
    } else if c == '9' {
        Some(9)
    } else {
        None
    }
}

/// The number that two digit characters write.
fn read_two_digits(tens: char, units: char) -> (r: Option<u32>)
    ensures
        match two_digit_reading(tens, units) {
            Some(n) => r == Some(n as u32) && 0 <= n < 100,
            None => r is None,
        },
{
    match (digit_of(tens), digit_of(units)) {
        (Some(t), Some(u)) => Some(10 * t + u),
        _ => None,
    }
}

/// The number that three digit characters write.
fn read_three_digits(hundreds: char, tens: char, units: char) -> (r: Option<u32>)
    ensures
        match three_digit_reading(hundreds, tens, units) {
            Some(n) => r == Some(n as u32) && 0 <= n < 1000,
            None => r is None,
        },
{
    match (digit_of(hundreds), digit_of(tens), digit_of(units)) {
        (Some(h), Some(t), Some(u)) => Some(100 * h + 10 * t + u),
        _ => None,
    }
}

/// Reads the twelve characters from `from` on as a time, `hh:mm:ss,mmm`.
fn read_time(chars: &Vec<char>, from: usize) -> (r: Option<TimeOfDay>)
    requires
        from + 12 <= chars@.len(),
    ensures
        match srt_time_reading(chars@.subrange(from as int, from + 12)) {
            Some(millis) => r == Some(TimeOfDay { millis: millis as u32 }) && 0 <= millis
                < MILLIS_PER_DAY,
            None => r is None,
        },
{
    reveal(srt_time_reading);
    let n = chars.len();
    assert(from + 12 <= n);
    let ghost s = chars@.subrange(from as int, from + 12);
    assert(s.len() == 12);
    assert(forall|i: int| 0 <= i < 12 ==> s[i] == chars@[from + i]);
    if chars[from + 2] != ':' || chars[from + 5] != ':' || chars[from + 8] != ',' {
        return None;
    }
    let hours = read_two_digits(chars[from], chars[from + 1]);
    let minutes = read_two_digits(chars[from + 3], chars[from + 4]);
    let seconds = read_two_digits(chars[from + 6], chars[from + 7]);
    let millis = read_three_digits(chars[from + 9], chars[from + 10], chars[from + 11]);
    match (hours, minutes, seconds, millis) {
        (Some(h), Some(m), Some(sec), Some(ms)) => {
            if h < 24 && m < 60 && sec < 60 {
                Some(TimeOfDay { millis: h * 3_600_000 + m * 60_000 + sec * 1000 + ms })
            } else {
                None
            }
        },
        _ => None,
    }
}

/// The first line break of `s` stands at `at` if none stands before it and
/// one stands there, or `s` ends there.
proof fn lemma_first_newline_at(s: Seq<char>, at: int)
    requires
        0 <= at <= s.len(),
        forall|j: int| 0 <= j < at ==> s[j] != '\n',
        at < s.len() ==> s[at] == '\n',
    ensures
        first_newline(s) == at,
    decreases at,
{
    if at > 0 {
        let rest = s.skip(1);
        assert forall|j: int| 0 <= j < at - 1 implies rest[j] != '\n' by {
            assert(rest[j] == s[j + 1]);
        }
        if at < s.len() {
            assert(rest[at - 1] == s[at]);
        }
        lemma_first_newline_at(rest, at - 1);
    }
}

/// The first empty line of `s` begins at `at` if none begins before it and
/// one begins there, or `at` is the end of `s` and there is none.
proof fn lemma_first_blank_line_at(s: Seq<char>, at: int)
    requires
        0 <= at <= s.len(),
        forall|j: int|
            0 <= j < at && j + 1 < s.len() ==> !(#[trigger] s[j] == '\n' && s[j + 1] == '\n'),
        at < s.len() ==> at + 1 < s.len() && s[at] == '\n' && s[at + 1] == '\n',
    ensures
        first_blank_line(s) == at,
    decreases at,
{
    if at > 0 {
        let rest = s.skip(1);
        if s.len() >= 2 {
            assert(!(s[0] == '\n' && s[0int + 1] == '\n'));
        }
        assert forall|j: int| 0 <= j < at - 1 && j + 1 < rest.len() implies !(#[trigger] rest[j]
            == '\n' && rest[j + 1] == '\n') by {
            assert(rest[j] == s[j + 1]);
            assert(rest[j + 1] == s[j + 1 + 1]);
        }
        if at < s.len() {
            assert(rest[at - 1] == s[at]);
            assert(rest[at] == s[at + 1]);
        }
        if s.len() >= 2 {
            lemma_first_blank_line_at(rest, at - 1);
        }
    }
}

/// Where the first line break at or after `from` stands; the length of the
/// text if there is none.
fn find_newline(chars: &Vec<char>, from: usize) -> (r: usize)
    requires
        from <= chars@.len(),
    ensures
        from <= r <= chars@.len(),
        r == from + first_newline(chars@.skip(from as int)),
{
    let mut i: usize = from;
    while i < chars.len() && chars[i] != '\n'
        invariant
            from <= i <= chars@.len(),
            forall|j: int| from <= j < i ==> chars@[j] != '\n',
        decreases chars@.len() - i,
    {
        i = i + 1;
    }
    proof {
        let s = chars@.skip(from as int);
        assert forall|j: int| 0 <= j < i - from implies s[j] != '\n' by {
            assert(s[j] == chars@[from + j]);
        }
        lemma_first_newline_at(s, i - from);
    }
    i
}

/// Where the first empty line at or after `from` begins; the length of
/// the text if there is none.
fn find_blank_line(chars: &Vec<char>, from: usize) -> (r: usize)
    requires
        from <= chars@.len(),
    ensures
        from <= r <= chars@.len(),
        r == from + first_blank_line(chars@.skip(from as int)),
        r < chars@.len() ==> r + 1 < chars@.len() && chars@[r as int] == '\n' && chars@[r + 1]
            == '\n',
{
    let n = chars.len();
    let mut i: usize = from;
    while n - i >= 2 && !(chars[i] == '\n' && chars[i + 1] == '\n')
        invariant
            from <= i <= n,
            n == chars@.len(),
            forall|j: int|
                from <= j < i && j + 1 < n ==> !(#[trigger] chars@[j] == '\n' && chars@[j + 1]
                    == '\n'),
        decreases n - i,
    {
        i = i + 1;
    }
    let found = if n - i >= 2 {
        i
    } else {
        n
    };
    proof {
        let s = chars@.skip(from as int);
        assert forall|j: int| 0 <= j < found - from && j + 1 < s.len() implies !(#[trigger] s[j]
            == '\n' && s[j + 1] == '\n') by {
            assert(s[j] == chars@[from + j]);
            assert(s[j + 1] == chars@[from + j + 1]);
        }
        lemma_first_blank_line_at(s, found - from);
    }
    found
}

/// Reads SRT text: block after block, each an index line, a time line
/// `hh:mm:ss,mmm --> hh:mm:ss,mmm`, a text, and an empty line. The index
/// lines are passed over. Text that is not made of such blocks to its end
/// reads as nothing.
#[verifier::rlimit(50)]
pub fn read_srt(text: &str) -> (r: Option<Vec<Subrip>>)
    ensures
        match srt_reading(text@) {
            Some(readings) => r matches Some(cues) && are_cues_of(cues@, readings),
            None => r is None,
        },
{
    let chars = chars_of(text);
    let n = chars.len();
    let mut cues: Vec<Subrip> = Vec::new();
    let ghost mut done: Seq<CueReading> = Seq::empty();
    let mut pos: usize = 0;
    proof {
        assert(text@.skip(0) =~= text@);
        assert(done + srt_reading(text@)->0 =~= srt_reading(text@)->0);
    }
    while pos < n
        invariant
            pos <= n,
            n == chars@.len(),
            chars@ == text@,
            are_cues_of(cues@, done),
            match srt_reading(text@.skip(pos as int)) {
                Some(rest) => srt_reading(text@) == Some(done + rest),
                None => srt_reading(text@) is None,
            },
        decreases n - pos,
    {
        let ghost s = text@.skip(pos as int);
        let line_end = find_newline(&chars, pos);
        if n - line_end < 31 {
            return None;
        }
        let start = line_end + 31;
        let blank = find_blank_line(&chars, start);
        proof {
            assert(s.skip(line_end - pos + header_len()) =~= chars@.skip(start as int));
        }
        if blank >= n {
            return None;
        }
        let end = blank + 2;
        let ghost block = s.take(end - pos);
        proof {
            assert(first_block_len(s) == end - pos);
            assert(s.skip(end - pos) =~= text@.skip(end as int));
            assert forall|j: int| 0 <= j < line_end - pos implies block[j] != '\n' by {
                let whole = chars@.skip(pos as int);
                lemma_first_newline_before(whole, j);
                assert(block[j] == whole[j]);
            }
            assert(block[line_end - pos] == '\n') by {
                let whole = chars@.skip(pos as int);
                lemma_first_newline_there(whole);
                assert(block[line_end - pos] == whole[line_end - pos]);
            }
            lemma_first_newline_at(block, line_end - pos);
            assert(block.subrange(line_end - pos + 1, line_end - pos + 13) =~= chars@.subrange(
                line_end + 1,
                line_end + 13,
            ));
            assert(block.subrange(line_end - pos + 18, line_end - pos + 30) =~= chars@.subrange(
                line_end + 18,
                line_end + 30,
            ));
            assert(block.subrange(line_end - pos + header_len(), block.len() - 2)
                =~= text@.subrange(start as int, blank as int));
            assert(block[line_end - pos + 30] == chars@[line_end + 30]);
            assert(block[block.len() - 2] == chars@[blank as int]);
            assert(block[block.len() - 1] == chars@[blank + 1]);
            let arrow = block.subrange(line_end - pos + 13, line_end - pos + 18);
            assert(arrow.len() == 5);
            assert(forall|j: int| 0 <= j < 5 ==> arrow[j] == chars@[line_end + 13 + j]);
            assert(arrow_text().len() == 5);
        }
        let arrow_found = chars[line_end + 13] == ' ' && chars[line_end + 14] == '-' && chars[line_end
            + 15] == '-' && chars[line_end + 16] == '>' && chars[line_end + 17] == ' ';
        proof {
            let arrow = block.subrange(line_end - pos + 13, line_end - pos + 18);
            if arrow_found {
                assert(arrow =~= arrow_text());
            } else {
                assert(arrow != arrow_text()) by {
                    if arrow == arrow_text() {
                        assert(arrow[0] == ' ' && arrow[1] == '-' && arrow[2] == '-' && arrow[3]
                            == '>' && arrow[4] == ' ');
                    }
                }
            }
        }
        if !arrow_found || chars[line_end + 30] != '\n' {
            return None;
        }
        let begin = match read_time(&chars, line_end + 1) {
            Some(t) => t,
            None => {
                return None;
            },
        };
        let finish = match read_time(&chars, line_end + 18) {
            Some(t) => t,
            None => {
                return None;
            },
        };
        let content = String::from_str(text.substring_char(start, blank));
        let ghost first = CueReading {
            begin: begin.millis as int,
            end: finish.millis as int,
            content: content@,
        };
        proof {
            assert(srt_block_reading(block) == Some(first));
            match srt_reading(text@.skip(end as int)) {
                Some(rest) => {
                    assert(done + (seq![first] + rest) =~= done.push(first) + rest);
                },
                None => {},
            }
        }
        let ghost before = cues@;
        cues.push(
            Subrip {
                state: SubripState::default(),
                format: SubripFormat::SRT,
                index: 0,
                begin_time: begin,
                end_time: finish,
                content,
            },
        );
        proof {
            done = done.push(first);
            assert forall|i: int| 0 <= i < cues@.len() implies is_cue_of(
                #[trigger] cues@[i],
                done[i],
            ) by {
                if i < before.len() {
                    assert(cues@[i] == before[i]);
                }
            }
        }
        pos = end;
    }
    proof {
        assert(text@.skip(pos as int) =~= Seq::<char>::empty());
        assert(done + Seq::<CueReading>::empty() =~= done);
    }
    Some(cues)
}

/// No line break stands before the first one.
proof fn lemma_first_newline_before(s: Seq<char>, j: int)
    requires
        0 <= j < first_newline(s),
    ensures
        j < s.len(),
        s[j] != '\n',
    decreases s.len(),
{
    if s.len() == 0 {
    } else if s[0] == '\n' {
    } else if j > 0 {
        lemma_first_newline_before(s.skip(1), j - 1);
        assert(s.skip(1)[j - 1] == s[j]);
    }
}

/// The first line break is one, unless the text ends without any.
proof fn lemma_first_newline_there(s: Seq<char>)
    ensures
        0 <= first_newline(s) <= s.len(),
        first_newline(s) < s.len() ==> s[first_newline(s)] == '\n',
    decreases s.len(),
{
    if s.len() == 0 {
    } else if s[0] == '\n' {
    } else {
        lemma_first_newline_there(s.skip(1));
        if first_newline(s.skip(1)) < s.skip(1).len() {
            assert(s.skip(1)[first_newline(s.skip(1))] == s[first_newline(s)]);
        }
    }
}

} // verus!
