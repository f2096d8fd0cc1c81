//! What SRT text reads as: which begin, end and text a written block
//! stands for, and the proof that nothing is lost between writing and
//! reading.

use crate::io::srt_writer::{arrow_text, srt_block_text, srt_text};
use crate::io::{export_list, lemma_sorted_by_begin, sorted_by_begin};
use crate::subrip::Subrip;
use crate::text::{
    char_digit, decimal_text, digit_char, lemma_padded2_below_100, padded2_text, padded3_text,
};
use crate::time::{srt_time_text, MILLIS_PER_DAY};
use vstd::prelude::*;

verus! {

/// What is read of a cue: begin and end in milliseconds since midnight,
/// and the text.
pub struct CueReading {
    pub begin: int,
    pub end: int,
    pub content: Seq<char>,
}

/// What a reader is to find for a cue.
pub open spec fn reading_of(cue: Subrip) -> CueReading {
    CueReading {
        begin: cue.begin_time.millis as int,
        end: cue.end_time.millis as int,
        content: cue.content@,
    }
}

/// The number that two digit characters write.
pub open spec fn two_digit_reading(tens: char, units: char) -> Option<int> {
    match (char_digit(tens), char_digit(units)) {
        (Some(t), Some(u)) => Some(10 * t + u),
        _ => None,
    }
}

/// The number that three digit characters write.
pub open spec fn three_digit_reading(hundreds: char, tens: char, units: char) -> Option<int> {
    match (char_digit(hundreds), char_digit(tens), char_digit(units)) {
        (Some(h), Some(t), Some(u)) => Some(100 * h + 10 * t + u),
        _ => None,
    }
}

/// The milliseconds since midnight that `hh:mm:ss,mmm` stands for.
#[verifier::opaque]
pub open spec fn srt_time_reading(s: Seq<char>) -> Option<int> {
    if s.len() == 12 && s[2] == ':' && s[5] == ':' && s[8] == ',' {
        match (
            two_digit_reading(s[0], s[1]),
            two_digit_reading(s[3], s[4]),
            two_digit_reading(s[6], s[7]),
            three_digit_reading(s[9], s[10], s[11]),
        ) {
            (Some(h), Some(m), Some(sec), Some(ms)) => if h < 24 && m < 60 && sec < 60 {
                Some(h * 3_600_000 + m * 60_000 + sec * 1000 + ms)
            } else {
                None
            },
            _ => None,
        }
    } else {
        None
    }
}

/// Where the first line break of `s` stands; the length of `s` if it has
/// none.
pub open spec fn first_newline(s: Seq<char>) -> int
    decreases s.len(),
{
    if s.len() == 0 {
        0
    } else if s[0] == '\n' {
        0
    } else {
        1 + first_newline(s.skip(1))
    }
}

/// Where the first empty line of `s` begins, that is the first of two line
/// breaks in a row; the length of `s` if it has none.
pub open spec fn first_blank_line(s: Seq<char>) -> int
    decreases s.len(),
{
    if s.len() < 2 {
        s.len() as int
    } else if s[0] == '\n' && s[1] == '\n' {
        0
    } else {
        1 + first_blank_line(s.skip(1))
    }
}

/// Characters from the line break that ends the index to the text of a
/// block: the break, two times of twelve characters, the arrow between
/// them, and the break that ends the line.
pub open spec fn header_len() -> int {
    31
}

/// What one block reads as: the index line is passed over, the time line
/// gives begin and end, and the text is what stands between the time line
/// and the two line breaks at the end.
pub open spec fn srt_block_reading(text: Seq<char>) -> Option<CueReading> {
    let p = first_newline(text);
    if p + header_len() + 2 <= text.len() && text.subrange(p + 13, p + 18) == arrow_text() && text[p
        + 30] == '\n' && text[text.len() - 2] == '\n' && text[text.len() - 1] == '\n' {
        match (
            srt_time_reading(text.subrange(p + 1, p + 13)),
            srt_time_reading(text.subrange(p + 18, p + 30)),
        ) {
            (Some(begin), Some(end)) => Some(
                CueReading {
                    begin,
                    end,
                    content: text.subrange(p + header_len(), text.len() - 2),
                },
            ),
            _ => None,
        }
    } else {
        None
    }
}

/// Length of the first block of `text`: it ends with the first empty line
/// after its time line.
pub open spec fn first_block_len(text: Seq<char>) -> int {
    let start = first_newline(text) + header_len();
    if start <= text.len() {
        start + first_blank_line(text.skip(start)) + 2
    } else {
        (text.len() + 1) as int
    }
}

/// What a whole SRT text reads as: block after block, to the end.
pub open spec fn srt_reading(text: Seq<char>) -> Option<Seq<CueReading>>
    decreases text.len(),
{
    if text.len() == 0 {
        Some(Seq::empty())
    } else {
        let n = first_block_len(text);
        if 0 < n <= text.len() {
            match (srt_block_reading(text.take(n)), srt_reading(text.skip(n))) {
                (Some(first), Some(rest)) => Some(seq![first] + rest),
                _ => None,
            }
        } else {
            None
        }
    }
}

/// Whether a text can stand in a block and be told from the end of the
/// block: it has no empty line and does not end in a line break.
pub open spec fn is_plain_text(content: Seq<char>) -> bool {
    &&& forall|i: int|
        0 <= i < content.len() - 1 ==> !(#[trigger] content[i] == '\n' && content[i + 1] == '\n')
    &&& content.len() > 0 ==> content.last() != '\n'
}

/// A digit reads as itself.
proof fn lemma_digit_reads_back(d: int)
    requires
        0 <= d < 10,
    ensures
        char_digit(digit_char(d)) == Some(d),
        digit_char(d) != '\n',
{
}

/// Two digits read as the number they write.
proof fn lemma_two_digits_read_back(n: nat)
    requires
        n < 100,
    ensures
        padded2_text(n).len() == 2,
        two_digit_reading(padded2_text(n)[0], padded2_text(n)[1]) == Some(n as int),
{
    lemma_padded2_below_100(n);
    lemma_digit_reads_back((n / 10) as int);
    lemma_digit_reads_back((n % 10) as int);
}

/// Three digits read as the number they write.
proof fn lemma_three_digits_read_back(n: nat)
    requires
        n < 1000,
    ensures
        padded3_text(n).len() == 3,
        three_digit_reading(padded3_text(n)[0], padded3_text(n)[1], padded3_text(n)[2]) == Some(
            n as int,
        ),
{
    lemma_digit_reads_back((n / 100) as int);
    lemma_digit_reads_back(((n / 10) % 10) as int);
    lemma_digit_reads_back((n % 10) as int);
}

/// The twelve characters of a time whose four parts are written as `hh`,
/// `mm`, `ss` and `fff`.
proof fn lemma_time_text_shape(hh: Seq<char>, mm: Seq<char>, ss: Seq<char>, fff: Seq<char>)
    requires
        hh.len() == 2,
        mm.len() == 2,
        ss.len() == 2,
        fff.len() == 3,
    ensures
        hh + seq![':'] + mm + seq![':'] + ss + seq![','] + fff == seq![
            hh[0],
            hh[1],
            ':',
            mm[0],
            mm[1],
            ':',
            ss[0],
            ss[1],
            ',',
            fff[0],
            fff[1],
            fff[2],
        ],
{
    assert(hh + seq![':'] + mm + seq![':'] + ss + seq![','] + fff =~= seq![
        hh[0],
        hh[1],
        ':',
        mm[0],
        mm[1],
        ':',
        ss[0],
        ss[1],
        ',',
        fff[0],
        fff[1],
        fff[2],
    ]);
}

/// Hours, minutes, seconds and milliseconds of a time of day add up to it.
#[verifier::rlimit(50)]
proof fn lemma_millis_parts(millis: nat)
    requires
        millis < MILLIS_PER_DAY,
    ensures
        millis / 3_600_000 < 24,
        (millis / 3_600_000) * 3_600_000 + ((millis / 60_000) % 60) * 60_000 + ((millis / 1000)
            % 60) * 1000 + millis % 1000 == millis,
{
}

/// A time of day reads as it was written.
pub proof fn lemma_srt_time_reads_back(millis: nat)
    requires
        millis < MILLIS_PER_DAY,
    ensures
        srt_time_text(millis).len() == 12,
        srt_time_reading(srt_time_text(millis)) == Some(millis as int),
{
    reveal(srt_time_reading);
    let h = millis / 3_600_000;
    let m = (millis / 60_000) % 60;
    let sec = (millis / 1000) % 60;
    let ms = millis % 1000;
    lemma_millis_parts(millis);
    lemma_two_digits_read_back(h);
    lemma_two_digits_read_back(m);
    lemma_two_digits_read_back(sec);
    lemma_three_digits_read_back(ms);
    let hh = padded2_text(h);
    let mm = padded2_text(m);
    let ss = padded2_text(sec);
    let fff = padded3_text(ms);
    lemma_time_text_shape(hh, mm, ss, fff);
    let text = srt_time_text(millis);
    assert(text == hh + seq![':'] + mm + seq![':'] + ss + seq![','] + fff);
    assert(text[0] == hh[0] && text[1] == hh[1] && text[3] == mm[0] && text[4] == mm[1] && text[6]
        == ss[0] && text[7] == ss[1] && text[9] == fff[0] && text[10] == fff[1] && text[11]
        == fff[2]);
    assert(text[2] == ':' && text[5] == ':' && text[8] == ',');
    assert(text.len() == 12);
}

/// No line break stands in a number.
proof fn lemma_decimal_has_no_newline(n: nat)
    ensures
        decimal_text(n).len() > 0,
        forall|i: int| 0 <= i < decimal_text(n).len() ==> decimal_text(n)[i] != '\n',
    decreases n,
{
    if n < 10 {
        lemma_digit_reads_back(n as int);
    } else {
        lemma_decimal_has_no_newline(n / 10);
        lemma_digit_reads_back((n % 10) as int);
    }
}

/// The first line break of a text is the one that follows a beginning
/// without line breaks.
proof fn lemma_first_newline_after(line: Seq<char>, rest: Seq<char>)
    requires
        forall|i: int| 0 <= i < line.len() ==> line[i] != '\n',
    ensures
        first_newline(line + seq!['\n'] + rest) == line.len(),
    decreases line.len(),
{
    let text = line + seq!['\n'] + rest;
    if line.len() == 0 {
        assert(text[0] == '\n');
    } else {
        assert(text[0] == line[0]);
        assert(text.skip(1) =~= line.skip(1) + seq!['\n'] + rest);
        lemma_first_newline_after(line.skip(1), rest);
    }
}

/// The first empty line of a text that begins with a plain text and two
/// line breaks is the one that those two make.
proof fn lemma_first_blank_line_after(content: Seq<char>, rest: Seq<char>)
    requires
        is_plain_text(content),
    ensures
        first_blank_line(content + seq!['\n', '\n'] + rest) == content.len(),
    decreases content.len(),
{
    let text = content + seq!['\n', '\n'] + rest;
    if content.len() == 0 {
        assert(text[0] == '\n' && text[1] == '\n');
    } else {
        assert(text[0] == content[0]);
        if content.len() == 1 {
            assert(content.last() == content[0]);
            assert(text[0] != '\n');
        } else {
            assert(text[1] == content[1]);
            assert(!(content[0] == '\n' && content[0int + 1] == '\n'));
        }
        let shorter = content.skip(1);
        assert(text.skip(1) =~= shorter + seq!['\n', '\n'] + rest);
        assert(is_plain_text(shorter)) by {
            assert forall|i: int| 0 <= i < shorter.len() - 1 implies !(#[trigger] shorter[i]
                == '\n' && shorter[i + 1] == '\n') by {
                assert(shorter[i] == content[i + 1]);
                assert(shorter[i + 1] == content[i + 1 + 1]);
                assert(!(content[i + 1] == '\n' && content[i + 1 + 1] == '\n'));
            }
            if shorter.len() > 0 {
                assert(shorter.last() == content.last());
            }
        }
        lemma_first_blank_line_after(shorter, rest);
    }
}

/// The parts of a text made of an index line, a time line and a text with
/// two line breaks, and where they stand.
proof fn lemma_parts_of_block(
    index: Seq<char>,
    begin: Seq<char>,
    end: Seq<char>,
    content: Seq<char>,
    rest: Seq<char>,
)
    requires
        begin.len() == 12,
        end.len() == 12,
        forall|i: int| 0 <= i < index.len() ==> index[i] != '\n',
    ensures
        ({
            let block = index + seq!['\n'] + begin + arrow_text() + end + seq!['\n'] + content
                + seq!['\n', '\n'];
            let text = block + rest;
            let p = index.len() as int;
            let c = content.len() as int;
            &&& block.len() == p + header_len() + c + 2
            &&& first_newline(text) == p
            &&& text.subrange(p + 1, p + 13) == begin
            &&& text.subrange(p + 13, p + 18) == arrow_text()
            &&& text.subrange(p + 18, p + 30) == end
            &&& text[p + 30] == '\n'
            &&& text.subrange(p + header_len(), p + header_len() + c) == content
            &&& text[p + header_len() + c] == '\n'
            &&& text[p + header_len() + c + 1] == '\n'
            &&& text.skip(p + header_len()) == content + seq!['\n', '\n'] + rest
        }),
{
    let p = index.len() as int;
    let c = content.len() as int;
    let after_index = begin + arrow_text() + end + seq!['\n'] + content + seq!['\n', '\n'] + rest;
    let block = index + seq!['\n'] + begin + arrow_text() + end + seq!['\n'] + content + seq![
        '\n',
        '\n',
    ];
    let text = block + rest;
    assert(text =~= index + seq!['\n'] + after_index);
    lemma_first_newline_after(index, after_index);
    assert(text.subrange(p + 1, p + 13) =~= begin);
    assert(text.subrange(p + 13, p + 18) =~= arrow_text());
    assert(text.subrange(p + 18, p + 30) =~= end);
    assert(text.subrange(p + header_len(), p + header_len() + c) =~= content);
    assert(text.skip(p + header_len()) =~= content + seq!['\n', '\n'] + rest);
}

/// The parts of the block of a cue, and where they stand in a text that
/// begins with the block.
proof fn lemma_block_shape(cue: Subrip, rest: Seq<char>)
    requires
        cue.wf(),
    ensures
        ({
            let text = srt_block_text(cue) + rest;
            let p = decimal_text(cue.index as nat).len() as int;
            let c = cue.content@.len() as int;
            &&& srt_block_text(cue).len() == p + header_len() + c + 2
            &&& first_newline(text) == p
            &&& text.subrange(p + 1, p + 13) == srt_time_text(cue.begin_time.millis as nat)
            &&& text.subrange(p + 13, p + 18) == arrow_text()
            &&& text.subrange(p + 18, p + 30) == srt_time_text(cue.end_time.millis as nat)
            &&& text[p + 30] == '\n'
            &&& text.subrange(p + header_len(), p + header_len() + c) == cue.content@
            &&& text[p + header_len() + c] == '\n'
            &&& text[p + header_len() + c + 1] == '\n'
            &&& text.skip(p + header_len()) == cue.content@ + seq!['\n', '\n'] + rest
        }),
{
    reveal(srt_block_text);
    lemma_decimal_has_no_newline(cue.index as nat);
    lemma_srt_time_reads_back(cue.begin_time.millis as nat);
    lemma_srt_time_reads_back(cue.end_time.millis as nat);
    lemma_parts_of_block(
        decimal_text(cue.index as nat),
        srt_time_text(cue.begin_time.millis as nat),
        srt_time_text(cue.end_time.millis as nat),
        cue.content@,
        rest,
    );
}

/// The block of a cue reads as begin, end and text of the cue, whatever
/// the text is.
pub proof fn lemma_block_reads_back(cue: Subrip)
    requires
        cue.wf(),
    ensures
        srt_block_reading(srt_block_text(cue)) == Some(reading_of(cue)),
{
    let text = srt_block_text(cue);
    let p = decimal_text(cue.index as nat).len() as int;
    let c = cue.content@.len() as int;
    assert(text + Seq::<char>::empty() =~= text);
    lemma_block_shape(cue, Seq::empty());
    lemma_srt_time_reads_back(cue.begin_time.millis as nat);
    lemma_srt_time_reads_back(cue.end_time.millis as nat);
    assert(first_newline(text) == p);
    assert(text.len() == p + header_len() + c + 2);
    assert(srt_time_reading(text.subrange(p + 1, p + 13)) == Some(cue.begin_time.millis as int));
    assert(srt_time_reading(text.subrange(p + 18, p + 30)) == Some(cue.end_time.millis as int));
    assert(text.subrange(p + header_len(), text.len() - 2) == cue.content@);
    assert(text[text.len() - 2] == '\n' && text[text.len() - 1] == '\n');
}

/// A text that begins with the block of a cue with plain text has that
/// block as its first block.
proof fn lemma_first_block_is_block(cue: Subrip, rest: Seq<char>)
    requires
        cue.wf(),
        is_plain_text(cue.content@),
    ensures
        first_block_len(srt_block_text(cue) + rest) == srt_block_text(cue).len(),
{
    lemma_block_shape(cue, rest);
    lemma_first_blank_line_after(cue.content@, rest);
}

/// The text of some cues is the block of the first, followed by the text
/// of the others.
proof fn lemma_srt_text_front(first: Subrip, others: Seq<Subrip>)
    ensures
        srt_text(seq![first] + others) == srt_block_text(first) + srt_text(others),
    decreases others.len(),
{
    let all = seq![first] + others;
    if others.len() == 0 {
        assert(all.drop_last() =~= Seq::<Subrip>::empty());
        assert(all.last() == first);
        assert(srt_text(all.drop_last()) =~= Seq::<char>::empty());
        assert(srt_text(others) =~= Seq::<char>::empty());
        assert(srt_text(all) == srt_text(all.drop_last()) + srt_block_text(all.last()));
        assert(srt_text(all) =~= srt_block_text(first) + srt_text(others));
    } else {
        assert(all.drop_last() =~= seq![first] + others.drop_last());
        assert(all.last() == others.last());
        lemma_srt_text_front(first, others.drop_last());
        assert(srt_text(all) == srt_text(all.drop_last()) + srt_block_text(all.last()));
        assert(srt_text(others) == srt_text(others.drop_last()) + srt_block_text(others.last()));
        assert(srt_text(all) =~= srt_block_text(first) + srt_text(others));
    }
}

/// What a reader is to find for some cues.
pub open spec fn readings_of(cues: Seq<Subrip>) -> Seq<CueReading> {
    Seq::new(cues.len(), |i: int| reading_of(cues[i]))
}

/// Writing cues and reading the text back gives begin, end and text of
/// every cue, in the order written; the indices are not read. This holds
/// for cues whose texts have no empty line and do not end in a line
/// break: such a text would be taken for the end of its block.
pub proof fn lemma_srt_text_reads_back(cues: Seq<Subrip>)
    requires
        forall|i: int| 0 <= i < cues.len() ==> (#[trigger] cues[i]).wf(),
        forall|i: int| 0 <= i < cues.len() ==> is_plain_text((#[trigger] cues[i]).content@),
    ensures
        srt_reading(srt_text(cues)) == Some(readings_of(cues)),
    decreases cues.len(),
{
    if cues.len() == 0 {
        assert(readings_of(cues) =~= Seq::<CueReading>::empty());
    } else {
        let first = cues[0];
        let others = cues.skip(1);
        assert(cues =~= seq![first] + others);
        lemma_srt_text_front(first, others);
        let block = srt_block_text(first);
        let text = srt_text(cues);
        assert(text == block + srt_text(others));
        lemma_first_block_is_block(first, srt_text(others));
        lemma_block_shape(first, srt_text(others));
        lemma_block_reads_back(first);
        assert(text.take(block.len() as int) =~= block);
        assert(text.skip(block.len() as int) =~= srt_text(others));
        assert forall|i: int| 0 <= i < others.len() implies (#[trigger] others[i]).wf()
            && is_plain_text(others[i].content@) by {
            assert(others[i] == cues[i + 1]);
        }
        lemma_srt_text_reads_back(others);
        assert(seq![reading_of(first)] + readings_of(others) =~= readings_of(cues)) by {
            assert forall|i: int| 0 <= i < cues.len() implies (seq![reading_of(first)]
                + readings_of(others))[i] == readings_of(cues)[i] by {
                if i > 0 {
                    assert(others[i - 1] == cues[i]);
                }
            }
        }
    }
}

/// Exporting cues and reading the text back gives begin, end and text of
/// every cue, in the order of their begin times; the cues read are the
/// cues exported, each once. The indices are not read, since an export
/// numbers the cues anew. As in `lemma_srt_text_reads_back`, this holds
/// for cues whose texts have no empty line and do not end in a line break.
pub proof fn lemma_export_reads_back(cues: Seq<Subrip>)
    requires
        cues.len() <= u32::MAX,
        forall|i: int| 0 <= i < cues.len() ==> (#[trigger] cues[i]).wf(),
        forall|i: int| 0 <= i < cues.len() ==> is_plain_text((#[trigger] cues[i]).content@),
    ensures
        srt_reading(srt_text(export_list(cues))) == Some(readings_of(sorted_by_begin(cues))),
        sorted_by_begin(cues).to_multiset() == cues.to_multiset(),
{
    broadcast use vstd::seq_lib::group_to_multiset_ensures;

    lemma_sorted_by_begin(cues);
    let sorted = sorted_by_begin(cues);
    let list = export_list(cues);
    assert forall|i: int| 0 <= i < list.len() implies (#[trigger] list[i]).wf() && is_plain_text(
        list[i].content@,
    ) by {
        assert(sorted.contains(sorted[i]));
        assert(cues.to_multiset().count(sorted[i]) > 0);
        assert(cues.contains(sorted[i]));
        let j = choose|j: int| 0 <= j < cues.len() && cues[j] == sorted[i];
        assert(cues[j].wf() && is_plain_text(cues[j].content@));
    }
    lemma_srt_text_reads_back(list);
    assert(readings_of(list) =~= readings_of(sorted));
}

} // verus!
