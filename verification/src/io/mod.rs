//! Export: the cues are put in the order of their begin times, numbered
//! from 1, and handed to the writers. What the SRT writer writes, the SRT
//! reader reads back.

pub mod srt_reader;
pub mod srt_reading;
pub mod srt_writer;

use crate::io::srt_writer::SrtWriter;
use crate::subrip::{Subrip, SubripFormat};
use vstd::prelude::*;
use vstd::string::StringExecFns;

verus! {

/// Why a writer did not take a cue.
#[derive(Clone, Copy, Debug, PartialEq, Eq, Structural)]
pub enum WriteError {
    /// The cue is in a format that the writer does not write.
    InvalidFormat,
}

/// Why nothing was handed to the writers.
#[derive(Clone, Copy, Debug, PartialEq, Eq, Structural)]
pub enum SaveError {
    /// There are no cues.
    Empty,
    /// There are more cues than an index can count.
    TooMany,
}

/// Something that cues are written to. A writer gathers text; whoever
/// owns the file takes the text and puts it there.
pub trait Writer {
    /// The cues taken so far, in the order in which they came. A writer
    /// that takes any cue has to say here which ones it has taken.
    open spec fn received(&self) -> Seq<Subrip> {
        Seq::empty()
    }

    /// The text written and not yet handed out.
    open spec fn written(&self) -> Seq<char> {
        Seq::empty()
    }

    /// The text that a writer of this kind makes of some cues.
    open spec fn rendering(subrips: Seq<Subrip>) -> Seq<char> {
        Seq::empty()
    }

    /// Whether a writer of this kind takes a cue.
    open spec fn accepts(subrip: Subrip) -> bool {
        true
    }

    /// Where the first cue of `list` stands that a writer of this kind
    /// refuses, if `k` is that place.
    open spec fn is_first_refused(list: Seq<Subrip>, k: int) -> bool {
        &&& 0 <= k < list.len()
        &&& !Self::accepts(list[k])
        &&& forall|j: int| 0 <= j < k ==> Self::accepts(#[trigger] list[j])
    }

    /// Whether `after` is this writer once it has taken and written the
    /// first `k` cues of `list`.
    open spec fn has_taken_first(&self, list: Seq<Subrip>, k: int, after: &Self) -> bool {
        &&& after.received() == self.received() + list.take(k)
        &&& after.written() == self.written() + Self::rendering(list.take(k))
    }

    /// Whether `after` is this writer once the cues `list` have been handed
    /// to it and it has answered `answer`: where it takes them all, it has
    /// taken and written them all and says so; where it refuses one, it has
    /// taken and written those before the first one it refuses, and says
    /// that it refused.
    open spec fn has_taken(
        &self,
        list: Seq<Subrip>,
        answer: Result<(), WriteError>,
        after: &Self,
    ) -> bool {
        match answer {
            Ok(()) => self.has_taken_first(list, list.len() as int, after) && forall|j: int|
                0 <= j < list.len() ==> Self::accepts(#[trigger] list[j]),
            Err(_) => exists|k: int|
                Self::is_first_refused(list, k) && #[trigger] self.has_taken_first(list, k, after),
        }
    }

    /// Takes one cue and writes it, or refuses it and does nothing.
    fn write(&mut self, subrip: &Subrip) -> (r: Result<(), WriteError>)
        ensures
            old(self).has_taken(seq![*subrip], r, final(self)),
    ;

    /// Takes the cues in their order and writes them, up to the first one
    /// that is refused.
    fn write_multi(&mut self, subrips: &[Subrip]) -> (r: Result<(), WriteError>)
        ensures
            old(self).has_taken(subrips@, r, final(self)),
    ;

    /// The directory of the file that the text is meant for.
    fn directory(&self) -> String;

    /// The name of the file that the text is meant for.
    fn file_name(&self) -> String;

    /// Hands out the text written since the last call, and forgets it.
    fn take_text(&mut self) -> (r: String)
        ensures
            r@ == old(self).written(),
            final(self).written() == Seq::<char>::empty(),
            final(self).received() == old(self).received(),
    ;
}

/// `sorted` with `cue` put in after every cue that begins no later than it.
pub open spec fn insert_by_begin(sorted: Seq<Subrip>, cue: Subrip) -> Seq<Subrip>
    decreases sorted.len(),
{
    if sorted.len() == 0 {
        seq![cue]
    } else if sorted.last().begin_time.millis <= cue.begin_time.millis {
        sorted.push(cue)
    } else {
        insert_by_begin(sorted.drop_last(), cue).push(sorted.last())
    }
}

/// The cues in the order of their begin times; cues that begin at the same
/// time keep the order they had.
pub open spec fn sorted_by_begin(cues: Seq<Subrip>) -> Seq<Subrip>
    decreases cues.len(),
{
    if cues.len() == 0 {
        Seq::empty()
    } else {
        insert_by_begin(sorted_by_begin(cues.drop_last()), cues.last())
    }
}

/// The cues with their indices replaced by their places, counted from 1.
pub open spec fn renumbered(cues: Seq<Subrip>) -> Seq<Subrip> {
    Seq::new(cues.len(), |i: int| Subrip { index: (i + 1) as u32, ..cues[i] })
}

/// What is handed to the writers: the cues in the order of their begin
/// times, numbered from 1.
pub open spec fn export_list(cues: Seq<Subrip>) -> Seq<Subrip> {
    renumbered(sorted_by_begin(cues))
}

/// Whether each cue begins no later than the next.
pub open spec fn is_sorted_by_begin(cues: Seq<Subrip>) -> bool {
    forall|i: int, j: int|
        0 <= i <= j < cues.len() ==> (#[trigger] cues[i]).begin_time.millis <= (
        #[trigger] cues[j]).begin_time.millis
}

/// Putting a cue into a sorted sequence leaves it sorted, one longer, and
/// with the same cues and the new one.
pub proof fn lemma_insert_by_begin(sorted: Seq<Subrip>, cue: Subrip)
    requires
        is_sorted_by_begin(sorted),
    ensures
        is_sorted_by_begin(insert_by_begin(sorted, cue)),
        insert_by_begin(sorted, cue).len() == sorted.len() + 1,
        insert_by_begin(sorted, cue).to_multiset() == sorted.to_multiset().insert(cue),
    decreases sorted.len(),
{
    broadcast use vstd::seq_lib::group_to_multiset_ensures;

    let out = insert_by_begin(sorted, cue);
    if sorted.len() == 0 {
        assert(sorted =~= Seq::empty());
        assert(out =~= Seq::<Subrip>::empty().push(cue));
    } else if sorted.last().begin_time.millis <= cue.begin_time.millis {
        assert forall|i: int, j: int| 0 <= i <= j < out.len() implies (#[trigger] out[i])
            .begin_time.millis <= (#[trigger] out[j]).begin_time.millis by {
            if j < sorted.len() {
                assert(out[i] == sorted[i] && out[j] == sorted[j]);
            } else if i < sorted.len() {
                assert(out[i] == sorted[i]);
                assert(sorted[i].begin_time.millis <= sorted[sorted.len() - 1].begin_time.millis);
            }
        }
    } else {
        let front = sorted.drop_last();
        assert forall|i: int, j: int| 0 <= i <= j < front.len() implies (#[trigger] front[i])
            .begin_time.millis <= (#[trigger] front[j]).begin_time.millis by {
            assert(front[i] == sorted[i] && front[j] == sorted[j]);
        }
        lemma_insert_by_begin(front, cue);
        let inner = insert_by_begin(front, cue);
        assert(sorted =~= front.push(sorted.last()));
        lemma_insert_bounded(front, cue, sorted.last().begin_time.millis as int);
        assert forall|i: int, j: int| 0 <= i <= j < out.len() implies (#[trigger] out[i])
            .begin_time.millis <= (#[trigger] out[j]).begin_time.millis by {
            if j < inner.len() {
                assert(out[i] == inner[i] && out[j] == inner[j]);
            } else if i < inner.len() {
                assert(out[i] == inner[i]);
            }
        }
        assert(out.to_multiset() =~= sorted.to_multiset().insert(cue));
    }
}

/// If every cue of a sequence begins no later than `bound`, and so does
/// `cue`, the same holds once `cue` is put in.
proof fn lemma_insert_bounded(sorted: Seq<Subrip>, cue: Subrip, bound: int)
    requires
        forall|i: int| 0 <= i < sorted.len() ==> (#[trigger] sorted[i]).begin_time.millis <= bound,
        cue.begin_time.millis <= bound,
    ensures
        forall|i: int|
            0 <= i < insert_by_begin(sorted, cue).len() ==> (#[trigger] insert_by_begin(
                sorted,
                cue,
            )[i]).begin_time.millis <= bound,
    decreases sorted.len(),
{
    if sorted.len() == 0 {
    } else if sorted.last().begin_time.millis <= cue.begin_time.millis {
    } else {
        let front = sorted.drop_last();
        assert forall|i: int| 0 <= i < front.len() implies (#[trigger] front[i]).begin_time.millis
            <= bound by {
            assert(front[i] == sorted[i]);
        }
        lemma_insert_bounded(front, cue, bound);
    }
}

/// The cues in the order of their begin times are sorted, as many as
/// before, and the same cues.
pub proof fn lemma_sorted_by_begin(cues: Seq<Subrip>)
    ensures
        is_sorted_by_begin(sorted_by_begin(cues)),
        sorted_by_begin(cues).len() == cues.len(),
        sorted_by_begin(cues).to_multiset() == cues.to_multiset(),
    decreases cues.len(),
{
    broadcast use vstd::seq_lib::group_to_multiset_ensures;

    if cues.len() == 0 {
        assert(cues =~= Seq::empty());
    } else {
        lemma_sorted_by_begin(cues.drop_last());
        lemma_insert_by_begin(sorted_by_begin(cues.drop_last()), cues.last());
        assert(cues =~= cues.drop_last().push(cues.last()));
    }
}

/// What is handed to the writers comes in ascending order of begin times,
/// holds every cue once, changed in nothing but its index, and is
/// numbered 1, 2, 3 and so on.
pub proof fn lemma_export_list(cues: Seq<Subrip>)
    requires
        cues.len() <= u32::MAX,
    ensures
        export_list(cues).len() == cues.len(),
        is_sorted_by_begin(export_list(cues)),
        forall|i: int|
            0 <= i < cues.len() ==> (#[trigger] export_list(cues)[i]).index == i + 1,
        forall|i: int|
            0 <= i < cues.len() ==> (#[trigger] export_list(cues)[i]) == (Subrip {
                index: (i + 1) as u32,
                ..sorted_by_begin(cues)[i]
            }),
        sorted_by_begin(cues).to_multiset() == cues.to_multiset(),
{
    lemma_sorted_by_begin(cues);
    let sorted = sorted_by_begin(cues);
    let out = export_list(cues);
    assert forall|i: int, j: int| 0 <= i <= j < out.len() implies (#[trigger] out[i])
        .begin_time.millis <= (#[trigger] out[j]).begin_time.millis by {
        assert(sorted[i].begin_time.millis <= sorted[j].begin_time.millis);
    }
}

/// Puts the cues in the order of their begin times and numbers them
/// from 1.
pub fn prepare_export(subrips: &Vec<Subrip>) -> (r: Vec<Subrip>)
    requires
        subrips@.len() <= u32::MAX,
    ensures
        r@ == export_list(subrips@),
{
    let mut sorted: Vec<Subrip> = Vec::new();
    let mut n: usize = 0;
    while n < subrips.len()
        invariant
            n <= subrips@.len(),
            sorted@ == sorted_by_begin(subrips@.take(n as int)),
            sorted@.len() == n,
        decreases subrips@.len() - n,
    {
        let cue = subrips[n].clone();
        let ghost before = sorted@;
        let mut place: usize = sorted.len();
        proof {
            assert(before.take(place as int) =~= before);
            assert(insert_by_begin(before, cue) + before.skip(place as int) =~= insert_by_begin(
                before,
                cue,
            ));
        }
        while place > 0 && sorted[place - 1].begin_time.millis > cue.begin_time.millis
            invariant
                place <= sorted@.len(),
                sorted@ == before,
                insert_by_begin(before, cue) == insert_by_begin(before.take(place as int), cue)
                    + before.skip(place as int),
            decreases place,
        {
            proof {
                let front = before.take(place as int);
                assert(front.last() == before[place - 1]);
                assert(front.drop_last() =~= before.take(place - 1));
                assert(insert_by_begin(front, cue) == insert_by_begin(front.drop_last(), cue).push(
                    front.last(),
                ));
                assert(insert_by_begin(front.drop_last(), cue).push(front.last()) + before.skip(
                    place as int,
                ) =~= insert_by_begin(before.take(place - 1), cue) + before.skip(place - 1));
            }
            place = place - 1;
        }
        proof {
            let front = before.take(place as int);
            if place > 0 {
                assert(front.last() == before[place - 1]);
            }
            assert(insert_by_begin(front, cue) == front.push(cue)) by {
                if front.len() == 0 {
                    assert(front.push(cue) =~= seq![cue]);
                }
            }
            assert(subrips@.take(n + 1).drop_last() =~= subrips@.take(n as int));
            assert(subrips@.take(n + 1).last() == subrips@[n as int]);
        }
        sorted.insert(place, cue);
        proof {
            assert(sorted@ =~= before.take(place as int).push(cue) + before.skip(place as int));
        }
        n = n + 1;
    }
    assert(subrips@.take(n as int) =~= subrips@);
    let mut k: usize = 0;
    let ghost ordered = sorted@;
    while k < sorted.len()
        invariant
            k <= sorted@.len(),
            sorted@.len() == ordered.len(),
            ordered.len() <= u32::MAX,
            forall|i: int| 0 <= i < k ==> (#[trigger] sorted@[i]) == renumbered(ordered)[i],
            forall|i: int| k <= i < sorted@.len() ==> (#[trigger] sorted@[i]) == ordered[i],
        decreases sorted@.len() - k,
    {
        let mut cue = sorted[k].clone();
        cue.set_index((k + 1) as u32);
        sorted.set(k, cue);
        k = k + 1;
    }
    assert(sorted@ =~= renumbered(ordered));
    sorted
}

/// Whether a cue ends no later than it begins, as a gesture may leave it.
/// Such a cue is exported like any other; it is for the caller to warn.
pub open spec fn is_crossed(subrip: Subrip) -> bool {
    subrip.end_time.millis <= subrip.begin_time.millis
}

/// The places of the cues that end no later than they begin, in ascending
/// order.
pub fn find_crossed(subrips: &Vec<Subrip>) -> (r: Vec<usize>)
    ensures
        forall|k: int| 0 <= k < r@.len() ==> (#[trigger] r@[k]) < subrips@.len() && is_crossed(
            subrips@[r@[k] as int],
        ),
        forall|j: int, k: int| 0 <= j < k < r@.len() ==> (#[trigger] r@[j]) < (#[trigger] r@[k]),
        forall|i: int|
            0 <= i < subrips@.len() && is_crossed(#[trigger] subrips@[i]) ==> r@.contains(
                i as usize,
            ),
{
    let mut found: Vec<usize> = Vec::new();
    let mut i: usize = 0;
    while i < subrips.len()
        invariant
            i <= subrips@.len(),
            forall|k: int| 0 <= k < found@.len() ==> (#[trigger] found@[k]) < i && is_crossed(
                subrips@[found@[k] as int],
            ),
            forall|j: int, k: int|
                0 <= j < k < found@.len() ==> (#[trigger] found@[j]) < (#[trigger] found@[k]),
            forall|n: int|
                0 <= n < i && is_crossed(#[trigger] subrips@[n]) ==> found@.contains(n as usize),
        decreases subrips@.len() - i,
    {
        if subrips[i].end_time.millis <= subrips[i].begin_time.millis {
            let ghost before = found@;
            found.push(i);
            proof {
                assert(found@[before.len() as int] == i);
                assert forall|n: int|
                    0 <= n < i + 1 && is_crossed(#[trigger] subrips@[n]) implies found@.contains(
                    n as usize,
                ) by {
                    if n < i {
                        let k = choose|k: int| 0 <= k < before.len() && before[k] == n as usize;
                        assert(found@[k] == n as usize);
                    }
                }
            }
        }
        i = i + 1;
    }
    found
}

/// Keeps the writers and the directory they write to.
pub struct SubripSaveHelper<W: Writer> {
    pub save_dir_path: String,
    pub writers: Vec<W>,
}

/// Makes the writer of a format.
pub struct SubripWriterBuilder {}

/// Whether the writers `after` are the writers `before` once the cues
/// `list` have been handed to each of them, with `answers` as what they
/// answered, writer by writer.
pub open spec fn all_have_taken<W: Writer>(
    before: Seq<W>,
    list: Seq<Subrip>,
    answers: Seq<Result<(), WriteError>>,
    after: Seq<W>,
) -> bool {
    &&& after.len() == before.len()
    &&& answers.len() == before.len()
    &&& forall|i: int|
        0 <= i < before.len() ==> before[i].has_taken(list, answers[i], &#[trigger] after[i])
}

/// Whether the writers `after` have taken what the writers `before` had
/// taken, and nothing else.
pub open spec fn none_has_taken<W: Writer>(before: Seq<W>, after: Seq<W>) -> bool {
    &&& after.len() == before.len()
    &&& forall|i: int|
        0 <= i < before.len() ==> (#[trigger] after[i]).received() == before[i].received()
            && after[i].written() == before[i].written()
}

impl<W: Writer> SubripSaveHelper<W> {
    /// A helper without writers that saves to `download_dir`, or to the
    /// working directory where there is no such directory.
    pub fn new(download_dir: Option<String>) -> (r: Self)
        ensures
            r.save_dir_path@ == match download_dir {
                Some(dir) => dir@,
                None => seq!['.', '/'],
            },
            r.writers@.len() == 0,
    {
        let save_dir_path = match download_dir {
            Some(dir) => dir,
            None => {
                proof {
                    reveal_strlit("./");
                    assert("./"@ =~= seq!['.', '/']);
                }
                String::from_str("./")
            },
        };
        Self { save_dir_path, writers: Vec::new() }
    }

    pub fn save_dir_path(&self) -> (r: &str)
        ensures
            r@ == self.save_dir_path@,
    {
        self.save_dir_path.as_str()
    }

    /// Adds a writer after those that are there.
    pub fn add_writer(&mut self, writer: W)
        ensures
            final(self).writers@ == old(self).writers@.push(writer),
            final(self).save_dir_path == old(self).save_dir_path,
    {
        self.writers.push(writer);
    }

    /// Hands the cues to every writer, in the order of their begin times
    /// and numbered from 1. Without cues, or with more of them than an
    /// index can count, nothing is handed to any writer. A writer that
    /// refuses a cue does not keep the others from their turn; what each
    /// one answered comes back in the order of the writers.
    pub fn save(&mut self, subrips: &Vec<Subrip>) -> (r: Result<
        Vec<Result<(), WriteError>>,
        SaveError,
    >)
        ensures
            final(self).save_dir_path == old(self).save_dir_path,
            final(self).writers@.len() == old(self).writers@.len(),
            r is Ok <==> 0 < subrips@.len() <= u32::MAX,
            subrips@.len() == 0 <==> r == Err::<Vec<Result<(), WriteError>>, SaveError>(
                SaveError::Empty,
            ),
            subrips@.len() > u32::MAX <==> r == Err::<Vec<Result<(), WriteError>>, SaveError>(
                SaveError::TooMany,
            ),
            r is Err ==> none_has_taken(old(self).writers@, final(self).writers@),
            r matches Ok(answers) ==> all_have_taken(
                old(self).writers@,
                export_list(subrips@),
                answers@,
                final(self).writers@,
            ),
    {
        if subrips.len() == 0 {
            return Err(SaveError::Empty);
        }
        if subrips.len() > u32::MAX as usize {
            return Err(SaveError::TooMany);
        }
        let list = prepare_export(subrips);
        let mut answers: Vec<Result<(), WriteError>> = Vec::new();
        let mut i: usize = 0;
        while i < self.writers.len()
            invariant
                i <= self.writers@.len(),
                self.writers@.len() == old(self).writers@.len(),
                self.save_dir_path == old(self).save_dir_path,
                list@ == export_list(subrips@),
                answers@.len() == i,
                forall|j: int|
                    0 <= j < i ==> old(self).writers@[j].has_taken(
                        list@,
                        answers@[j],
                        &#[trigger] self.writers@[j],
                    ),
                forall|j: int|
                    i <= j < self.writers@.len() ==> (#[trigger] self.writers@[j])
                        == old(self).writers@[j],
            decreases self.writers@.len() - i,
        {
            let answer = self.writers[i].write_multi(list.as_slice());
            answers.push(answer);
            i = i + 1;
        }
        Ok(answers)
    }
}

impl SubripWriterBuilder {
    /// The writer of `format` for a file in `save_dir_path`: for SRT, one
    /// that has written nothing yet, for the file `a.srt`.
    pub fn generate_writer_from_format(save_dir_path: &str, format: SubripFormat) -> (r: Option<
        SrtWriter,
    >)
        ensures
            r matches Some(writer) && writer.received() == Seq::<Subrip>::empty()
                && writer.directory@ == save_dir_path@ && writer.file_name@ == seq![
                'a',
                '.',
                's',
                'r',
                't',
            ] && writer.text@ == Seq::<char>::empty(),
    {
        match format {
            SubripFormat::SRT => {
                proof {
                    reveal_strlit("a.srt");
                    assert("a.srt"@ =~= seq!['a', '.', 's', 'r', 't']);
                }
                Some(SrtWriter::new(save_dir_path, "a.srt"))
            },
        }
    }
}

} // verus!
