//! The SRT writer: each cue becomes a block of text, made of its index, a
//! line with its begin and end, its text, and an empty line.

use crate::io::{WriteError, Writer};
use crate::subrip::{Subrip, SubripFormat};
use crate::text::{decimal, decimal_text};
use crate::time::srt_time_text;
use vstd::prelude::*;
use vstd::string::StringExecFns;

verus! {

/// The arrow between begin and end on the time line of a block.
pub open spec fn arrow_text() -> Seq<char> {
    seq![' ', '-', '-', '>', ' ']
}

/// The block of text that stands for a cue.
#[verifier::opaque]
pub open spec fn srt_block_text(cue: Subrip) -> Seq<char> {
    decimal_text(cue.index as nat) + seq!['\n'] + srt_time_text(cue.begin_time.millis as nat)
        + arrow_text() + srt_time_text(cue.end_time.millis as nat) + seq!['\n'] + cue.content@
        + seq!['\n', '\n']
}

/// The blocks of the cues, one after the other.
pub open spec fn srt_text(cues: Seq<Subrip>) -> Seq<char>
    decreases cues.len(),
{
    if cues.len() == 0 {
        Seq::empty()
    } else {
        srt_text(cues.drop_last()) + srt_block_text(cues.last())
    }
}

/// A writer of SRT text. The text is gathered here and handed out to
/// whoever puts it into the file.
pub struct SrtWriter {
    /// The directory of the file that the text is meant for.
    pub directory: String,
    /// The name of that file.
    pub file_name: String,
    /// The text written and not yet handed out.
    pub text: String,
    /// The cues taken so far.
    pub taken: Ghost<Seq<Subrip>>,
}

impl SrtWriter {
    /// A writer that has written nothing, for the file `file_name` in
    /// `directory`.
    pub fn new(directory: &str, file_name: &str) -> (r: Self)
        ensures
            r.directory@ == directory@,
            r.file_name@ == file_name@,
            r.text@ == Seq::<char>::empty(),
            r.received() == Seq::<Subrip>::empty(),
    {
        SrtWriter {
            directory: String::from_str(directory),
            file_name: String::from_str(file_name),
            text: String::new(),
            taken: Ghost(Seq::empty()),
        }
    }

    /// The text written and not yet handed out.
    pub fn text(&self) -> (r: &str)
        ensures
            r@ == self.text@,
    {
        self.text.as_str()
    }
}

impl Writer for SrtWriter {
    open spec fn received(&self) -> Seq<Subrip> {
        self.taken@
    }

    open spec fn written(&self) -> Seq<char> {
        self.text@
    }

    open spec fn rendering(subrips: Seq<Subrip>) -> Seq<char> {
        srt_text(subrips)
    }

    open spec fn accepts(subrip: Subrip) -> bool {
        subrip.format == SubripFormat::SRT
    }

    /// Writes the block of one cue. Only cues in SRT format are taken.
    fn write(&mut self, subrip: &Subrip) -> (r: Result<(), WriteError>)
        ensures
            r is Ok <==> subrip.format == SubripFormat::SRT,
            r is Ok ==> final(self).text@ == old(self).text@ + srt_block_text(*subrip),
            r is Err ==> r == Err::<(), WriteError>(WriteError::InvalidFormat) && final(self).text@
                == old(self).text@,
            final(self).directory == old(self).directory,
            final(self).file_name == old(self).file_name,
    {
        match subrip.format {
            SubripFormat::SRT => {},
        }
        let ghost before = self.text@;
        self.text.append(decimal(subrip.index as u64).as_str());
        self.text.append("\n");
        self.text.append(subrip.begin_time.to_srt_text().as_str());
        self.text.append(" --> ");
        self.text.append(subrip.end_time.to_srt_text().as_str());
        self.text.append("\n");
        self.text.append(subrip.content.as_str());
        self.text.append("\n\n");
        proof {
            reveal_strlit("\n");
            reveal_strlit(" --> ");
            reveal_strlit("\n\n");
            reveal(srt_block_text);
            assert(self.text@ =~= before + srt_block_text(*subrip));
            lemma_srt_text_of_one(*subrip);
            assert(seq![*subrip].take(1) =~= seq![*subrip]);
            assert(old(self).taken@.push(*subrip) =~= old(self).taken@ + seq![*subrip]);
        }
        self.taken = Ghost(self.taken@.push(*subrip));
        Ok(())
    }

    /// Writes the blocks of the cues in their order, up to the first cue
    /// that is not in SRT format.
    fn write_multi(&mut self, subrips: &[Subrip]) -> (r: Result<(), WriteError>)
        ensures
            r is Ok,
            final(self).text@ == old(self).text@ + srt_text(subrips@),
            final(self).directory == old(self).directory,
            final(self).file_name == old(self).file_name,
    {
        let mut i: usize = 0;
        proof {
            assert(subrips@.take(0) =~= Seq::<Subrip>::empty());
            assert(self.taken@ + subrips@.take(0) =~= self.taken@);
            assert(self.text@ + srt_text(subrips@.take(0)) =~= self.text@);
        }
        while i < subrips.len()
            invariant
                i <= subrips@.len(),
                self.taken@ == old(self).taken@ + subrips@.take(i as int),
                self.text@ == old(self).text@ + srt_text(subrips@.take(i as int)),
                self.directory == old(self).directory,
                self.file_name == old(self).file_name,
            decreases subrips@.len() - i,
        {
            let ghost text_before = self.text@;
            let ghost taken_before = self.taken@;
            match self.write(&subrips[i]) {
                Ok(()) => {},
                Err(e) => {
                    return Err(e);
                },
            }
            proof {
                let next = subrips@.take(i + 1);
                assert(seq![subrips@[i as int]].take(1) =~= seq![subrips@[i as int]]);
                assert(self.taken@ =~= taken_before.push(subrips@[i as int]));
                assert(next.drop_last() =~= subrips@.take(i as int));
                assert(next.last() == subrips@[i as int]);
                assert(old(self).taken@ + next =~= (old(self).taken@ + subrips@.take(
                    i as int,
                )).push(subrips@[i as int]));
                assert(old(self).text@ + srt_text(next) =~= text_before + srt_block_text(
                    subrips@[i as int],
                ));
            }
            i = i + 1;
        }
        proof {
            assert(subrips@.take(i as int) =~= subrips@);
        }
        Ok(())
    }

    fn directory(&self) -> (r: String)
        ensures
            r@ == self.directory@,
    {
        self.directory.clone()
    }

    fn file_name(&self) -> (r: String)
        ensures
            r@ == self.file_name@,
    {
        self.file_name.clone()
    }

    fn take_text(&mut self) -> (r: String)
        ensures
            final(self).directory == old(self).directory,
            final(self).file_name == old(self).file_name,
    {
        let text = self.text.clone();
        self.text = String::new();
        text
    }
}

/// The text of one cue is its block.
pub proof fn lemma_srt_text_of_one(cue: Subrip)
    ensures
        srt_text(seq![cue]) == srt_block_text(cue),
{
    let one = seq![cue];
    assert(one.drop_last() =~= Seq::<Subrip>::empty());
    assert(srt_text(one.drop_last()) =~= Seq::<char>::empty());
    assert(one.last() == cue);
    assert(srt_text(one) =~= srt_block_text(cue));
}

} // verus!
