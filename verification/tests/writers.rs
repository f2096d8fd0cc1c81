use mksubrip::io::{SubripSaveHelper, WriteError, Writer};
use mksubrip::subrip::Subrip;
use mksubrip::time::TimeOfDay;

/// A writer that takes cues with short texts only.
struct Picky {
    taken: Vec<String>,
}

impl Writer for Picky {
    fn write(&mut self, subrip: &Subrip) -> Result<(), WriteError> {
        if subrip.get_content_ref().len() > 3 {
            return Err(WriteError::InvalidFormat);
        }
        self.taken.push(subrip.get_content());
        Ok(())
    }

    fn write_multi(&mut self, subrips: &[Subrip]) -> Result<(), WriteError> {
        for subrip in subrips {
            self.write(subrip)?;
        }
        Ok(())
    }

    fn directory(&self) -> String {
        String::from(".")
    }

    fn file_name(&self) -> String {
        String::from("picky")
    }

    fn take_text(&mut self) -> String {
        self.taken.drain(..).collect()
    }
}

fn cue(text: &str, begin_ms: u32) -> Subrip {
    Subrip::new(text, TimeOfDay::from_millis(begin_ms).unwrap(), 1_000)
}

#[test]
fn a_writer_that_refuses_a_cue_keeps_those_before_it() {
    let mut helper = SubripSaveHelper::new(None);
    helper.add_writer(Picky { taken: vec![] });
    helper.add_writer(Picky { taken: vec![] });
    let answers = helper.save(&vec![cue("c", 3_000), cue("long", 2_000), cue("a", 1_000)]).unwrap();
    assert_eq!(answers, vec![Err(WriteError::InvalidFormat), Err(WriteError::InvalidFormat)]);
    assert_eq!(helper.writers[0].taken, ["a"]);
    assert_eq!(helper.writers[1].taken, ["a"]);
    let answers = helper.save(&vec![cue("b", 2_000), cue("a", 1_000)]).unwrap();
    assert_eq!(answers, vec![Ok(()), Ok(())]);
    assert_eq!(helper.writers[0].take_text(), "aab");
}
