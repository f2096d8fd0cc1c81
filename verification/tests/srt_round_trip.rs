use mksubrip::io::srt_reader::read_srt;
use mksubrip::io::srt_writer::SrtWriter;
use mksubrip::io::{prepare_export, Writer};
use mksubrip::subrip::{Subrip, SubripFormat};
use mksubrip::time::TimeOfDay;

fn time(millis: u32) -> TimeOfDay {
    TimeOfDay::from_millis(millis).unwrap()
}

fn cue(text: &str, begin_ms: u32, end_ms: u32) -> Subrip {
    let mut cue = Subrip::new(text, time(begin_ms), 0);
    cue.set_end_time(&time(end_ms));
    cue
}

fn written(cues: &[Subrip]) -> String {
    let mut writer = SrtWriter::new(".", "a.srt");
    writer.write_multi(cues).unwrap();
    writer.take_text()
}

fn tuples(cues: &[Subrip]) -> Vec<(u32, u32, String)> {
    cues.iter().map(|c| (c.begin_time.millis, c.end_time.millis, c.get_content())).collect()
}

#[test]
fn srt_text_is_read_block_by_block() {
    let text = "1\n00:00:05,001 --> 00:00:10,001\nHello, World!\n\n\
                2\n01:02:03,045 --> 23:59:59,999\ntwo\nlines\n\n";
    let cues = read_srt(text).unwrap();
    assert_eq!(
        tuples(&cues),
        [
            (5_001, 10_001, String::from("Hello, World!")),
            (3_723_045, 86_399_999, String::from("two\nlines"))
        ]
    );
    for cue in &cues {
        assert_eq!(cue.get_index(), 0);
        assert_eq!(cue.get_format(), SubripFormat::SRT);
        assert!(!cue.is_loaded());
        assert!(!cue.is_deleted());
    }
    assert!(read_srt("").unwrap().is_empty());
}

#[test]
fn the_index_line_is_passed_over() {
    let cues = read_srt("no number\n00:00:01,000 --> 00:00:02,000\nx\n\n").unwrap();
    assert_eq!(tuples(&cues), [(1_000, 2_000, String::from("x"))]);
    let cues = read_srt("\n00:00:01,000 --> 00:00:02,000\n\n\n").unwrap();
    assert_eq!(tuples(&cues), [(1_000, 2_000, String::new())]);
}

#[test]
fn text_that_is_not_made_of_blocks_is_not_read() {
    for text in [
        "1",
        "1\n",
        "\n\n",
        "1\n00:00:01,000 --> 00:00:02,000\nx\n",
        "1\n00:00:01,000 --> 00:00:02,000\nx",
        "1\n00:00:01,000 --> 00:00:02,000",
        "1\n00:00:01,000 -> 00:00:02,000 \nx\n\n",
        "1\n00:00:01.000 --> 00:00:02,000\nx\n\n",
        "1\n00:00:01,000 --> 00:00:02,00\nx\n\n\n",
        "1\n24:00:00,000 --> 00:00:02,000\nx\n\n",
        "1\n00:60:00,000 --> 00:00:02,000\nx\n\n",
        "1\n00:00:60,000 --> 00:00:02,000\nx\n\n",
        "1\n00:00:0a,000 --> 00:00:02,000\nx\n\n",
        "1\n00:00:01,000 --> 00:00:02,000 x\n\n",
        "1\n00:00:01,000 --> 00:00:02,000\nx\n\ntrailing",
        "1\n00:00:01,000 --> 00:00:02,000\nx\n\n\n",
        "1\r\n00:00:01,000 --> 00:00:02,000\r\nx\r\n\r\n",
    ] {
        assert!(read_srt(text).is_none(), "{:?}", text);
    }
}

#[test]
fn what_is_exported_reads_back() {
    let cues = vec![
        cue("third", 30_000, 31_500),
        cue("first, with \u{e9}\u{4e2d}\u{6587}", 10_000, 15_000),
        cue("", 20_000, 20_000),
        cue("in\ntwo lines", 25_000, 24_000),
        cue("\nstarts with a break", 26_000, 27_000),
        cue("--> 00:00:00,000", 86_399_999, 0),
    ];
    let list = prepare_export(&cues);
    let read = read_srt(&written(&list)).unwrap();
    assert_eq!(tuples(&read), tuples(&list));
    let mut expected = tuples(&cues);
    expected.sort_by_key(|t| t.0);
    assert_eq!(tuples(&read), expected);
}

#[test]
fn a_text_with_an_empty_line_misleads_the_reader() {
    for text in ["a\n\nb", "ends in a break\n", "\n", "\n\n", "x\n\n\n00:00:00,000"] {
        let one = [cue(text, 1_000, 2_000)];
        let block = written(&one);
        // The reader takes the first empty line for the end of the block.
        assert_eq!(
            block,
            format!("0\n00:00:01,000 --> 00:00:02,000\n{}\n\n", text)
        );
        assert_ne!(read_srt(&block).map(|read| tuples(&read)), Some(tuples(&one)));
    }
}

#[test]
fn written_and_read_again_the_text_is_the_same() {
    let text = "7\n00:00:05,001 --> 00:00:10,001\nHello, World!\n\n\
                9\n01:02:03,045 --> 23:59:59,999\ntwo\nlines\n\n";
    let cues = read_srt(text).unwrap();
    assert_eq!(
        written(&prepare_export(&cues)),
        "1\n00:00:05,001 --> 00:00:10,001\nHello, World!\n\n\
         2\n01:02:03,045 --> 23:59:59,999\ntwo\nlines\n\n"
    );
}
