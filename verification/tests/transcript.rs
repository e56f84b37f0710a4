use patterns::transcript::Transcript;

#[test]
fn new_transcript_is_empty() {
    let out = Transcript::new();
    assert!(out.lines().is_empty());
}

#[test]
fn notify_records_the_text_it_is_given() {
    let mut out = Transcript::new();
    out.notify("first");
    assert_eq!(*out.lines(), vec!["first"]);
}

#[test]
fn notify_appends_in_order_and_keeps_what_was_there() {
    let mut out = Transcript::new();
    out.notify("first");
    out.notify("second");
    out.notify("");
    out.notify("second");
    assert_eq!(*out.lines(), vec!["first", "second", "", "second"]);
}

#[test]
fn notify_keeps_text_that_is_not_ascii() {
    let mut out = Transcript::new();
    out.notify("décollage ✓");
    assert_eq!(*out.lines(), vec!["décollage ✓"]);
}

#[test]
fn transcripts_do_not_share_their_records() {
    let mut one = Transcript::new();
    let mut other = Transcript::new();
    one.notify("here");
    other.notify("there");
    assert_eq!(*one.lines(), vec!["here"]);
    assert_eq!(*other.lines(), vec!["there"]);
}
