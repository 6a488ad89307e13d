use local_transcriber::transcript::{Accumulator, TranscriptToken};

fn token(text: &str, is_final: bool) -> TranscriptToken {
    TranscriptToken { text: text.to_string(), is_final }
}

#[test]
fn new_accumulator_is_empty() {
    let acc = Accumulator::new();
    assert_eq!(acc.final_text(), "");
    assert_eq!(acc.pending_text(), "");
    assert_eq!(acc.display_text(), "");
    assert_eq!(acc.finished_text(), "");
}

#[test]
fn final_then_tentative_batch_progression() {
    let mut acc = Accumulator::new();
    acc.process_batch(&[token("hello ", true)]);
    assert_eq!(acc.display_text(), "hello ");
    acc.process_batch(&[token("world", false)]);
    assert_eq!(acc.display_text(), "hello world");
    assert_eq!(acc.final_text(), "hello ");
    assert_eq!(acc.pending_text(), "world");
}

#[test]
fn mixed_batch_splits_by_kind_and_keeps_order() {
    let mut acc = Accumulator::new();
    acc.process_batch(&[
        token("a", true),
        token("x", false),
        token("b", true),
        token("y", false),
        token("c", true),
    ]);
    assert_eq!(acc.final_text(), "abc");
    assert_eq!(acc.pending_text(), "xy");
    assert_eq!(acc.display_text(), "abcxy");
}

#[test]
fn pending_text_is_replaced_not_appended() {
    let mut acc = Accumulator::new();
    acc.process_batch(&[token("one", false)]);
    acc.process_batch(&[token("two", false)]);
    assert_eq!(acc.pending_text(), "two");
    assert_eq!(acc.display_text(), "two");
    acc.process_batch(&[token("two ", true)]);
    assert_eq!(acc.pending_text(), "");
    assert_eq!(acc.final_text(), "two ");
}

#[test]
fn final_text_only_grows() {
    let mut acc = Accumulator::new();
    let batches = [
        vec![token("The ", true), token("quick", false)],
        vec![token("quick ", true)],
        vec![token("brwn", false)],
        vec![],
        vec![token("brown ", true), token("fox", true), token(".", false)],
    ];
    let mut expected = String::new();
    for batch in batches.iter() {
        let before = acc.final_text();
        acc.process_batch(batch);
        for t in batch.iter().filter(|t| t.is_final) {
            expected.push_str(&t.text);
        }
        assert!(acc.final_text().starts_with(&before));
        assert_eq!(acc.final_text(), expected);
    }
    assert_eq!(acc.final_text(), "The quick brown fox");
    assert_eq!(acc.pending_text(), ".");
}

#[test]
fn empty_batch_clears_pending_and_keeps_final() {
    let mut acc = Accumulator::new();
    acc.process_batch(&[token("kept", true), token("gone", false)]);
    acc.process_batch(&[]);
    assert_eq!(acc.final_text(), "kept");
    assert_eq!(acc.pending_text(), "");
}

#[test]
fn finished_text_is_the_trimmed_final_text() {
    let mut acc = Accumulator::new();
    acc.process_batch(&[token("  hello ", true), token("world \n", true), token("etc", false)]);
    assert_eq!(acc.final_text(), "  hello world \n");
    assert_eq!(acc.finished_text(), "hello world");
}
