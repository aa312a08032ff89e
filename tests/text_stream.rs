use pager::line::{chars_of, parse_progress};
use pager::phase::CloneState;
use pager::progress::Observation;
use pager::text_source::TextProgressSource;

fn parse(line: &str, label: &str) -> Option<(u64, u64)> {
    parse_progress(&line.as_bytes().to_vec(), &chars_of(label))
}

#[test]
fn carriage_return_lines_advance_once() {
    let mut src = TextProgressSource::new();
    let input = b"Receiving objects:  30% (3/10)\rReceiving objects:  70% (7/10)\rReceiving objects: 100% (10/10)\n";
    let out = src.feed(input);
    assert_eq!(
        out,
        vec![
            Observation { phase: CloneState::ReceivingObjects, received: 3, total: 10 },
            Observation { phase: CloneState::ReceivingObjects, received: 7, total: 10 },
            Observation { phase: CloneState::ReceivingObjects, received: 10, total: 10 },
        ]
    );
    assert_eq!(src.progress.phase, CloneState::ResolvingDeltas);
    assert!(src.pending.is_empty());
}

#[test]
fn lines_split_across_chunks_are_read_once() {
    let mut src = TextProgressSource::new();
    let mut all = Vec::new();
    all.extend(src.feed(b"Cloning into 'x'...\nReceiving obj"));
    assert_eq!(src.pending, b"Receiving obj".to_vec());
    all.extend(src.feed(b"ects:  50% (1/2)\r"));
    all.extend(src.feed(b"Receiving objects: 100% (2/2), done.\r\nResolving deltas: 100% (1/1)"));
    assert_eq!(all.len(), 2);
    assert_eq!(src.progress.phase, CloneState::ResolvingDeltas);
    all.extend(src.feed(b"\n"));
    assert_eq!(all.len(), 3);
    assert_eq!(src.progress.phase, CloneState::UpdatingFiles);
}

#[test]
fn lines_for_other_phases_are_ignored() {
    let mut src = TextProgressSource::new();
    let out = src.feed(b"Resolving deltas: 100% (5/5)\nUpdating files: 100% (1/1)\nremote: Counting objects: 4\n");
    assert!(out.is_empty());
    assert_eq!(src.progress.phase, CloneState::ReceivingObjects);
}

#[test]
fn count_beyond_total_in_output_is_ignored() {
    let mut src = TextProgressSource::new();
    let out = src.feed(b"Receiving objects: (12/10)\n");
    assert!(out.is_empty());
    assert_eq!(src.progress.received, 0);
}

#[test]
fn progress_line_grammar() {
    assert_eq!(parse("Receiving objects: 100% (10/10), 1.20 KiB | done.", "Receiving objects"), Some((10, 10)));
    assert_eq!(parse("Resolving deltas:   0% (0/37)", "Resolving deltas"), Some((0, 37)));
    assert_eq!(parse("Updating files:(4/9)", "Updating files"), Some((4, 9)));
    assert_eq!(parse("remote: Receiving objects: 5% \t(1/20)", "Receiving objects"), Some((1, 20)));
    assert_eq!(parse("Receiving objects: 100%", "Receiving objects"), None);
    assert_eq!(parse("Receiving objects 100% (1/1)", "Receiving objects"), None);
    assert_eq!(parse("Receiving objects: 10 (1/1)", "Receiving objects"), None);
    assert_eq!(parse("Receiving objects: (/1)", "Receiving objects"), None);
    assert_eq!(parse("Resolving deltas: (1/1)", "Receiving objects"), None);
    assert_eq!(parse("", "Receiving objects"), None);
}

#[test]
fn leftmost_progress_line_wins() {
    assert_eq!(parse("Receiving objects: x Receiving objects: (2/3) Receiving objects: (3/3)", "Receiving objects"), Some((2, 3)));
}

#[test]
fn oversized_counts_read_as_zero() {
    assert_eq!(parse("Receiving objects: (18446744073709551615/99999999999999999999)", "Receiving objects"), Some((u64::MAX, 0)));
    assert_eq!(parse("Receiving objects: (007/010)", "Receiving objects"), Some((7, 10)));
}
