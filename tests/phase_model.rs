use pager::phase::CloneState;
use pager::progress::{JobProgress, Observation};

fn obs(phase: CloneState, received: u64, total: u64) -> Observation {
    Observation { phase, received, total }
}

fn rank(s: CloneState) -> u8 {
    match s {
        CloneState::ReceivingObjects => 0,
        CloneState::ResolvingDeltas => 1,
        CloneState::UpdatingFiles => 2,
        CloneState::Finished => 3,
    }
}

#[test]
fn phases_advance_in_order_and_finish_absorbs() {
    let s = CloneState::new();
    assert_eq!(s, CloneState::ReceivingObjects);
    let s = s.next();
    assert_eq!(s, CloneState::ResolvingDeltas);
    let s = s.next();
    assert_eq!(s, CloneState::UpdatingFiles);
    let s = s.next();
    assert_eq!(s, CloneState::Finished);
    assert_eq!(s.next(), CloneState::Finished);
}

#[test]
fn phase_texts() {
    assert_eq!(CloneState::ReceivingObjects.text(), "Receiving objects");
    assert_eq!(CloneState::ResolvingDeltas.text(), "Resolving deltas");
    assert_eq!(CloneState::UpdatingFiles.text(), "Updating files");
    assert_eq!(CloneState::Finished.text(), "Finished");
    assert_eq!(CloneState::ReceivingObjects.label(), Some(String::from("Receiving objects")));
    assert_eq!(CloneState::Finished.label(), None);
}

#[test]
fn phase_styles_are_distinct() {
    let a = CloneState::ReceivingObjects.style();
    let b = CloneState::ResolvingDeltas.style();
    let c = CloneState::UpdatingFiles.style();
    assert_eq!(a.template, "[{bar:40.cyan/blue}] {pos}/{len} {msg}");
    assert_eq!(a.progress_chars, "##-");
    assert_eq!(b.template, "[{bar:40.yellow/cyan}] {pos}/{len} {msg}");
    assert_eq!(b.progress_chars, "=>#");
    assert_eq!(c.template, "[{bar:40.green/yellow}] {pos}/{len} {msg}");
    assert_eq!(c.progress_chars, "->=");
    let d = CloneState::Finished.style();
    assert_eq!(d.template, "[{bar:40.green}] {pos}/{len} {msg}");
    assert_eq!(d.progress_chars, "***");
    let all = [&a, &b, &c, &d];
    for i in 0..all.len() {
        for j in 0..all.len() {
            if i != j {
                assert_ne!(all[i].progress_chars, all[j].progress_chars);
                assert_ne!(all[i].template, all[j].template);
            }
        }
    }
}

#[test]
fn legitimate_sequence_reaches_finished_without_regressing() {
    let seq = [
        obs(CloneState::ReceivingObjects, 5, 10),
        obs(CloneState::ReceivingObjects, 10, 10),
        obs(CloneState::ResolvingDeltas, 3, 3),
        obs(CloneState::UpdatingFiles, 1, 2),
        obs(CloneState::UpdatingFiles, 2, 2),
    ];
    let mut p = JobProgress::new();
    let mut last = rank(p.phase);
    for o in seq {
        assert!(p.apply(o));
        assert!(rank(p.phase) >= last);
        last = rank(p.phase);
    }
    assert_eq!(p.phase, CloneState::Finished);
}

#[test]
fn counts_are_recorded_and_reset_on_advance() {
    let mut p = JobProgress::new();
    assert!(p.apply(obs(CloneState::ReceivingObjects, 5, 10)));
    assert_eq!((p.phase, p.received, p.total), (CloneState::ReceivingObjects, 5, 10));
    assert!(p.apply(obs(CloneState::ReceivingObjects, 10, 10)));
    assert_eq!((p.phase, p.received, p.total), (CloneState::ResolvingDeltas, 0, 0));
}

#[test]
fn observation_beyond_total_is_ignored() {
    let mut p = JobProgress::new();
    assert!(p.apply(obs(CloneState::ReceivingObjects, 4, 10)));
    assert!(!p.apply(obs(CloneState::ReceivingObjects, 11, 10)));
    assert_eq!((p.phase, p.received, p.total), (CloneState::ReceivingObjects, 4, 10));
    // an unknown total admits any count
    assert!(p.apply(obs(CloneState::ReceivingObjects, 7, 0)));
    assert_eq!((p.received, p.total), (7, 0));
}

#[test]
fn observations_for_other_phases_are_ignored() {
    let mut p = JobProgress::new();
    assert!(p.apply(obs(CloneState::ReceivingObjects, 3, 3)));
    assert!(!p.apply(obs(CloneState::ReceivingObjects, 3, 3)));
    assert!(!p.apply(obs(CloneState::UpdatingFiles, 1, 1)));
    assert_eq!(p.phase, CloneState::ResolvingDeltas);
    let mut done = JobProgress { phase: CloneState::Finished, received: 0, total: 0 };
    assert!(!done.apply(obs(CloneState::Finished, 1, 1)));
    assert_eq!(done.phase, CloneState::Finished);
}

#[test]
fn structured_counts_run_through_every_phase() {
    let mut p = JobProgress::new();
    assert_eq!(p.observe_transfer(1, 4), Some(obs(CloneState::ReceivingObjects, 1, 4)));
    assert_eq!(p.observe_transfer(4, 4), Some(obs(CloneState::ReceivingObjects, 4, 4)));
    assert_eq!(p.phase, CloneState::ResolvingDeltas);
    assert_eq!(p.observe_transfer(9, 4), None);
    assert_eq!(p.phase, CloneState::ResolvingDeltas);
    p.observe_transfer(4, 4);
    p.observe_transfer(4, 4);
    assert_eq!(p.phase, CloneState::Finished);
    assert_eq!(p.observe_transfer(4, 4), None);
}
