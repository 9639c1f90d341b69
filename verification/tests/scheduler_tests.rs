use handmade_hero::scheduler::{LoopBranch, select_branch, tally_schedule};

#[test]
fn ready_socket_always_wins() {
    assert_eq!(select_branch(true), LoopBranch::Protocol);
    assert_eq!(select_branch(false), LoopBranch::Audio);
}

#[test]
fn always_ready_starves_audio() {
    let readiness = vec![true; 100];
    assert_eq!(tally_schedule(&readiness), (100, 0));
}

#[test]
fn never_ready_runs_audio_every_iteration() {
    let readiness = vec![false; 100];
    assert_eq!(tally_schedule(&readiness), (0, 100));
}

#[test]
fn alternating_readiness_splits_evenly() {
    let readiness: Vec<bool> = (0..100).map(|i| i % 2 == 0).collect();
    assert_eq!(tally_schedule(&readiness), (50, 50));

    let odd_len: Vec<bool> = (0..101).map(|i| i % 2 == 0).collect();
    assert_eq!(tally_schedule(&odd_len), (51, 50));
}

#[test]
fn empty_history_services_nothing() {
    assert_eq!(tally_schedule(&Vec::new()), (0, 0));
}
