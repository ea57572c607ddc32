use cancelbot::travis::TravisAction;
use cancelbot::travis::TravisBuild;
use cancelbot::travis::TravisCommit;
use cancelbot::travis::TravisJob;
use cancelbot::travis::TravisState;
use cancelbot::travis::any_job_failed;
use cancelbot::travis::find_commit_branch;
use cancelbot::travis::travis_plan;
use cancelbot::travis::travis_state_of;

fn build(id: u64, number: &str, state: TravisState, commit_id: u64) -> TravisBuild {
    TravisBuild { id, number: String::from(number), state, commit_id }
}

fn commit(id: u64, branch: &str) -> TravisCommit {
    TravisCommit { id, branch: String::from(branch) }
}

#[test]
fn state_vocabulary_maps() {
    assert_eq!(travis_state_of(&String::from("passed")), TravisState::Passed);
    assert_eq!(travis_state_of(&String::from("failed")), TravisState::Failed);
    assert_eq!(travis_state_of(&String::from("canceled")), TravisState::Canceled);
    assert_eq!(travis_state_of(&String::from("errored")), TravisState::Errored);
    assert_eq!(travis_state_of(&String::from("started")), TravisState::Started);
    assert_eq!(travis_state_of(&String::from("created")), TravisState::Created);
    assert_eq!(travis_state_of(&String::from("queued")), TravisState::Queued);
    assert_eq!(travis_state_of(&String::from("received")), TravisState::Received);
    assert_eq!(travis_state_of(&String::from("booting")), TravisState::Unknown);
}

#[test]
fn terminal_states_not_running() {
    assert!(!TravisState::Passed.is_running());
    assert!(!TravisState::Failed.is_running());
    assert!(!TravisState::Canceled.is_running());
    assert!(!TravisState::Errored.is_running());
    assert!(TravisState::Started.is_running());
    assert!(TravisState::Queued.is_running());
    assert!(TravisState::Unknown.is_running());
}

#[test]
fn two_running_builds_cancel_older_inspect_newest() {
    // The newest running branch build is only inspected; the superseded one
    // is cancelled outright.
    let builds = vec![
        build(1201, "12", TravisState::Started, 1),
        build(1101, "11", TravisState::Started, 1),
    ];
    let commits = vec![commit(1, "auto")];
    let plan = travis_plan(&builds, &commits, &String::from("auto"));
    assert_eq!(plan, vec![TravisAction::Inspect(1201), TravisAction::Cancel(1101)]);
}

#[test]
fn ordinals_compare_as_integers_not_lexically() {
    let builds = vec![
        build(901, "9", TravisState::Started, 1),
        build(1001, "10", TravisState::Started, 1),
    ];
    let commits = vec![commit(1, "auto")];
    let plan = travis_plan(&builds, &commits, &String::from("auto"));
    assert_eq!(plan, vec![TravisAction::Cancel(901), TravisAction::Inspect(1001)]);
}

#[test]
fn unmatched_commit_is_excluded() {
    // The commit of the older running build is missing from the list: it is
    // dropped from consideration, neither cancelled nor protected.
    let builds = vec![
        build(1201, "12", TravisState::Started, 1),
        build(1101, "11", TravisState::Started, 9),
    ];
    let commits = vec![commit(1, "auto")];
    let plan = travis_plan(&builds, &commits, &String::from("auto"));
    assert_eq!(plan, vec![TravisAction::Inspect(1201)]);
}

#[test]
fn other_branch_is_excluded() {
    let builds = vec![
        build(1201, "12", TravisState::Started, 1),
        build(1101, "11", TravisState::Started, 2),
    ];
    let commits = vec![commit(1, "auto"), commit(2, "master")];
    let plan = travis_plan(&builds, &commits, &String::from("auto"));
    assert_eq!(plan, vec![TravisAction::Inspect(1201)]);
}

#[test]
fn terminal_builds_are_left_alone() {
    let builds = vec![
        build(1201, "12", TravisState::Started, 1),
        build(1101, "11", TravisState::Passed, 1),
        build(1001, "10", TravisState::Failed, 1),
    ];
    let commits = vec![commit(1, "auto")];
    let plan = travis_plan(&builds, &commits, &String::from("auto"));
    assert_eq!(plan, vec![TravisAction::Inspect(1201)]);
}

#[test]
fn terminal_build_still_sets_the_maximum() {
    // The newest branch build already passed; the older running build is
    // still superseded by it and is cancelled, not inspected.
    let builds = vec![
        build(1201, "12", TravisState::Passed, 1),
        build(1101, "11", TravisState::Started, 1),
    ];
    let commits = vec![commit(1, "auto")];
    let plan = travis_plan(&builds, &commits, &String::from("auto"));
    assert_eq!(plan, vec![TravisAction::Cancel(1101)]);
}

#[test]
fn equal_maximum_ordinals_are_both_inspected() {
    let builds = vec![
        build(1201, "12", TravisState::Started, 1),
        build(1202, "12", TravisState::Started, 1),
    ];
    let commits = vec![commit(1, "auto")];
    let plan = travis_plan(&builds, &commits, &String::from("auto"));
    assert_eq!(plan, vec![TravisAction::Inspect(1201), TravisAction::Inspect(1202)]);
}

#[test]
fn no_builds_no_actions() {
    let builds: Vec<TravisBuild> = Vec::new();
    let commits = vec![commit(1, "auto")];
    let plan = travis_plan(&builds, &commits, &String::from("auto"));
    assert_eq!(plan, Vec::<TravisAction>::new());
}

#[test]
fn later_commit_entry_shadows_earlier() {
    let commits = vec![commit(1, "master"), commit(1, "auto")];
    let found = find_commit_branch(&commits, 1);
    assert_eq!(found.map(|s| s.as_str()), Some("auto"));
    assert_eq!(find_commit_branch(&commits, 2).map(|s| s.as_str()), None);
}

#[test]
fn a_failed_job_dooms_the_newest_build() {
    let jobs = vec![
        TravisJob { state: TravisState::Passed },
        TravisJob { state: TravisState::Failed },
    ];
    assert!(any_job_failed(&jobs));
    let jobs = vec![
        TravisJob { state: TravisState::Passed },
        TravisJob { state: TravisState::Started },
    ];
    assert!(!any_job_failed(&jobs));
    assert!(!any_job_failed(&Vec::new()));
    let jobs = vec![TravisJob { state: TravisState::Errored }];
    assert!(any_job_failed(&jobs));
    let jobs = vec![TravisJob { state: TravisState::Canceled }];
    assert!(any_job_failed(&jobs));
}
