//! Travis policy.
//!
//! One probe of one repository fetches its recent builds together with the
//! commits they belong to. A build is considered only when its commit is on
//! the tracked branch; among those, the greatest build ordinal marks the
//! newest build. Every older build still running is to be cancelled; the
//! newest is cancelled only when one of its jobs already failed, which a
//! second fetch of its job list decides.

use vstd::prelude::*;
use vstd::string::StringExecFns;
use crate::num::dec_value;
use crate::num::is_dec;
use crate::num::parse_dec_u64;

verus! {

/// A state reported for a Travis build or job.
#[derive(Clone, Copy, Debug, PartialEq, Eq, Structural)]
pub enum TravisState {
    Passed,
    Failed,
    Canceled,
    Errored,
    Created,
    Queued,
    Received,
    Started,
    Unknown,
}

/// A build as the build-list endpoint reports it. The ordinal `number`
/// arrives as a decimal string and is compared as an integer.
pub struct TravisBuild {
    pub id: u64,
    pub number: String,
    pub state: TravisState,
    pub commit_id: u64,
}

/// A commit as the build-list endpoint reports it, carrying the branch
/// that its builds belong to.
pub struct TravisCommit {
    pub id: u64,
    pub branch: String,
}

/// One unit of work inside a build.
pub struct TravisJob {
    pub state: TravisState,
}

/// What the probe decides to do with one running branch build.
#[derive(Clone, Copy, Debug, PartialEq, Eq, Structural)]
pub enum TravisAction {
    /// Cancel the build with this id outright: it is superseded.
    Cancel(u64),
    /// Fetch the job list of the build with this id; it is the newest and
    /// is cancelled only if a job already failed.
    Inspect(u64),
}

/// The state a provider wrote into a payload, read into the closed set.
pub open spec fn spec_travis_state(s: Seq<char>) -> TravisState {
    if s == "passed"@ {
        TravisState::Passed
    } else if s == "failed"@ {
        TravisState::Failed
    } else if s == "canceled"@ {
        TravisState::Canceled
    } else if s == "errored"@ {
        TravisState::Errored
    } else if s == "created"@ {
        TravisState::Created
    } else if s == "queued"@ {
        TravisState::Queued
    } else if s == "received"@ {
        TravisState::Received
    } else if s == "started"@ {
        TravisState::Started
    } else {
        TravisState::Unknown
    }
}

/// Reads a wire state string into the closed state set. Anything outside
/// the known vocabulary is `Unknown`, which counts as still running.
pub fn travis_state_of(s: &String) -> (r: TravisState)
    ensures
        r == spec_travis_state(s@),
{
    if *s == String::from_str("passed") {
        TravisState::Passed
    } else if *s == String::from_str("failed") {
        TravisState::Failed
    } else if *s == String::from_str("canceled") {
        TravisState::Canceled
    } else if *s == String::from_str("errored") {
        TravisState::Errored
    } else if *s == String::from_str("created") {
        TravisState::Created
    } else if *s == String::from_str("queued") {
        TravisState::Queued
    } else if *s == String::from_str("received") {
        TravisState::Received
    } else if *s == String::from_str("started") {
        TravisState::Started
    } else {
        TravisState::Unknown
    }
}

/// A terminal build state: the build will not change any more.
pub open spec fn travis_terminal(st: TravisState) -> bool {
    st is Passed || st is Failed || st is Canceled || st is Errored
}

/// A job state that dooms its build.
pub open spec fn travis_job_bad(st: TravisState) -> bool {
    st is Failed || st is Errored || st is Canceled
}

impl TravisState {
    /// A build in this state still runs; every non-terminal state counts,
    /// the unknown one included.
    pub fn is_running(&self) -> (r: bool)
        ensures
            r == !travis_terminal(*self),
    {
        match self {
            TravisState::Passed => false,
            TravisState::Failed => false,
            TravisState::Canceled => false,
            TravisState::Errored => false,
            _ => true,
        }
    }

    /// A job in this state has already failed and dooms its build.
    pub fn is_failed_job(&self) -> (r: bool)
        ensures
            r == travis_job_bad(*self),
    {
        match self {
            TravisState::Failed => true,
            TravisState::Errored => true,
            TravisState::Canceled => true,
            _ => false,
        }
    }
}

/// The branch of the commit with the given id: the last entry wins where
/// the payload repeats an id. `None` when the id is absent from the list.
pub open spec fn commit_branch(commits: Seq<TravisCommit>, id: u64) -> Option<Seq<char>>
    decreases commits.len(),
{
    if commits.len() == 0 {
        None
    } else if commits.last().id == id {
        Some(commits.last().branch@)
    } else {
        commit_branch(commits.drop_last(), id)
    }
}

/// The build's commit is present and lies on the tracked branch.
pub open spec fn on_branch(b: TravisBuild, commits: Seq<TravisCommit>, branch: Seq<char>) -> bool {
    commit_branch(commits, b.commit_id) == Some(branch)
}

/// Looks a commit up by id, later entries shadowing earlier ones.
pub fn find_commit_branch<'a>(commits: &'a Vec<TravisCommit>, id: u64) -> (r: Option<&'a String>)
    ensures
        match r {
            Some(s) => commit_branch(commits@, id) == Some(s@),
            None => commit_branch(commits@, id) is None,
        },
{
    let mut i: usize = commits.len();
    proof {
        assert(commits@.subrange(0, commits@.len() as int) =~= commits@);
    }
    while i > 0
        invariant
            i <= commits@.len(),
            commit_branch(commits@, id) == commit_branch(commits@.subrange(0, i as int), id),
        decreases i,
    {
        let j = i - 1;
        proof {
            assert(commits@.subrange(0, i as int).drop_last() =~= commits@.subrange(0, j as int));
            assert(commits@.subrange(0, i as int).last() == commits@[j as int]);
        }
        if commits[j].id == id {
            return Some(&commits[j].branch);
        }
        i = j;
    }
    proof {
        assert(commits@.subrange(0, 0) =~= Seq::<TravisCommit>::empty());
    }
    None
}

/// Whether the build's commit is known and on the tracked branch.
pub fn build_on_branch(b: &TravisBuild, commits: &Vec<TravisCommit>, branch: &String) -> (r: bool)
    ensures
        r == on_branch(*b, commits@, branch@),
{
    match find_commit_branch(commits, b.commit_id) {
        Some(s) => *s == *branch,
        None => false,
    }
}

/// The greatest ordinal among the branch builds; zero when there is none.
pub open spec fn max_branch_number(
    builds: Seq<TravisBuild>,
    commits: Seq<TravisCommit>,
    branch: Seq<char>,
) -> nat
    decreases builds.len(),
{
    if builds.len() == 0 {
        0
    } else {
        let rest = max_branch_number(builds.drop_last(), commits, branch);
        let b = builds.last();
        if on_branch(b, commits, branch) && dec_value(b.number@) > rest {
            dec_value(b.number@)
        } else {
            rest
        }
    }
}

/// The actions for the running branch builds, in build-list order, once the
/// greatest branch ordinal `m` is known: older builds are cancelled, builds
/// at the maximum are inspected.
pub open spec fn plan_actions(
    builds: Seq<TravisBuild>,
    commits: Seq<TravisCommit>,
    branch: Seq<char>,
    m: nat,
) -> Seq<TravisAction>
    decreases builds.len(),
{
    if builds.len() == 0 {
        Seq::empty()
    } else {
        let rest = plan_actions(builds.drop_last(), commits, branch, m);
        let b = builds.last();
        if on_branch(b, commits, branch) && !travis_terminal(b.state) {
            rest.push(
                if dec_value(b.number@) == m {
                    TravisAction::Inspect(b.id)
                } else {
                    TravisAction::Cancel(b.id)
                },
            )
        } else {
            rest
        }
    }
}

/// The whole Travis decision for one repository's fetched state.
pub open spec fn travis_plan_spec(
    builds: Seq<TravisBuild>,
    commits: Seq<TravisCommit>,
    branch: Seq<char>,
) -> Seq<TravisAction> {
    plan_actions(builds, commits, branch, max_branch_number(builds, commits, branch))
}

/// Decides what to do with every fetched build of one repository.
///
/// Builds whose commit is missing from the commit list, or lies on another
/// branch, are left alone. Of the rest, the running ones are cancelled when
/// strictly older than the newest branch build, and the newest is marked
/// for job inspection instead.
#[verifier::loop_isolation(false)]
pub fn travis_plan(
    builds: &Vec<TravisBuild>,
    commits: &Vec<TravisCommit>,
    branch: &String,
) -> (r: Vec<TravisAction>)
    requires
        forall|i: int|
            0 <= i < builds@.len() && on_branch(builds@[i], commits@, branch@) ==> is_dec(
                builds@[i].number@,
            ) && dec_value(builds@[i].number@) <= u64::MAX,
    ensures
        r@ == travis_plan_spec(builds@, commits@, branch@),
{
    let mut m: u64 = 0;
    let mut i: usize = 0;
    proof {
        assert(builds@.subrange(0, 0) =~= Seq::<TravisBuild>::empty());
    }
    while i < builds.len()
        invariant
            i <= builds@.len(),
            m as nat == max_branch_number(builds@.subrange(0, i as int), commits@, branch@),
        decreases builds@.len() - i,
    {
        let b = &builds[i];
        proof {
            assert(builds@.subrange(0, i + 1).drop_last() =~= builds@.subrange(0, i as int));
            assert(builds@.subrange(0, i + 1).last() == builds@[i as int]);
        }
        if build_on_branch(b, commits, branch) {
            match parse_dec_u64(b.number.as_str()) {
                Some(n) => {
                    if n > m {
                        m = n;
                    }
                }
                None => {
                    proof {
                        assert(false);
                    }
                }
            }
        }
        i = i + 1;
    }
    proof {
        assert(builds@.subrange(0, builds@.len() as int) =~= builds@);
    }
    let mut r: Vec<TravisAction> = Vec::new();
    let mut i: usize = 0;
    while i < builds.len()
        invariant
            i <= builds@.len(),
            m as nat == max_branch_number(builds@, commits@, branch@),
            r@ == plan_actions(builds@.subrange(0, i as int), commits@, branch@, m as nat),
        decreases builds@.len() - i,
    {
        let b = &builds[i];
        proof {
            assert(builds@.subrange(0, i + 1).drop_last() =~= builds@.subrange(0, i as int));
            assert(builds@.subrange(0, i + 1).last() == builds@[i as int]);
        }
        if build_on_branch(b, commits, branch) && b.state.is_running() {
            match parse_dec_u64(b.number.as_str()) {
                Some(n) => {
                    if n == m {
                        r.push(TravisAction::Inspect(b.id));
                    } else {
                        r.push(TravisAction::Cancel(b.id));
                    }
                }
                None => {
                    proof {
                        assert(false);
                    }
                }
            }
        }
        i = i + 1;
    }
    proof {
        assert(builds@.subrange(0, builds@.len() as int) =~= builds@);
    }
    r
}

/// Whether any job of the newest build has already failed; if so, the
/// build is doomed and is cancelled even though it is the newest.
pub fn any_job_failed(jobs: &Vec<TravisJob>) -> (r: bool)
    ensures
        r == exists|i: int| 0 <= i < jobs@.len() && travis_job_bad(jobs@[i].state),
{
    let mut i: usize = 0;
    while i < jobs.len()
        invariant
            i <= jobs@.len(),
            forall|j: int| 0 <= j < i ==> !travis_job_bad(jobs@[j].state),
        decreases jobs@.len() - i,
    {
        if jobs[i].state.is_failed_job() {
            return true;
        }
        i = i + 1;
    }
    false
}

/// No two builds share an id: what the provider guarantees of one payload.
pub open spec fn distinct_ids(builds: Seq<TravisBuild>) -> bool {
    forall|i: int, j: int| 0 <= i < j < builds.len() ==> builds[i].id != builds[j].id
}

/// A cancellation stands in the plan exactly for the ids of running branch
/// builds whose ordinal is not the given maximum.
proof fn lemma_cancel_membership(
    builds: Seq<TravisBuild>,
    commits: Seq<TravisCommit>,
    branch: Seq<char>,
    m: nat,
    id: u64,
)
    ensures
        plan_actions(builds, commits, branch, m).contains(TravisAction::Cancel(id)) <==> exists|
            i: int,
        |
            0 <= i < builds.len() && builds[i].id == id && on_branch(builds[i], commits, branch)
                && !travis_terminal(builds[i].state) && dec_value(builds[i].number@) != m,
    decreases builds.len(),
{
    if builds.len() == 0 {
    } else {
        let prefix = builds.drop_last();
        let b = builds.last();
        lemma_cancel_membership(prefix, commits, branch, m, id);
        let rest = plan_actions(prefix, commits, branch, m);
        let whole = plan_actions(builds, commits, branch, m);
        if on_branch(b, commits, branch) && !travis_terminal(b.state) {
            let a = if dec_value(b.number@) == m {
                TravisAction::Inspect(b.id)
            } else {
                TravisAction::Cancel(b.id)
            };
            assert(whole == rest.push(a));
            assert(forall|x: TravisAction|
                whole.contains(x) <==> rest.contains(x) || x == a) by {
                assert(forall|x: TravisAction| rest.contains(x) ==> whole.contains(x)) by {
                    assert(forall|k: int| 0 <= k < rest.len() ==> whole[k] == rest[k]);
                }
                assert(whole[rest.len() as int] == a);
            }
            if rest.contains(TravisAction::Cancel(id)) {
                let i = choose|i: int|
                    0 <= i < prefix.len() && prefix[i].id == id && on_branch(
                        prefix[i],
                        commits,
                        branch,
                    ) && !travis_terminal(prefix[i].state) && dec_value(prefix[i].number@) != m;
                assert(builds[i] == prefix[i]);
            }
            if a == TravisAction::Cancel(id) {
                assert(builds[builds.len() - 1] == b);
            }
            if exists|i: int|
                0 <= i < builds.len() && builds[i].id == id && on_branch(builds[i], commits, branch)
                    && !travis_terminal(builds[i].state) && dec_value(builds[i].number@) != m {
                let i = choose|i: int|
                    0 <= i < builds.len() && builds[i].id == id && on_branch(
                        builds[i],
                        commits,
                        branch,
                    ) && !travis_terminal(builds[i].state) && dec_value(builds[i].number@) != m;
                if i < builds.len() - 1 {
                    assert(prefix[i] == builds[i]);
                }
            }
        } else {
            assert(whole == rest);
            if exists|i: int|
                0 <= i < builds.len() && builds[i].id == id && on_branch(builds[i], commits, branch)
                    && !travis_terminal(builds[i].state) && dec_value(builds[i].number@) != m {
                let i = choose|i: int|
                    0 <= i < builds.len() && builds[i].id == id && on_branch(
                        builds[i],
                        commits,
                        branch,
                    ) && !travis_terminal(builds[i].state) && dec_value(builds[i].number@) != m;
                assert(i < builds.len() - 1);
                assert(prefix[i] == builds[i]);
            }
        }
    }
}

/// An inspection stands in the plan exactly for the ids of running branch
/// builds whose ordinal is the given maximum.
proof fn lemma_inspect_membership(
    builds: Seq<TravisBuild>,
    commits: Seq<TravisCommit>,
    branch: Seq<char>,
    m: nat,
    id: u64,
)
    ensures
        plan_actions(builds, commits, branch, m).contains(TravisAction::Inspect(id)) <==> exists|
            i: int,
        |
            0 <= i < builds.len() && builds[i].id == id && on_branch(builds[i], commits, branch)
                && !travis_terminal(builds[i].state) && dec_value(builds[i].number@) == m,
    decreases builds.len(),
{
    if builds.len() == 0 {
    } else {
        let prefix = builds.drop_last();
        let b = builds.last();
        lemma_inspect_membership(prefix, commits, branch, m, id);
        let rest = plan_actions(prefix, commits, branch, m);
        let whole = plan_actions(builds, commits, branch, m);
        if on_branch(b, commits, branch) && !travis_terminal(b.state) {
            let a = if dec_value(b.number@) == m {
                TravisAction::Inspect(b.id)
            } else {
                TravisAction::Cancel(b.id)
            };
            assert(whole == rest.push(a));
            assert(forall|x: TravisAction|
                whole.contains(x) <==> rest.contains(x) || x == a) by {
                assert(forall|x: TravisAction| rest.contains(x) ==> whole.contains(x)) by {
                    assert(forall|k: int| 0 <= k < rest.len() ==> whole[k] == rest[k]);
                }
                assert(whole[rest.len() as int] == a);
            }
            if rest.contains(TravisAction::Inspect(id)) {
                let i = choose|i: int|
                    0 <= i < prefix.len() && prefix[i].id == id && on_branch(
                        prefix[i],
                        commits,
                        branch,
                    ) && !travis_terminal(prefix[i].state) && dec_value(prefix[i].number@) == m;
                assert(builds[i] == prefix[i]);
            }
            if a == TravisAction::Inspect(id) {
                assert(builds[builds.len() - 1] == b);
            }
            if exists|i: int|
                0 <= i < builds.len() && builds[i].id == id && on_branch(builds[i], commits, branch)
                    && !travis_terminal(builds[i].state) && dec_value(builds[i].number@) == m {
                let i = choose|i: int|
                    0 <= i < builds.len() && builds[i].id == id && on_branch(
                        builds[i],
                        commits,
                        branch,
                    ) && !travis_terminal(builds[i].state) && dec_value(builds[i].number@) == m;
                if i < builds.len() - 1 {
                    assert(prefix[i] == builds[i]);
                }
            }
        } else {
            assert(whole == rest);
            if exists|i: int|
                0 <= i < builds.len() && builds[i].id == id && on_branch(builds[i], commits, branch)
                    && !travis_terminal(builds[i].state) && dec_value(builds[i].number@) == m {
                let i = choose|i: int|
                    0 <= i < builds.len() && builds[i].id == id && on_branch(
                        builds[i],
                        commits,
                        branch,
                    ) && !travis_terminal(builds[i].state) && dec_value(builds[i].number@) == m;
                assert(i < builds.len() - 1);
                assert(prefix[i] == builds[i]);
            }
        }
    }
}

/// Law: a branch build carrying the greatest ordinal is never cancelled
/// outright; the plan can at most ask for its job list, and that second
/// step cancels it only when `any_job_failed` finds a failed, errored or
/// canceled job.
pub proof fn lemma_latest_never_cancelled(
    builds: Seq<TravisBuild>,
    commits: Seq<TravisCommit>,
    branch: Seq<char>,
    k: int,
)
    requires
        distinct_ids(builds),
        0 <= k < builds.len(),
        on_branch(builds[k], commits, branch),
        dec_value(builds[k].number@) == max_branch_number(builds, commits, branch),
    ensures
        !travis_plan_spec(builds, commits, branch).contains(TravisAction::Cancel(builds[k].id)),
{
    let m = max_branch_number(builds, commits, branch);
    lemma_cancel_membership(builds, commits, branch, m, builds[k].id);
    if travis_plan_spec(builds, commits, branch).contains(TravisAction::Cancel(builds[k].id)) {
        let i = choose|i: int|
            0 <= i < builds.len() && builds[i].id == builds[k].id && on_branch(
                builds[i],
                commits,
                branch,
            ) && !travis_terminal(builds[i].state) && dec_value(builds[i].number@) != m;
        assert(i == k);
    }
}

/// Every action in the plan names the id of some running branch build.
proof fn lemma_action_sources(
    builds: Seq<TravisBuild>,
    commits: Seq<TravisCommit>,
    branch: Seq<char>,
    m: nat,
    a: TravisAction,
)
    requires
        plan_actions(builds, commits, branch, m).contains(a),
    ensures
        exists|i: int|
            0 <= i < builds.len() && on_branch(builds[i], commits, branch) && !travis_terminal(
                builds[i].state,
            ) && (a == TravisAction::Cancel(builds[i].id) || a == TravisAction::Inspect(
                builds[i].id,
            )),
{
    match a {
        TravisAction::Cancel(id) => {
            lemma_cancel_membership(builds, commits, branch, m, id);
        }
        TravisAction::Inspect(id) => {
            lemma_inspect_membership(builds, commits, branch, m, id);
        }
    }
}

/// With distinct build ids the plan never repeats an action.
pub proof fn lemma_plan_no_duplicates(
    builds: Seq<TravisBuild>,
    commits: Seq<TravisCommit>,
    branch: Seq<char>,
    m: nat,
)
    requires
        distinct_ids(builds),
    ensures
        plan_actions(builds, commits, branch, m).no_duplicates(),
    decreases builds.len(),
{
    if builds.len() == 0 {
    } else {
        let prefix = builds.drop_last();
        let b = builds.last();
        assert(distinct_ids(prefix)) by {
            assert(forall|i: int, j: int|
                0 <= i < j < prefix.len() ==> prefix[i] == builds[i] && prefix[j] == builds[j]);
        }
        lemma_plan_no_duplicates(prefix, commits, branch, m);
        let rest = plan_actions(prefix, commits, branch, m);
        let whole = plan_actions(builds, commits, branch, m);
        if on_branch(b, commits, branch) && !travis_terminal(b.state) {
            let a = if dec_value(b.number@) == m {
                TravisAction::Inspect(b.id)
            } else {
                TravisAction::Cancel(b.id)
            };
            assert(whole == rest.push(a));
            if rest.contains(a) {
                lemma_action_sources(prefix, commits, branch, m, a);
                let i = choose|i: int|
                    0 <= i < prefix.len() && on_branch(prefix[i], commits, branch)
                        && !travis_terminal(prefix[i].state) && (a == TravisAction::Cancel(
                        prefix[i].id,
                    ) || a == TravisAction::Inspect(prefix[i].id));
                assert(prefix[i] == builds[i]);
                assert(builds[i].id == b.id);
                assert(false);
            }
            assert(forall|i: int, j: int| 0 <= i < j < whole.len() ==> whole[i] != whole[j]) by {
                assert(forall|i: int| 0 <= i < rest.len() ==> whole[i] == rest[i]);
                assert(whole[whole.len() - 1] == a);
                assert(forall|i: int| 0 <= i < rest.len() ==> rest[i] != a) by {
                    assert(forall|i: int| 0 <= i < rest.len() ==> rest.contains(rest[i]));
                }
            }
        } else {
            assert(whole == rest);
        }
    }
}

/// Law: a running branch build strictly older than the newest branch build
/// is cancelled exactly once: its cancellation stands in the plan at one
/// index and at no other.
pub proof fn lemma_stale_cancelled_exactly_once(
    builds: Seq<TravisBuild>,
    commits: Seq<TravisCommit>,
    branch: Seq<char>,
    k: int,
)
    requires
        distinct_ids(builds),
        0 <= k < builds.len(),
        on_branch(builds[k], commits, branch),
        !travis_terminal(builds[k].state),
        dec_value(builds[k].number@) < max_branch_number(builds, commits, branch),
    ensures
        exists|i: int|
            {
                &&& 0 <= i < travis_plan_spec(builds, commits, branch).len()
                &&& travis_plan_spec(builds, commits, branch)[i] == TravisAction::Cancel(
                    builds[k].id,
                )
                &&& forall|j: int|
                    0 <= j < travis_plan_spec(builds, commits, branch).len() && travis_plan_spec(
                        builds,
                        commits,
                        branch,
                    )[j] == TravisAction::Cancel(builds[k].id) ==> j == i
            },
{
    let m = max_branch_number(builds, commits, branch);
    let plan = travis_plan_spec(builds, commits, branch);
    lemma_cancel_membership(builds, commits, branch, m, builds[k].id);
    assert(plan.contains(TravisAction::Cancel(builds[k].id)));
    lemma_plan_no_duplicates(builds, commits, branch, m);
    let i = choose|i: int|
        0 <= i < plan.len() && plan[i] == TravisAction::Cancel(builds[k].id);
    assert(0 <= i < plan.len() && plan[i] == TravisAction::Cancel(builds[k].id) && forall|j: int|
        0 <= j < plan.len() && plan[j] == TravisAction::Cancel(builds[k].id) ==> j == i);
}

/// Law: a build whose commit is absent from the commit list is neither
/// cancelled nor inspected: it is excluded from the probe entirely.
pub proof fn lemma_unmatched_commit_untouched(
    builds: Seq<TravisBuild>,
    commits: Seq<TravisCommit>,
    branch: Seq<char>,
    k: int,
)
    requires
        distinct_ids(builds),
        0 <= k < builds.len(),
        commit_branch(commits, builds[k].commit_id) is None,
    ensures
        !travis_plan_spec(builds, commits, branch).contains(TravisAction::Cancel(builds[k].id)),
        !travis_plan_spec(builds, commits, branch).contains(TravisAction::Inspect(builds[k].id)),
{
    let m = max_branch_number(builds, commits, branch);
    lemma_cancel_membership(builds, commits, branch, m, builds[k].id);
    lemma_inspect_membership(builds, commits, branch, m, builds[k].id);
    if travis_plan_spec(builds, commits, branch).contains(TravisAction::Cancel(builds[k].id)) {
        let i = choose|i: int|
            0 <= i < builds.len() && builds[i].id == builds[k].id && on_branch(
                builds[i],
                commits,
                branch,
            ) && !travis_terminal(builds[i].state) && dec_value(builds[i].number@) != m;
        assert(i == k);
    }
    if travis_plan_spec(builds, commits, branch).contains(TravisAction::Inspect(builds[k].id)) {
        let i = choose|i: int|
            0 <= i < builds.len() && builds[i].id == builds[k].id && on_branch(
                builds[i],
                commits,
                branch,
            ) && !travis_terminal(builds[i].state) && dec_value(builds[i].number@) == m;
        assert(i == k);
    }
}

} // verus!

