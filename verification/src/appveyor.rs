//! AppVeyor policy.
//!
//! One probe of one repository runs two independent checks. The history
//! check fetches the recent builds of the tracked branch and cancels every
//! running build whose ordinal is strictly below the greatest one fetched.
//! The latest-build check fetches the single newest branch build and, if it
//! still runs, scans its jobs in order: the first job outside the allowed
//! set dooms the build and the scan stops there.

use vstd::prelude::*;
use vstd::string::StringExecFns;

verus! {

/// A status reported for an AppVeyor build or job.
#[derive(Clone, Copy, Debug, PartialEq, Eq, Structural)]
pub enum AppVeyorStatus {
    Success,
    Failed,
    Cancelled,
    Queued,
    Running,
    Starting,
    Unknown,
}

/// One unit of work inside a build.
pub struct AppVeyorJob {
    pub status: AppVeyorStatus,
}

/// A build as the history and branch endpoints report it. `version` is the
/// path segment a cancellation request must name.
pub struct AppVeyorBuild {
    pub build_number: u64,
    pub version: String,
    pub status: AppVeyorStatus,
    pub jobs: Vec<AppVeyorJob>,
}

/// The status a provider wrote into a payload, read into the closed set.
pub open spec fn spec_appveyor_status(s: Seq<char>) -> AppVeyorStatus {
    if s == "success"@ {
        AppVeyorStatus::Success
    } else if s == "failed"@ {
        AppVeyorStatus::Failed
    } else if s == "cancelled"@ {
        AppVeyorStatus::Cancelled
    } else if s == "queued"@ {
        AppVeyorStatus::Queued
    } else if s == "running"@ {
        AppVeyorStatus::Running
    } else if s == "starting"@ {
        AppVeyorStatus::Starting
    } else {
        AppVeyorStatus::Unknown
    }
}

/// Reads a wire status string into the closed status set. Anything outside
/// the known vocabulary is `Unknown`, which counts as still running.
pub fn appveyor_status_of(s: &String) -> (r: AppVeyorStatus)
    ensures
        r == spec_appveyor_status(s@),
{
    if *s == String::from_str("success") {
        AppVeyorStatus::Success
    } else if *s == String::from_str("failed") {
        AppVeyorStatus::Failed
    } else if *s == String::from_str("cancelled") {
        AppVeyorStatus::Cancelled
    } else if *s == String::from_str("queued") {
        AppVeyorStatus::Queued
    } else if *s == String::from_str("running") {
        AppVeyorStatus::Running
    } else if *s == String::from_str("starting") {
        AppVeyorStatus::Starting
    } else {
        AppVeyorStatus::Unknown
    }
}

/// A terminal build status: the build will not change any more.
pub open spec fn appveyor_terminal(st: AppVeyorStatus) -> bool {
    st is Failed || st is Cancelled || st is Success
}

/// A job status the latest-build check accepts without action.
pub open spec fn appveyor_job_ok(st: AppVeyorStatus) -> bool {
    st is Success || st is Queued || st is Running
}

impl AppVeyorStatus {
    /// A build with this status still runs; every non-terminal status
    /// counts, the unknown one included.
    pub fn is_running(&self) -> (r: bool)
        ensures
            r == !appveyor_terminal(*self),
    {
        match self {
            AppVeyorStatus::Failed => false,
            AppVeyorStatus::Cancelled => false,
            AppVeyorStatus::Success => false,
            _ => true,
        }
    }

    /// A job with this status gives no reason to cancel its build.
    pub fn is_acceptable_job(&self) -> (r: bool)
        ensures
            r == appveyor_job_ok(*self),
    {
        match self {
            AppVeyorStatus::Success => true,
            AppVeyorStatus::Queued => true,
            AppVeyorStatus::Running => true,
            _ => false,
        }
    }
}

/// The greatest build ordinal in the fetched history; zero when empty.
pub open spec fn max_history_number(builds: Seq<AppVeyorBuild>) -> nat
    decreases builds.len(),
{
    if builds.len() == 0 {
        0
    } else {
        let rest = max_history_number(builds.drop_last());
        if builds.last().build_number > rest {
            builds.last().build_number as nat
        } else {
            rest
        }
    }
}

/// The history builds to cancel, as indices into the fetched list, in list
/// order: the running ones strictly older than the newest fetched build.
pub open spec fn history_cancels(builds: Seq<AppVeyorBuild>, m: nat) -> Seq<usize>
    decreases builds.len(),
{
    if builds.len() == 0 {
        Seq::empty()
    } else {
        let rest = history_cancels(builds.drop_last(), m);
        let b = builds.last();
        if !appveyor_terminal(b.status) && (b.build_number as nat) < m {
            rest.push((builds.len() - 1) as usize)
        } else {
            rest
        }
    }
}

/// The history check: which of the fetched builds to cancel.
///
/// A build is cancelled when it still runs and its ordinal is strictly
/// below the greatest fetched ordinal; a build carrying that maximum is
/// never touched by this check.
#[verifier::loop_isolation(false)]
pub fn appveyor_history_plan(builds: &Vec<AppVeyorBuild>) -> (r: Vec<usize>)
    ensures
        r@ == history_cancels(builds@, max_history_number(builds@)),
{
    let mut m: u64 = 0;
    let mut i: usize = 0;
    proof {
        assert(builds@.subrange(0, 0) =~= Seq::<AppVeyorBuild>::empty());
    }
    while i < builds.len()
        invariant
            i <= builds@.len(),
            m as nat == max_history_number(builds@.subrange(0, i as int)),
        decreases builds@.len() - i,
    {
        proof {
            assert(builds@.subrange(0, i + 1).drop_last() =~= builds@.subrange(0, i as int));
            assert(builds@.subrange(0, i + 1).last() == builds@[i as int]);
        }
        if builds[i].build_number > m {
            m = builds[i].build_number;
        }
        i = i + 1;
    }
    proof {
        assert(builds@.subrange(0, builds@.len() as int) =~= builds@);
    }
    let mut r: Vec<usize> = Vec::new();
    let mut i: usize = 0;
    while i < builds.len()
        invariant
            i <= builds@.len(),
            m as nat == max_history_number(builds@),
            r@ == history_cancels(builds@.subrange(0, i as int), m as nat),
        decreases builds@.len() - i,
    {
        proof {
            assert(builds@.subrange(0, i + 1).drop_last() =~= builds@.subrange(0, i as int));
            assert(builds@.subrange(0, i + 1).last() == builds@[i as int]);
        }
        if builds[i].status.is_running() && builds[i].build_number < m {
            r.push(i);
        }
        i = i + 1;
    }
    proof {
        assert(builds@.subrange(0, builds@.len() as int) =~= builds@);
    }
    r
}

/// An index stands in the history plan exactly for the running builds
/// strictly older than the given maximum.
proof fn lemma_history_membership(builds: Seq<AppVeyorBuild>, m: nat, k: usize)
    requires
        builds.len() <= usize::MAX,
    ensures
        history_cancels(builds, m).contains(k) <==> k < builds.len() && !appveyor_terminal(
            builds[k as int].status,
        ) && (builds[k as int].build_number as nat) < m,
    decreases builds.len(),
{
    if builds.len() == 0 {
    } else {
        let prefix = builds.drop_last();
        let b = builds.last();
        lemma_history_membership(prefix, m, k);
        let rest = history_cancels(prefix, m);
        let whole = history_cancels(builds, m);
        if !appveyor_terminal(b.status) && (b.build_number as nat) < m {
            assert(whole == rest.push((builds.len() - 1) as usize));
            assert(forall|x: usize| whole.contains(x) <==> rest.contains(x) || x == (
            builds.len() - 1) as usize) by {
                assert(forall|x: usize| rest.contains(x) ==> whole.contains(x)) by {
                    assert(forall|t: int| 0 <= t < rest.len() ==> whole[t] == rest[t]);
                }
                assert(whole[rest.len() as int] == (builds.len() - 1) as usize);
            }
        } else {
            assert(whole == rest);
        }
    }
}

/// Law: the history check cancels exactly the running builds strictly
/// older than the newest fetched build, each at most once, and never the
/// build that carries the greatest ordinal.
pub proof fn lemma_history_check(builds: Seq<AppVeyorBuild>, k: usize)
    requires
        builds.len() <= usize::MAX,
        k < builds.len(),
    ensures
        history_cancels(builds, max_history_number(builds)).contains(k) <==> !appveyor_terminal(
            builds[k as int].status,
        ) && (builds[k as int].build_number as nat) < max_history_number(builds),
        builds[k as int].build_number as nat == max_history_number(builds)
            ==> !history_cancels(builds, max_history_number(builds)).contains(k),
{
    lemma_history_membership(builds, max_history_number(builds), k);
}

/// The indices in the history plan never repeat: a stale running build is
/// cancelled exactly once.
pub proof fn lemma_history_no_duplicates(builds: Seq<AppVeyorBuild>, m: nat)
    requires
        builds.len() <= usize::MAX,
    ensures
        history_cancels(builds, m).no_duplicates(),
    decreases builds.len(),
{
    if builds.len() == 0 {
    } else {
        let prefix = builds.drop_last();
        let b = builds.last();
        lemma_history_no_duplicates(prefix, m);
        let rest = history_cancels(prefix, m);
        let whole = history_cancels(builds, m);
        if !appveyor_terminal(b.status) && (b.build_number as nat) < m {
            let last = (builds.len() - 1) as usize;
            assert(whole == rest.push(last));
            assert(!rest.contains(last)) by {
                lemma_history_membership(prefix, m, last);
            }
            assert(forall|i: int, j: int| 0 <= i < j < whole.len() ==> whole[i] != whole[j]) by {
                assert(forall|i: int| 0 <= i < rest.len() ==> whole[i] == rest[i]);
                assert(whole[whole.len() - 1] == last);
                assert(forall|i: int| 0 <= i < rest.len() ==> rest.contains(rest[i]));
            }
        } else {
            assert(whole == rest);
        }
    }
}

/// The latest-build check: whether to cancel the newest branch build.
///
/// Nothing happens unless the build still runs. Its jobs are then scanned
/// in order and the first job outside the allowed set dooms the build; the
/// result names that job's index, and no job beyond it is inspected.
pub fn appveyor_latest_action(build: &AppVeyorBuild) -> (r: Option<usize>)
    ensures
        match r {
            Some(i) => !appveyor_terminal(build.status) && i < build.jobs@.len()
                && !appveyor_job_ok(build.jobs@[i as int].status) && forall|j: int|
                0 <= j < i ==> appveyor_job_ok(build.jobs@[j].status),
            None => appveyor_terminal(build.status) || forall|j: int|
                0 <= j < build.jobs@.len() ==> appveyor_job_ok(build.jobs@[j].status),
        },
{
    if !build.status.is_running() {
        return None;
    }
    let mut i: usize = 0;
    while i < build.jobs.len()
        invariant
            i <= build.jobs@.len(),
            !appveyor_terminal(build.status),
            forall|j: int| 0 <= j < i ==> appveyor_job_ok(build.jobs@[j].status),
        decreases build.jobs@.len() - i,
    {
        if !build.jobs[i].status.is_acceptable_job() {
            return Some(i);
        }
        i = i + 1;
    }
    None
}

} // verus!
