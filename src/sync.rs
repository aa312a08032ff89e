use vstd::prelude::*;
use crate::descriptor::{entries_view, repo_name, repo_name_spec};
use crate::job::{
    result_spec, step, success_message, EventView, JobView, ResultView, StatusView, SyncJob,
    SyncResult,
};
use crate::progress::JobProgress;

verus! {

/// Why a configured set of repositories cannot be synced.
pub enum PlanError {
    /// The entry at this position names no URL.
    EmptyEntry(usize),
    /// Two repositories would be fetched into the directory of this name.
    DuplicateName(String),
    /// The repository of this URL would be fetched into no directory of its
    /// own: its name is empty, `.` or `..`.
    UnusableName(String),
}

/// The target directory name of entry `k`.
pub open spec fn entry_name(ev: Seq<Seq<Seq<char>>>, k: int) -> Seq<char> {
    repo_name_spec(ev[k][0])
}

/// A name that denotes a directory of its own under the download root.
pub open spec fn usable_name(n: Seq<char>) -> bool {
    n.len() > 0 && n != seq!['.'] && n != seq!['.', '.']
}

/// The first `n` entries all have a usable target directory name.
pub open spec fn usable_upto(ev: Seq<Seq<Seq<char>>>, n: int) -> bool {
    forall|k: int| 0 <= k < n ==> usable_name(#[trigger] entry_name(ev, k))
}

pub open spec fn all_named(ev: Seq<Seq<Seq<char>>>) -> bool {
    forall|k: int| 0 <= k < ev.len() ==> (#[trigger] ev[k]).len() > 0
}

/// No two of the first `n` entries share a target directory name.
pub open spec fn distinct_names_upto(ev: Seq<Seq<Seq<char>>>, n: int) -> bool {
    forall|i: int, j: int| 0 <= i < j < n ==> entry_name(ev, i) != entry_name(ev, j)
}

/// The job planned for entry `k`: pending, with nothing fetched yet.
pub open spec fn planned_job(ev: Seq<Seq<Seq<char>>>, k: int) -> JobView {
    JobView {
        url: ev[k][0],
        name: entry_name(ev, k),
        status: StatusView::Pending,
        pending: Seq::empty(),
        progress: JobProgress::new_spec(),
    }
}

/// A job after its events, in order.
pub open spec fn run(v: JobView, events: Seq<EventView>) -> JobView
    decreases events.len(),
{
    if events.len() == 0 {
        v
    } else {
        run(step(v, events[0]), events.drop_first())
    }
}

pub open spec fn unfinished_message() -> Seq<char> {
    "Fetch did not complete"@
}

/// The report of a job when results are collected: a job without an
/// outcome counts as failed.
pub open spec fn report_spec(v: JobView) -> ResultView {
    match result_spec(v) {
        Some(r) => r,
        None => ResultView { url: v.url, name: v.name, success: false, message: unfinished_message() },
    }
}

/// The reports of a sync run in which each planned job takes its own events.
pub open spec fn sync_outcome(ev: Seq<Seq<Seq<char>>>, events: Seq<Seq<EventView>>) -> Seq<
    ResultView,
> {
    Seq::new(ev.len(), |k: int| report_spec(run(planned_job(ev, k), events[k])))
}

impl PlanError {
    pub open spec fn message_spec(&self) -> Seq<char> {
        match self {
            PlanError::EmptyEntry(_) => "A repository entry has no URL"@,
            PlanError::DuplicateName(n) => "Two repositories share the directory name "@ + n@,
            PlanError::UnusableName(u) => "No directory name can be derived from the URL "@ + u@,
        }
    }

    /// A line that explains the error.
    pub fn message(&self) -> (r: String)
        ensures
            r@ == self.message_spec(),
    {
        match self {
            PlanError::EmptyEntry(_) => String::from_str("A repository entry has no URL"),
            PlanError::DuplicateName(n) => String::from_str(
                "Two repositories share the directory name ",
            ).concat(n.as_str()),
            PlanError::UnusableName(u) => String::from_str(
                "No directory name can be derived from the URL ",
            ).concat(u.as_str()),
        }
    }
}

fn is_usable_name(n: &str) -> (r: bool)
    ensures
        r == usable_name(n@),
{
    let len = n.unicode_len();
    if len == 0 {
        false
    } else if len == 1 {
        let c = n.get_char(0);
        assert(c == '.' ==> n@ == seq!['.']);
        c != '.'
    } else if len == 2 {
        let c0 = n.get_char(0);
        let c1 = n.get_char(1);
        assert(c0 == '.' && c1 == '.' ==> n@ == seq!['.', '.']);
        !(c0 == '.' && c1 == '.')
    } else {
        true
    }
}

/// One pending job per configured repository, in configuration order.
/// Fails on the first entry without a URL, or else on the first entry whose
/// target directory name is unusable or already taken by an earlier entry.
pub fn plan_sync(git_repos: &Vec<Vec<String>>) -> (r: Result<Vec<SyncJob>, PlanError>)
    ensures
        ({
            let ev = entries_view(git_repos@);
            match r {
                Ok(jobs) => {
                    &&& all_named(ev)
                    &&& usable_upto(ev, ev.len() as int)
                    &&& distinct_names_upto(ev, ev.len() as int)
                    &&& jobs.len() == ev.len()
                    &&& forall|k: int|
                        0 <= k < jobs.len() ==> (#[trigger] jobs@[k])@ == planned_job(ev, k)
                            && jobs@[k].wf()
                },
                Err(PlanError::EmptyEntry(i)) => {
                    &&& i < ev.len()
                    &&& ev[i as int].len() == 0
                    &&& forall|k: int| 0 <= k < i ==> (#[trigger] ev[k]).len() > 0
                },
                Err(PlanError::DuplicateName(n)) => {
                    &&& all_named(ev)
                    &&& exists|i: int, j: int|
                        0 <= i < j < ev.len() && entry_name(ev, i) == n@ && entry_name(ev, j) == n@
                            && distinct_names_upto(ev, j) && usable_upto(ev, j + 1)
                },
                Err(PlanError::UnusableName(u)) => {
                    &&& all_named(ev)
                    &&& exists|j: int|
                        0 <= j < ev.len() && ev[j][0] == u@ && !usable_name(entry_name(ev, j))
                            && distinct_names_upto(ev, j) && usable_upto(ev, j)
                },
            }
        }),
{
    let ghost ev = entries_view(git_repos@);
    let mut i: usize = 0;
    while i < git_repos.len()
        invariant
            ev == entries_view(git_repos@),
            i <= git_repos.len(),
            forall|k: int| 0 <= k < i ==> (#[trigger] ev[k]).len() > 0,
        decreases git_repos.len() - i,
    {
        assert(ev[i as int].len() == git_repos@[i as int].len());
        if git_repos[i].len() == 0 {
            return Err(PlanError::EmptyEntry(i));
        }
        i = i + 1;
    }
    let mut jobs: Vec<SyncJob> = Vec::new();
    let mut j: usize = 0;
    while j < git_repos.len()
        invariant
            ev == entries_view(git_repos@),
            all_named(ev),
            j <= git_repos.len(),
            jobs.len() == j,
            distinct_names_upto(ev, j as int),
            usable_upto(ev, j as int),
            forall|k: int| 0 <= k < j ==> (#[trigger] jobs@[k])@ == planned_job(ev, k) && jobs@[k].wf(),
        decreases git_repos.len() - j,
    {
        assert(ev[j as int].len() > 0);
        assert(ev[j as int][0] == git_repos@[j as int]@[0]@);
        let url = git_repos[j][0].clone();
        let name = repo_name(url.as_str());
        if !is_usable_name(name.as_str()) {
            return Err(PlanError::UnusableName(url));
        }
        let mut k: usize = 0;
        while k < j
            invariant
                ev == entries_view(git_repos@),
                all_named(ev),
                j < git_repos.len(),
                distinct_names_upto(ev, j as int),
                usable_upto(ev, j as int + 1),
                name@ == entry_name(ev, j as int),
                forall|m: int| 0 <= m < j ==> (#[trigger] jobs@[m]).wf(),
                k <= j,
                jobs.len() == j,
                forall|m: int| 0 <= m < j ==> (#[trigger] jobs@[m])@ == planned_job(ev, m),
                forall|m: int| 0 <= m < k ==> entry_name(ev, m) != name@,
            decreases j - k,
        {
            assert(jobs@[k as int]@.name == entry_name(ev, k as int));
            if jobs[k].name == name {
                return Err(PlanError::DuplicateName(name));
            }
            k = k + 1;
        }
        let job = SyncJob::new(url, name);
        jobs.push(job);
        j = j + 1;
    }
    Ok(jobs)
}

/// The report of every job, in order; a job without an outcome is
/// reported as failed.
pub fn collect_results(jobs: &Vec<SyncJob>) -> (r: Vec<SyncResult>)
    ensures
        r.len() == jobs.len(),
        forall|k: int| 0 <= k < r.len() ==> (#[trigger] r@[k])@ == report_spec(jobs@[k]@),
{
    let mut r: Vec<SyncResult> = Vec::new();
    let mut k: usize = 0;
    while k < jobs.len()
        invariant
            k <= jobs.len(),
            r.len() == k,
            forall|m: int| 0 <= m < k ==> (#[trigger] r@[m])@ == report_spec(jobs@[m]@),
        decreases jobs.len() - k,
    {
        let job = &jobs[k];
        match job.result() {
            Some(x) => r.push(x),
            None => r.push(
                SyncResult {
                    url: job.url.clone(),
                    name: job.name.clone(),
                    success: false,
                    message: String::from_str("Fetch did not complete"),
                },
            ),
        }
        k = k + 1;
    }
    r
}

proof fn lemma_run_keeps_identity(v: JobView, events: Seq<EventView>)
    ensures
        run(v, events).url == v.url,
        run(v, events).name == v.name,
    decreases events.len(),
{
    if events.len() > 0 {
        lemma_run_keeps_identity(step(v, events[0]), events.drop_first());
    }
}

proof fn lemma_run_to_success(v: JobView, outputs: Seq<EventView>)
    requires
        v.status is Running,
        forall|k: int| 0 <= k < outputs.len() ==> (#[trigger] outputs[k] is Output) || outputs[k] is Transfer,
    ensures
        run(v, outputs + seq![EventView::Exited(Ok(()))]).status is Succeeded,
    decreases outputs.len(),
{
    let done = seq![EventView::Exited(Ok(()))];
    if outputs.len() == 0 {
        assert(outputs + done == done);
        assert(done.drop_first().len() == 0);
        assert(run(step(v, done[0]), done.drop_first()) == step(v, done[0]));
        assert(step(v, done[0]).status is Succeeded);
    } else {
        assert((outputs + done)[0] == outputs[0]);
        assert((outputs + done).drop_first() == outputs.drop_first() + done);
        assert(outputs[0] is Output || outputs[0] is Transfer);
        assert forall|k: int| 0 <= k < outputs.drop_first().len() implies (
        #[trigger] outputs.drop_first()[k] is Output) || outputs.drop_first()[k] is Transfer by {
            assert(outputs.drop_first()[k] == outputs[k + 1]);
            assert(outputs[k + 1] is Output || outputs[k + 1] is Transfer);
        }
        assert(step(v, outputs[0]).status is Running);
        lemma_run_to_success(step(v, outputs[0]), outputs.drop_first());
    }
}

/// Repositories with distinct target directory names each get one job, and
/// the run reports once on every one of them, for that repository's own
/// directory, whatever the fetches do.
pub proof fn lemma_one_report_per_repository(
    ev: Seq<Seq<Seq<char>>>,
    events: Seq<Seq<EventView>>,
)
    requires
        all_named(ev),
        distinct_names_upto(ev, ev.len() as int),
        events.len() == ev.len(),
    ensures
        ({
            let out = sync_outcome(ev, events);
            &&& out.len() == ev.len()
            &&& forall|k: int|
                0 <= k < out.len() ==> (#[trigger] out[k]).url == ev[k][0] && out[k].name
                    == entry_name(ev, k)
            &&& forall|i: int, j: int| 0 <= i < j < out.len() ==> out[i].name != out[j].name
        }),
{
    let out = sync_outcome(ev, events);
    assert forall|k: int| 0 <= k < out.len() implies (#[trigger] out[k]).url == ev[k][0]
        && out[k].name == entry_name(ev, k) by {
        lemma_run_keeps_identity(planned_job(ev, k), events[k]);
    }
    assert forall|i: int, j: int| 0 <= i < j < out.len() implies out[i].name != out[j].name by {
        lemma_run_keeps_identity(planned_job(ev, i), events[i]);
        lemma_run_keeps_identity(planned_job(ev, j), events[j]);
    }
}

/// A failing job does not keep a sibling from success: a job whose target
/// directory is prepared and whose own fetch succeeds is reported as a
/// success, while another job of the same run fails.
pub proof fn lemma_failure_isolated(
    ev: Seq<Seq<Seq<char>>>,
    events: Seq<Seq<EventView>>,
    failing: int,
    j: int,
    outputs: Seq<EventView>,
)
    requires
        all_named(ev),
        events.len() == ev.len(),
        0 <= failing < ev.len(),
        0 <= j < ev.len(),
        failing != j,
        events[failing].len() > 0,
        events[failing].last() is Exited,
        events[failing].last()->Exited_0 is Err,
        forall|k: int| 0 <= k < outputs.len() ==> (#[trigger] outputs[k] is Output) || outputs[k] is Transfer,
        events[j] == seq![EventView::Prepared(Ok(()))] + outputs + seq![EventView::Exited(Ok(()))],
    ensures
        sync_outcome(ev, events)[j].success,
        sync_outcome(ev, events)[j].message == success_message(),
{
    let v = planned_job(ev, j);
    let rest = outputs + seq![EventView::Exited(Ok(()))];
    assert(events[j][0] == EventView::Prepared(Ok(())));
    assert(events[j].drop_first() == rest);
    lemma_run_to_success(step(v, events[j][0]), outputs);
}

proof fn lemma_failed_stays_failed(v: JobView, events: Seq<EventView>)
    requires
        v.status is Failed,
    ensures
        run(v, events).status == v.status,
    decreases events.len(),
{
    if events.len() > 0 {
        lemma_failed_stays_failed(step(v, events[0]), events.drop_first());
    }
}

/// A job fetches only into a cleared target directory: from a pending job,
/// no sequence of events starts the fetch, or ends it successfully, unless
/// one of them reports the target directory as prepared.
pub proof fn lemma_fetch_follows_preparation(v: JobView, events: Seq<EventView>)
    requires
        v.status is Pending,
    ensures
        (run(v, events).status is Running || run(v, events).status is Succeeded) ==> exists|i: int|
            0 <= i < events.len() && events[i] == EventView::Prepared(Ok(())),
    decreases events.len(),
{
    if events.len() > 0 {
        let w = step(v, events[0]);
        let rest = events.drop_first();
        let done = run(v, events).status is Running || run(v, events).status is Succeeded;
        match events[0] {
            EventView::Prepared(Ok(unit)) => {
                assert(events[0] == EventView::Prepared(Ok(unit)));
            },
            EventView::Prepared(Err(_)) => {
                lemma_failed_stays_failed(w, rest);
            },
            _ => {
                lemma_fetch_follows_preparation(w, rest);
                if done {
                    let i = choose|i: int|
                        0 <= i < rest.len() && rest[i] == EventView::Prepared(Ok(()));
                    assert(events[i + 1] == EventView::Prepared(Ok(())));
                }
            },
        }
    }
}

/// Jobs are isolated: whatever the events of job `i` are, a failing fetch
/// among them included, the report of every other job stays as it was.
pub proof fn lemma_reports_independent(
    ev: Seq<Seq<Seq<char>>>,
    events: Seq<Seq<EventView>>,
    i: int,
    other: Seq<EventView>,
    j: int,
)
    requires
        events.len() == ev.len(),
        0 <= i < ev.len(),
        0 <= j < ev.len(),
        i != j,
    ensures
        sync_outcome(ev, events.update(i, other))[j] == sync_outcome(ev, events)[j],
{
    assert(events.update(i, other)[j] == events[j]);
}

} // verus!
