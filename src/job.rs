use vstd::prelude::*;
use crate::progress::{JobProgress, Observation};
use crate::text_source::{decode, TextProgressSource};

verus! {

/// Where a sync job stands: waiting for its target directory, fetching,
/// or done with the outcome of the fetch.
pub enum JobStatus {
    Pending,
    Running,
    Succeeded,
    Failed(String),
}

pub enum StatusView {
    Pending,
    Running,
    Succeeded,
    Failed(Seq<char>),
}

impl View for JobStatus {
    type V = StatusView;

    open spec fn view(&self) -> StatusView {
        match self {
            JobStatus::Pending => StatusView::Pending,
            JobStatus::Running => StatusView::Running,
            JobStatus::Succeeded => StatusView::Succeeded,
            JobStatus::Failed(m) => StatusView::Failed(m@),
        }
    }
}

/// What the worker of a job reports to it.
pub enum JobEvent {
    /// The target directory was cleared, or could not be (with the reason).
    Prepared(Result<(), String>),
    /// Bytes of the fetch tool's diagnostic output.
    Output(Vec<u8>),
    /// Counts from a transport that reports them directly.
    Transfer(u64, u64),
    /// The fetch ended, successfully or with the reason it failed.
    Exited(Result<(), String>),
}

pub enum EventView {
    Prepared(Result<(), Seq<char>>),
    Output(Seq<u8>),
    Transfer(u64, u64),
    Exited(Result<(), Seq<char>>),
}

pub open spec fn outcome_view(r: Result<(), String>) -> Result<(), Seq<char>> {
    match r {
        Ok(()) => Ok(()),
        Err(m) => Err(m@),
    }
}

impl View for JobEvent {
    type V = EventView;

    open spec fn view(&self) -> EventView {
        match self {
            JobEvent::Prepared(r) => EventView::Prepared(outcome_view(*r)),
            JobEvent::Output(b) => EventView::Output(b@),
            JobEvent::Transfer(r, t) => EventView::Transfer(*r, *t),
            JobEvent::Exited(r) => EventView::Exited(outcome_view(*r)),
        }
    }
}

/// The terminal report of one job.
pub struct SyncResult {
    pub url: String,
    pub name: String,
    pub success: bool,
    pub message: String,
}

pub struct ResultView {
    pub url: Seq<char>,
    pub name: Seq<char>,
    pub success: bool,
    pub message: Seq<char>,
}

impl View for SyncResult {
    type V = ResultView;

    open spec fn view(&self) -> ResultView {
        ResultView { url: self.url@, name: self.name@, success: self.success, message: self.message@ }
    }
}

/// The unit of work that fetches one repository into one target directory.
/// Only its own worker changes it.
pub struct SyncJob {
    pub url: String,
    /// The name of the target directory under the download root.
    pub name: String,
    pub status: JobStatus,
    pub source: TextProgressSource,
}

pub struct JobView {
    pub url: Seq<char>,
    pub name: Seq<char>,
    pub status: StatusView,
    pub pending: Seq<u8>,
    pub progress: JobProgress,
}

impl View for SyncJob {
    type V = JobView;

    open spec fn view(&self) -> JobView {
        JobView {
            url: self.url@,
            name: self.name@,
            status: self.status@,
            pending: self.source.pending@,
            progress: self.source.progress,
        }
    }
}

pub open spec fn success_message() -> Seq<char> {
    "Finished cloning"@
}

/// A job after one event. Events that do not fit the job's status change nothing.
pub open spec fn step(v: JobView, e: EventView) -> JobView {
    match (v.status, e) {
        (StatusView::Pending, EventView::Prepared(Ok(()))) => JobView { status: StatusView::Running, ..v },
        (StatusView::Pending, EventView::Prepared(Err(m))) => JobView { status: StatusView::Failed(m), ..v },
        (StatusView::Running, EventView::Output(b)) => {
            let d = decode(v.pending, v.progress, b);
            JobView { pending: d.0, progress: d.1, ..v }
        },
        (StatusView::Running, EventView::Transfer(r, t)) => JobView {
            progress: v.progress.after(Observation { phase: v.progress.phase, received: r, total: t }),
            ..v
        },
        (StatusView::Running, EventView::Exited(Ok(()))) => JobView { status: StatusView::Succeeded, ..v },
        (StatusView::Running, EventView::Exited(Err(m))) => JobView { status: StatusView::Failed(m), ..v },
        _ => v,
    }
}

/// The observations an event applies to a job's progress, in order.
pub open spec fn step_observations(v: JobView, e: EventView) -> Seq<Observation> {
    match (v.status, e) {
        (StatusView::Running, EventView::Output(b)) => decode(v.pending, v.progress, b).2,
        (StatusView::Running, EventView::Transfer(r, t)) => {
            let o = Observation { phase: v.progress.phase, received: r, total: t };
            if v.progress.accepts(o) {
                seq![o]
            } else {
                Seq::empty()
            }
        },
        _ => Seq::empty(),
    }
}

/// The report of a job: present once it has succeeded or failed.
pub open spec fn result_spec(v: JobView) -> Option<ResultView> {
    match v.status {
        StatusView::Succeeded => Some(
            ResultView { url: v.url, name: v.name, success: true, message: success_message() },
        ),
        StatusView::Failed(m) => Some(ResultView { url: v.url, name: v.name, success: false, message: m }),
        _ => None,
    }
}

impl SyncJob {
    pub open spec fn wf(&self) -> bool {
        self.source.wf()
    }

    /// A job that has not touched its target directory yet.
    pub fn new(url: String, name: String) -> (r: SyncJob)
        ensures
            r@ == (JobView {
                url: url@,
                name: name@,
                status: StatusView::Pending,
                pending: Seq::empty(),
                progress: JobProgress::new_spec(),
            }),
            r.wf(),
    {
        SyncJob { url, name, status: JobStatus::Pending, source: TextProgressSource::new() }
    }

    /// The job's live progress.
    pub fn progress(&self) -> (r: JobProgress)
        ensures
            r == self@.progress,
    {
        self.source.progress
    }

    /// The job has reached its outcome.
    pub fn is_done(&self) -> (r: bool)
        ensures
            r == (self@.status is Succeeded || self@.status is Failed),
    {
        match self.status {
            JobStatus::Succeeded | JobStatus::Failed(_) => true,
            _ => false,
        }
    }

    /// The fetch may start: the target directory is ready.
    pub fn is_running(&self) -> (r: bool)
        ensures
            r == (self@.status is Running),
    {
        match self.status {
            JobStatus::Running => true,
            _ => false,
        }
    }

    /// Takes one event; returns the observations it applied.
    pub fn handle(&mut self, event: JobEvent) -> (r: Vec<Observation>)
        requires
            old(self).wf(),
        ensures
            final(self)@ == step(old(self)@, event@),
            r@ == step_observations(old(self)@, event@),
            final(self).wf(),
    {
        let running = self.is_running();
        match event {
            JobEvent::Prepared(outcome) => {
                if let JobStatus::Pending = self.status {
                    match outcome {
                        Ok(()) => {
                            self.status = JobStatus::Running;
                        },
                        Err(m) => {
                            self.status = JobStatus::Failed(m);
                        },
                    }
                }
                Vec::new()
            },
            JobEvent::Output(bytes) => {
                if running {
                    self.source.feed(bytes.as_slice())
                } else {
                    Vec::new()
                }
            },
            JobEvent::Transfer(received, total) => {
                let mut r: Vec<Observation> = Vec::new();
                if running {
                    if let Some(o) = self.source.progress.observe_transfer(received, total) {
                        r.push(o);
                    }
                }
                r
            },
            JobEvent::Exited(outcome) => {
                if running {
                    match outcome {
                        Ok(()) => {
                            self.status = JobStatus::Succeeded;
                        },
                        Err(m) => {
                            self.status = JobStatus::Failed(m);
                        },
                    }
                }
                Vec::new()
            },
        }
    }

    /// The job's report, once it has an outcome.
    pub fn result(&self) -> (r: Option<SyncResult>)
        ensures
            match r {
                Some(x) => result_spec(self@) == Some(x@),
                None => result_spec(self@) is None,
            },
    {
        match &self.status {
            JobStatus::Succeeded => Some(
                SyncResult {
                    url: self.url.clone(),
                    name: self.name.clone(),
                    success: true,
                    message: String::from_str("Finished cloning"),
                },
            ),
            JobStatus::Failed(m) => Some(
                SyncResult {
                    url: self.url.clone(),
                    name: self.name.clone(),
                    success: false,
                    message: m.clone(),
                },
            ),
            _ => None,
        }
    }
}

} // verus!
