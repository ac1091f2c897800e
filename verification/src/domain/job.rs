//! The life cycle of a job: queued, running, then completed or failed.

use vstd::prelude::*;

use crate::text::same_text;

verus! {

/// Where a job stands in its life cycle.
#[derive(Debug, Clone, Copy, PartialEq, Eq, Structural)]
pub enum JobStatus {
    Queued,
    Running,
    Completed,
    Failed,
}

/// The status that a stored status text names, if any.
pub open spec fn status_from_text(t: Seq<char>) -> Option<JobStatus> {
    if t == "queued"@ {
        Some(JobStatus::Queued)
    } else if t == "running"@ {
        Some(JobStatus::Running)
    } else if t == "completed"@ {
        Some(JobStatus::Completed)
    } else if t == "failed"@ {
        Some(JobStatus::Failed)
    } else {
        None
    }
}

impl JobStatus {
    /// The text under which the status is stored and reported.
    pub open spec fn text(self) -> Seq<char> {
        match self {
            JobStatus::Queued => "queued"@,
            JobStatus::Running => "running"@,
            JobStatus::Completed => "completed"@,
            JobStatus::Failed => "failed"@,
        }
    }

    /// A job in this status will not change any more.
    pub open spec fn terminal(self) -> bool {
        self == JobStatus::Completed || self == JobStatus::Failed
    }

    /// The text under which the status is stored and reported.
    pub fn as_str(&self) -> (r: &'static str)
        ensures
            r@ == self.text(),
    {
        match self {
            JobStatus::Queued => "queued",
            JobStatus::Running => "running",
            JobStatus::Completed => "completed",
            JobStatus::Failed => "failed",
        }
    }

    /// The status that a stored status text names, or `None` for any other
    /// text.
    pub fn from_str(s: &str) -> (r: Option<JobStatus>)
        ensures
            r == status_from_text(s@),
    {
        if same_text(s, "queued") {
            Some(JobStatus::Queued)
        } else if same_text(s, "running") {
            Some(JobStatus::Running)
        } else if same_text(s, "completed") {
            Some(JobStatus::Completed)
        } else if same_text(s, "failed") {
            Some(JobStatus::Failed)
        } else {
            None
        }
    }

    /// A job in this status is completed or failed and will not change any
    /// more.
    pub fn is_terminal(&self) -> (r: bool)
        ensures
            r == self.terminal(),
    {
        match self {
            JobStatus::Completed | JobStatus::Failed => true,
            JobStatus::Queued | JobStatus::Running => false,
        }
    }
}

/// The four status texts begin with four different letters.
proof fn status_texts_differ()
    ensures
        "queued"@ != "running"@,
        "queued"@ != "completed"@,
        "queued"@ != "failed"@,
        "running"@ != "completed"@,
        "running"@ != "failed"@,
        "completed"@ != "failed"@,
{
    reveal_strlit("queued");
    reveal_strlit("running");
    reveal_strlit("completed");
    reveal_strlit("failed");
    assert("queued"@[0] == 'q');
    assert("running"@[0] == 'r');
    assert("completed"@[0] == 'c');
    assert("failed"@[0] == 'f');
}

/// Reading back the text of a status gives the status again.
pub proof fn lemma_status_text_roundtrip(s: JobStatus)
    ensures
        status_from_text(s.text()) == Some(s),
{
    status_texts_differ();
}

/// A text read back as a status is exactly that status's text, so two
/// different texts never name the same status.
pub proof fn lemma_status_text_exact(t: Seq<char>, s: JobStatus)
    requires
        status_from_text(t) == Some(s),
    ensures
        t == s.text(),
{
    status_texts_differ();
}

} // verus!
