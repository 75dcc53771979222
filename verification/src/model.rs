//! Workflow runs and pull requests as the GitHub CLI reports them.

use vstd::prelude::*;
use vstd::string::*;
use crate::text::{has_non_white_space, has_prefix, lemma_trimmed_empty, starts_with_text, text_eq, trim_text};

verus! {

/// A point in time: whole seconds since the Unix epoch and the nanoseconds
/// past that second.
#[derive(Debug, Clone, Copy, PartialEq, Eq, Structural)]
pub struct Timestamp {
    pub seconds: i64,
    pub nanos: u32,
}

impl Timestamp {
    /// Whether `self` lies strictly before `other`.
    pub open spec fn spec_before(self, other: Timestamp) -> bool {
        self.seconds < other.seconds || (self.seconds == other.seconds && self.nanos
            < other.nanos)
    }

    /// Whether `self` lies strictly before `other`.
    pub fn is_before(&self, other: &Timestamp) -> (r: bool)
        ensures
            r == self.spec_before(*other),
    {
        self.seconds < other.seconds || (self.seconds == other.seconds && self.nanos < other.nanos)
    }
}

/// A workflow run.
#[derive(Debug, Clone)]
pub struct Run {
    pub attempt: Option<u64>,
    pub conclusion: Option<String>,
    pub created_at: Timestamp,
    pub database_id: u64,
    pub display_title: String,
    pub event: String,
    pub head_branch: String,
    pub head_sha: Option<String>,
    pub name: String,
    pub number: Option<u64>,
    pub failure_data: Vec<String>,
    pub failure_reason: Option<String>,
    pub pr_number: Option<u64>,
    pub started_at: Option<Timestamp>,
    pub status: String,
    pub updated_at: Timestamp,
    pub url: Option<String>,
    pub workflow_database_id: Option<u64>,
    pub workflow_name: String,
}

/// The author of a pull request.
#[derive(Debug, Clone)]
pub struct PullRequestAuthor {
    pub login: String,
}

/// An open pull request.
#[derive(Debug, Clone)]
pub struct PullRequest {
    pub author: Option<PullRequestAuthor>,
    pub base_ref_name: String,
    pub created_at: Timestamp,
    pub head_ref_name: String,
    pub is_draft: bool,
    pub number: u64,
    pub title: String,
    pub updated_at: Timestamp,
}

/// Whether `label` is one of the labels of a failed run.
pub open spec fn is_failure_label(label: Seq<char>) -> bool {
    label == "failure"@ || label == "cancelled"@ || label == "timed_out"@ || label
        == "startup_failure"@ || label == "action_required"@
}

/// Whether the text of `label` is one of the labels of a failed run.
pub fn failure_label_text(label: &str) -> (r: bool)
    ensures
        r == is_failure_label(label@),
{
    text_eq(label, "failure") || text_eq(label, "cancelled") || text_eq(label, "timed_out")
        || text_eq(label, "startup_failure") || text_eq(label, "action_required")
}

impl PullRequest {
    /// `draft` for a draft pull request, `open` for any other.
    pub open spec fn spec_status_label(&self) -> Seq<char> {
        if self.is_draft {
            "draft"@
        } else {
            "open"@
        }
    }

    /// `draft` for a draft pull request, `open` for any other.
    pub fn status_label(&self) -> (r: &'static str)
        ensures
            r@ == self.spec_status_label(),
    {
        if self.is_draft {
            "draft"
        } else {
            "open"
        }
    }

    /// The login of the author, or `unknown` when there is no author.
    pub open spec fn spec_author_login(&self) -> Seq<char> {
        match self.author {
            Some(a) => a.login@,
            None => "unknown"@,
        }
    }

    /// The login of the author, or `unknown` when there is no author.
    pub fn author_login(&self) -> (r: &str)
        ensures
            r@ == self.spec_author_login(),
    {
        match &self.author {
            Some(a) => a.login.as_str(),
            None => "unknown",
        }
    }
}

impl Run {
    /// The workflow name, or the run name when the workflow name is empty.
    pub open spec fn spec_workflow_label(&self) -> Seq<char> {
        if self.workflow_name@.len() == 0 {
            self.name@
        } else {
            self.workflow_name@
        }
    }

    /// The workflow name, or the run name when the workflow name is empty.
    pub fn workflow_label(&self) -> (r: &str)
        ensures
            r@ == self.spec_workflow_label(),
    {
        if self.workflow_name.as_str().is_empty() {
            self.name.as_str()
        } else {
            self.workflow_name.as_str()
        }
    }

    /// Whether the run was started by a pull request event.
    pub open spec fn spec_is_pull_request_event(&self) -> bool {
        has_prefix(self.event@, "pull_request"@)
    }

    /// Whether the event name begins with `pull_request`.
    pub fn is_pull_request_event(&self) -> (r: bool)
        ensures
            r == self.spec_is_pull_request_event(),
    {
        starts_with_text(self.event.as_str(), "pull_request")
    }

    /// The conclusion when it holds more than white space, else the status.
    pub open spec fn spec_status_label(&self) -> Seq<char> {
        match self.conclusion {
            Some(c) => if has_non_white_space(c@) {
                c@
            } else {
                self.status@
            },
            None => self.status@,
        }
    }

    /// The conclusion when it holds more than white space, else the status.
    pub fn status_label(&self) -> (r: &str)
        ensures
            r@ == self.spec_status_label(),
    {
        match &self.conclusion {
            Some(c) => {
                let t = trim_text(c.as_str());
                proof {
                    lemma_trimmed_empty(c@);
                }
                if t.as_str().is_empty() {
                    self.status.as_str()
                } else {
                    c.as_str()
                }
            },
            None => self.status.as_str(),
        }
    }

    /// The status label when it is that of a failed run.
    pub fn failure_label(&self) -> (r: Option<&str>)
        ensures
            is_failure_label(self.spec_status_label()) ==> r is Some && r->Some_0@
                == self.spec_status_label(),
            !is_failure_label(self.spec_status_label()) ==> r is None,
    {
        let label = self.status_label();
        if failure_label_text(label) {
            Some(label)
        } else {
            None
        }
    }
}

} // verus!
