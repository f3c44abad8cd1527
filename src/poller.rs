use vstd::prelude::*;
use crate::error::{ResponseField, WallpaperError};
use crate::json::{JsonValue, field_of, str_of};

verus! {

/// Polls allowed, by default, before a job counts as timed out.
pub const MAX_POLL_ATTEMPTS: u32 = 30;

/// Seconds to wait before each poll, by default.
pub const POLL_INTERVAL_SECS: u64 = 2;

/// Statuses on which polling goes on. Any other status ends the loop.
pub open spec fn is_pending(status: Seq<char>) -> bool {
    status == "starting"@ || status == "processing"@
}

/// The `status` of a job-status response, when it is a string.
pub open spec fn status_of(resp: JsonValue) -> Option<Seq<char>> {
    match field_of(resp, "status"@) {
        Some(v) => str_of(v),
        None => None,
    }
}

/// Whether a job-status response carries a non-empty `output` array, and if
/// so the text of its first element (`None` when that is no string).
pub open spec fn output_of(resp: JsonValue) -> Option<Option<Seq<char>>> {
    match field_of(resp, "output"@) {
        Some(JsonValue::Array(items)) => if items@.len() > 0 {
            Some(str_of(items@[0]))
        } else {
            None
        },
        _ => None,
    }
}

/// The state of one job-polling session.
pub struct JobPoller {
    /// The last status seen; `"starting"` before the first poll.
    pub status: String,
    /// Set once a poll response carries a non-empty output array: the text of
    /// its first element, or `None` when that element is no string.
    pub output: Option<Option<String>>,
    /// Polls made so far.
    pub attempts: u32,
    /// Polls allowed before the session counts as timed out.
    pub max_attempts: u32,
    /// Seconds to wait before each poll.
    pub interval_secs: u64,
}

/// The captured output, as text.
pub open spec fn output_view(o: Option<Option<String>>) -> Option<Option<Seq<char>>> {
    match o {
        Some(Some(s)) => Some(Some(s@)),
        Some(None) => Some(None),
        None => None,
    }
}

/// What to do next.
#[derive(Debug)]
pub enum PollStep {
    /// Wait the session's `interval_secs`, poll the job's status, and hand the
    /// response to `JobPoller::record_poll`.
    Poll,
    /// The session is over, with this result: the URL of the generated image
    /// or the reason there is none.
    Finish(Result<String, WallpaperError>),
}

impl JobPoller {
    /// No session counts more polls than its budget allows.
    pub open spec fn wf(&self) -> bool {
        self.attempts <= self.max_attempts
    }

    /// Polling goes on while the status is pending, no output has been seen
    /// and the budget is not spent.
    pub open spec fn continues(&self) -> bool {
        is_pending(self.status@) && self.attempts < self.max_attempts && self.output is None
    }

    /// The result of a session that has stopped in this state. The budget is
    /// checked first, then the output, then the status.
    pub open spec fn outcome_is(&self, r: Result<String, WallpaperError>) -> bool {
        if self.attempts >= self.max_attempts {
            r == Err::<String, WallpaperError>(WallpaperError::TimedOut(self.attempts))
        } else {
            match self.output {
                Some(Some(url)) => r matches Ok(s) && s@ == url@,
                Some(None) => r == Err::<String, WallpaperError>(
                    WallpaperError::MalformedResponse(ResponseField::OutputUrl),
                ),
                None => if self.status@ == "succeeded"@ {
                    r == Err::<String, WallpaperError>(WallpaperError::NoOutput)
                } else {
                    r matches Err(WallpaperError::Failed(st)) && st@ == self.status@
                },
            }
        }
    }

    /// A session for a job that was just created, with the default budget
    /// and interval.
    pub fn new() -> (r: JobPoller)
        ensures
            r.wf(),
            r.status@ == "starting"@,
            r.output is None,
            r.attempts == 0,
            r.max_attempts == MAX_POLL_ATTEMPTS,
            r.interval_secs == POLL_INTERVAL_SECS,
            r.continues(),
    {
        JobPoller::with_budget(MAX_POLL_ATTEMPTS, POLL_INTERVAL_SECS)
    }

    /// A session for a job that was just created, allowed `max_attempts`
    /// polls spaced `interval_secs` apart.
    pub fn with_budget(max_attempts: u32, interval_secs: u64) -> (r: JobPoller)
        ensures
            r.wf(),
            r.status@ == "starting"@,
            r.output is None,
            r.attempts == 0,
            r.max_attempts == max_attempts,
            r.interval_secs == interval_secs,
            r.continues() == (max_attempts > 0),
    {
        JobPoller {
            status: "starting".to_string(),
            output: None,
            attempts: 0,
            max_attempts,
            interval_secs,
        }
    }

    /// Whether another poll is due.
    pub fn should_poll(&self) -> (r: bool)
        ensures
            r == self.continues(),
    {
        let pending = self.status == "starting".to_string() || self.status
            == "processing".to_string();
        pending && self.attempts < self.max_attempts && self.output.is_none()
    }

    /// Takes in the response of one poll. The attempt is counted; a response
    /// without a string `status` fails; otherwise the status is kept, and a
    /// non-empty `output` array is captured.
    pub fn record_poll(&mut self, resp: &JsonValue) -> (r: Result<(), WallpaperError>)
        requires
            old(self).wf(),
            old(self).attempts < old(self).max_attempts,
            old(self).output is None,
        ensures
            final(self).wf(),
            final(self).attempts == old(self).attempts + 1,
            final(self).max_attempts == old(self).max_attempts,
            final(self).interval_secs == old(self).interval_secs,
            status_of(*resp) is None ==> r == Err::<(), WallpaperError>(
                WallpaperError::MalformedResponse(ResponseField::Status),
            ),
            status_of(*resp) matches Some(st) ==> (r is Ok && final(self).status@ == st
                && output_view(final(self).output) == output_of(*resp)),
    {
        self.attempts = self.attempts + 1;
        let status = match resp.get(&"status".to_string()) {
            Some(v) => match v.as_str() {
                Some(s) => s.clone(),
                None => return Err(WallpaperError::MalformedResponse(ResponseField::Status)),
            },
            None => return Err(WallpaperError::MalformedResponse(ResponseField::Status)),
        };
        self.status = status;
        if let Some(JsonValue::Array(items)) = resp.get(&"output".to_string()) {
            if items.len() > 0 {
                self.output = match items[0].as_str() {
                    Some(s) => Some(Some(s.clone())),
                    None => Some(None),
                };
            }
        }
        Ok(())
    }

    /// The result of the session in its present state.
    pub fn outcome(&self) -> (r: Result<String, WallpaperError>)
        ensures
            self.outcome_is(r),
    {
        if self.attempts >= self.max_attempts {
            return Err(WallpaperError::TimedOut(self.attempts));
        }
        match &self.output {
            Some(Some(url)) => Ok(url.clone()),
            Some(None) => Err(WallpaperError::MalformedResponse(ResponseField::OutputUrl)),
            None => if self.status == "succeeded".to_string() {
                Err(WallpaperError::NoOutput)
            } else {
                Err(WallpaperError::Failed(self.status.clone()))
            },
        }
    }

    /// The next step: another poll while one is due, else the result.
    pub fn next_step(&self) -> (r: PollStep)
        ensures
            self.continues() ==> r is Poll,
            !self.continues() ==> (r matches PollStep::Finish(res) && self.outcome_is(res)),
    {
        if self.should_poll() {
            PollStep::Poll
        } else {
            PollStep::Finish(self.outcome())
        }
    }
}


/// Only `"starting"` and `"processing"` keep a session polling: a poll
/// that reports any other status without output ends it, as a failure
/// carrying that status unless it is `"succeeded"`.
pub proof fn lemma_unrecognized_status_fails(p: JobPoller, r: Result<String, WallpaperError>)
    requires
        p.wf(),
        p.attempts < p.max_attempts,
        p.output is None,
        !is_pending(p.status@),
        p.status@ != "succeeded"@,
        p.outcome_is(r),
    ensures
        !p.continues(),
        r matches Err(WallpaperError::Failed(st)) && st@ == p.status@,
{
}

/// Output seen within the budget ends the session with the first output
/// element, whatever the status said.
pub proof fn lemma_output_wins_over_status(p: JobPoller, r: Result<String, WallpaperError>)
    requires
        p.wf(),
        p.attempts < p.max_attempts,
        p.output matches Some(Some(url)),
        p.outcome_is(r),
    ensures
        !p.continues(),
        r matches Ok(s) && s@ == p.output->Some_0->Some_0@,
{
}

/// A session whose budget is spent stops, and reports a timeout whatever
/// status or output it holds.
pub proof fn lemma_spent_budget_times_out(p: JobPoller, r: Result<String, WallpaperError>)
    requires
        p.wf(),
        p.attempts == p.max_attempts,
        p.outcome_is(r),
    ensures
        !p.continues(),
        r == Err::<String, WallpaperError>(WallpaperError::TimedOut(p.max_attempts)),
{
}

} // verus!
