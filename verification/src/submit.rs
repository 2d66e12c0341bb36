//! Submitting a scan job: classifying the scanner's reply to the job
//! request and driving the bounded busy-retry policy.
//!
//! The host program posts the settings document to `{base}/ScanJobs` and
//! feeds what came back into [`SubmitState::on_event`]. The machine answers
//! with a directive: the job was accepted at a location, or the host should
//! wait one second and post again, or the submission has failed for good.
//! A busy scanner (HTTP 503) is retried at most [`MAX_BUSY_REPLIES`] times;
//! every other failure is fatal at once.

use vstd::prelude::*;
use vstd::string::StringExecFns;
use crate::urlops::{parse_url, url_parse};

verus! {

/// How often a busy scanner is asked again before the submission is given
/// up as timed out.
pub const MAX_BUSY_REPLIES: u32 = 100;

/// Why a submission failed.
#[derive(Debug, Clone, Copy, PartialEq, Eq)]
pub enum SubmitError {
    /// The request could not be sent or no reply was received at all.
    RequestFailed,
    /// The scanner answered with a status that rejects the job: any status
    /// other than success or busy, or a success reply whose `Location`
    /// header is missing or does not parse as a URL.
    ScannerRejected(u16),
    /// The scanner stayed busy through every permitted retry.
    SubmissionTimedOut,
}

/// What the transport observed for one posted job request.
#[derive(Debug)]
pub enum SubmitEvent {
    /// A reply arrived, with its status code and the value of its
    /// `Location` header, when that header was present and readable.
    Reply { status: u16, location: Option<String> },
    /// No reply arrived at all.
    NoReply,
}

/// What the host program must do next with the submission.
#[derive(Debug, PartialEq, Eq)]
pub enum SubmitDirective {
    /// The job was created; fetch the documents from this location. The
    /// location is the scanner's `Location` header with a trailing path
    /// separator appended, in serialized URL form.
    Accepted(String),
    /// The scanner is busy; wait one second and post the same request again.
    WaitAndRetry,
    /// The submission has failed; do not post again.
    Fail(SubmitError),
}

/// The submission retry machine: counts how many busy replies have been
/// absorbed so far.
#[derive(Debug, Clone, Copy, PartialEq, Eq)]
pub struct SubmitState {
    /// Busy replies seen so far; starts at zero.
    pub attempts: u32,
}

/// A reply reduced to what the protocol distinguishes.
pub enum SubmitClass {
    /// Success with a parseable location: the serialized accepted location.
    Accept(Seq<char>),
    /// HTTP 503: the scanner cannot take the job yet.
    Busy,
    /// Any other reply, or a success reply without a usable location.
    Reject(u16),
    /// No reply at all.
    NoContact,
}

/// Classifies a transport event. A success status (2xx) with a `Location`
/// header that parses as a URL once a trailing separator is appended is an
/// acceptance carrying that URL; a success without such a location is a
/// rejection with the actual status; 503 is busy; anything else is a
/// rejection; silence is lack of contact.
pub open spec fn spec_event_class(e: SubmitEvent) -> SubmitClass {
    match e {
        SubmitEvent::NoReply => SubmitClass::NoContact,
        SubmitEvent::Reply { status, location } => {
            if 200 <= status && status < 300 {
                match location {
                    Some(h) => match url_parse(h@ + "/"@) {
                        Some(u) => SubmitClass::Accept(u),
                        None => SubmitClass::Reject(status),
                    },
                    None => SubmitClass::Reject(status),
                }
            } else if status == 503 {
                SubmitClass::Busy
            } else {
                SubmitClass::Reject(status)
            }
        },
    }
}

/// Where a submission stands after some replies.
pub enum SubmitProgress {
    /// Still submitting, with this many busy replies absorbed.
    Waiting(nat),
    /// The job was accepted at this serialized location.
    Accepted(Seq<char>),
    /// The submission failed.
    Failed(SubmitError),
}

/// One step of the submission machine: from the number of busy replies
/// absorbed so far and the class of the next reply to the machine's
/// progress after that reply.
pub open spec fn spec_submit_step(attempts: nat, c: SubmitClass) -> SubmitProgress {
    match c {
        SubmitClass::Accept(u) => SubmitProgress::Accepted(u),
        SubmitClass::Reject(s) => SubmitProgress::Failed(SubmitError::ScannerRejected(s)),
        SubmitClass::NoContact => SubmitProgress::Failed(SubmitError::RequestFailed),
        SubmitClass::Busy => if attempts + 1 >= MAX_BUSY_REPLIES as nat {
            SubmitProgress::Failed(SubmitError::SubmissionTimedOut)
        } else {
            SubmitProgress::Waiting((attempts + 1) as nat)
        },
    }
}

/// The submission machine run over a whole sequence of reply classes:
/// steps through them in order and stops at the first terminal step.
pub open spec fn spec_submit_run(attempts: nat, cs: Seq<SubmitClass>) -> SubmitProgress
    decreases cs.len(),
{
    if cs.len() == 0 {
        SubmitProgress::Waiting(attempts)
    } else {
        match spec_submit_step(attempts, cs[0]) {
            SubmitProgress::Waiting(a) => spec_submit_run(a, cs.drop_first()),
            SubmitProgress::Accepted(u) => SubmitProgress::Accepted(u),
            SubmitProgress::Failed(err) => SubmitProgress::Failed(err),
        }
    }
}

impl SubmitState {
    /// A fresh submission: no busy replies absorbed yet.
    pub fn new() -> (s: Self)
        ensures
            s.attempts == 0,
    {
        SubmitState { attempts: 0 }
    }

    /// Feeds one transport event into the machine and says what to do next.
    ///
    /// The directive and the new state follow [`spec_submit_step`] applied
    /// to the event's class: acceptance hands out the location, a fatal
    /// reply hands out the error, and a busy reply either asks the host to
    /// wait and retry (counting it) or, once the retry budget is spent,
    /// fails with [`SubmitError::SubmissionTimedOut`].
    pub fn on_event(&mut self, e: SubmitEvent) -> (r: SubmitDirective)
        ensures
            match spec_submit_step(old(self).attempts as nat, spec_event_class(e)) {
                SubmitProgress::Waiting(a) => {
                    &&& r == SubmitDirective::WaitAndRetry
                    &&& final(self).attempts as nat == a
                },
                SubmitProgress::Accepted(u) => {
                    &&& r matches SubmitDirective::Accepted(loc) && loc@ == u
                    &&& *final(self) == *old(self)
                },
                SubmitProgress::Failed(err) => {
                    &&& r == SubmitDirective::Fail(err)
                    &&& *final(self) == *old(self)
                },
            },
    {
        match e {
            SubmitEvent::NoReply => SubmitDirective::Fail(SubmitError::RequestFailed),
            SubmitEvent::Reply { status, location } => {
                if 200 <= status && status < 300 {
                    match location {
                        Some(h) => {
                            let with_slash = h.concat("/");
                            match parse_url(with_slash.as_str()) {
                                Some(loc) => SubmitDirective::Accepted(loc),
                                None => SubmitDirective::Fail(SubmitError::ScannerRejected(status)),
                            }
                        },
                        None => SubmitDirective::Fail(SubmitError::ScannerRejected(status)),
                    }
                } else if status == 503 {
                    if self.attempts >= MAX_BUSY_REPLIES - 1 {
                        SubmitDirective::Fail(SubmitError::SubmissionTimedOut)
                    } else {
                        self.attempts = self.attempts + 1;
                        SubmitDirective::WaitAndRetry
                    }
                } else {
                    SubmitDirective::Fail(SubmitError::ScannerRejected(status))
                }
            },
        }
    }
}

/// The URL the settings document is posted to: the scanner's base URL with
/// the `/ScanJobs` path appended.
pub fn scan_jobs_url(base: &str) -> (r: String)
    ensures
        r@ == base@ + "/ScanJobs"@,
{
    String::from_str(base).concat("/ScanJobs")
}

/// Law (bounded busy patience): a submission that receives nothing but busy
/// replies is never accepted. While fewer than [`MAX_BUSY_REPLIES`] busy
/// replies have arrived the machine is still waiting, having counted each
/// one; the moment they reach that bound it fails with
/// [`SubmitError::SubmissionTimedOut`].
pub proof fn lemma_all_busy_times_out(cs: Seq<SubmitClass>)
    requires
        forall|i: int| 0 <= i < cs.len() ==> cs[i] is Busy,
    ensures
        cs.len() < MAX_BUSY_REPLIES as nat
            ==> spec_submit_run(0, cs) == SubmitProgress::Waiting(cs.len() as nat),
        cs.len() >= MAX_BUSY_REPLIES as nat
            ==> spec_submit_run(0, cs) == SubmitProgress::Failed(SubmitError::SubmissionTimedOut),
{
    lemma_busy_run_from(0, cs);
}

/// All-busy runs, from any attempt count still under the bound: the run
/// keeps waiting exactly until the count reaches the bound.
proof fn lemma_busy_run_from(attempts: nat, cs: Seq<SubmitClass>)
    requires
        attempts < MAX_BUSY_REPLIES as nat,
        forall|i: int| 0 <= i < cs.len() ==> cs[i] is Busy,
    ensures
        attempts + cs.len() < MAX_BUSY_REPLIES as nat
            ==> spec_submit_run(attempts, cs) == SubmitProgress::Waiting((attempts + cs.len()) as nat),
        attempts + cs.len() >= MAX_BUSY_REPLIES as nat
            ==> spec_submit_run(attempts, cs)
                == SubmitProgress::Failed(SubmitError::SubmissionTimedOut),
    decreases cs.len(),
{
    if cs.len() != 0 {
        assert(cs[0] is Busy);
        if attempts + 1 < MAX_BUSY_REPLIES as nat {
            lemma_busy_run_from((attempts + 1) as nat, cs.drop_first());
        }
    }
}

/// Law (fatal replies are immediate): a run whose first reply is a
/// rejection or a transport failure fails right there — with
/// [`SubmitError::ScannerRejected`] carrying the actual status, or with
/// [`SubmitError::RequestFailed`] — whatever replies would have followed
/// and however many busy replies were absorbed before.
pub proof fn lemma_fatal_reply_aborts_run(attempts: nat, cs: Seq<SubmitClass>)
    requires
        cs.len() > 0,
        cs[0] is Reject || cs[0] is NoContact,
    ensures
        forall|s: u16| cs[0] == SubmitClass::Reject(s)
            ==> spec_submit_run(attempts, cs)
                == SubmitProgress::Failed(SubmitError::ScannerRejected(s)),
        cs[0] is NoContact
            ==> spec_submit_run(attempts, cs)
                == SubmitProgress::Failed(SubmitError::RequestFailed),
{
}

} // verus!
