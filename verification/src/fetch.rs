//! Fetching the scanned documents.
//!
//! Once a job is accepted the host program repeatedly waits one second,
//! requests `NextDocument` from the job location, and feeds what came back
//! into [`FetchState::on_event`]. The machine answers with a directive:
//! save the reply's body under a given filename (and whether to keep
//! going), stop because the scanner has no more documents, or abort. A
//! success reply always saves exactly one file; in single-document mode the
//! loop stops after the first save; HTTP 404 is the normal end-of-documents
//! signal; any other status, and transport silence, abort the operation.

use vstd::prelude::*;
use crate::filename::{determine_filename, spec_filename, spec_single_dot};
use crate::urlops::{join_url, url_join};

verus! {

/// Why a fetch loop aborted.
#[derive(Debug, Clone, Copy, PartialEq, Eq)]
pub enum FetchError {
    /// The request could not be sent or no reply was received at all.
    TransportError,
    /// The scanner answered with a status that is neither success nor the
    /// end-of-documents signal.
    UnexpectedStatus(u16),
}

/// What the transport observed for one `NextDocument` request.
#[derive(Debug, Clone, Copy, PartialEq, Eq)]
pub enum FetchEvent {
    /// A reply arrived with this status code.
    Reply { status: u16 },
    /// No reply arrived at all.
    NoReply,
}

/// What the host program must do next with the fetch loop.
#[derive(Debug, PartialEq, Eq)]
pub enum FetchDirective {
    /// Write the reply's body to this file, overwriting it if it exists;
    /// then, when `more` holds, wait one second and request the next
    /// document, else stop.
    Save { filename: String, more: bool },
    /// The scanner has no more documents; stop without writing anything.
    Finished,
    /// The fetch has failed; stop without writing anything.
    Abort(FetchError),
}

/// The fetch loop's state.
#[derive(Debug, PartialEq, Eq)]
pub struct FetchState {
    /// The sequence number of the next document, starting at one and
    /// incremented exactly on each successful save.
    pub seq_number: u64,
    /// Whether more than one document is expected (feeder scans).
    pub multi: bool,
    /// The caller's output path; sequence numbers are woven into it in
    /// multi-document mode.
    pub outfile: String,
}

/// A reply reduced to what the protocol distinguishes.
pub enum FetchClass {
    /// Success (2xx): a document arrived.
    Success,
    /// HTTP 404: no more documents; the normal end of the loop.
    NotFound,
    /// Any other status: fatal.
    Other(u16),
    /// No reply at all: fatal.
    NoContact,
}

/// Classifies a transport event.
pub open spec fn spec_fetch_class(e: FetchEvent) -> FetchClass {
    match e {
        FetchEvent::Reply { status } => if 200 <= status && status < 300 {
            FetchClass::Success
        } else if status == 404 {
            FetchClass::NotFound
        } else {
            FetchClass::Other(status)
        },
        FetchEvent::NoReply => FetchClass::NoContact,
    }
}

/// How a fetch run ended.
pub enum FetchOutcome {
    /// The replies ran out while the loop would still have gone on.
    Pending,
    /// The loop stopped normally: after the first save in single-document
    /// mode, or at the end-of-documents signal.
    Done,
    /// The loop aborted.
    Aborted(FetchError),
}

/// The outcome a terminal reply class dictates.
pub open spec fn spec_terminal_outcome(t: FetchClass) -> FetchOutcome {
    match t {
        FetchClass::Success => FetchOutcome::Pending,
        FetchClass::NotFound => FetchOutcome::Done,
        FetchClass::Other(s) => FetchOutcome::Aborted(FetchError::UnexpectedStatus(s)),
        FetchClass::NoContact => FetchOutcome::Aborted(FetchError::TransportError),
    }
}

/// The fetch loop run over a whole sequence of reply classes: the names of
/// the files saved, in order, and how the run ended. Each success saves
/// exactly one file, named with the sequence number current at that reply;
/// in single-document mode the run is done after the first success and
/// later replies are never asked for.
pub open spec fn spec_fetch_run(
    seq_number: nat,
    multi: bool,
    outfile: Seq<char>,
    cs: Seq<FetchClass>,
) -> (Seq<Seq<char>>, FetchOutcome)
    decreases cs.len(),
{
    if cs.len() == 0 {
        (Seq::empty(), FetchOutcome::Pending)
    } else {
        match cs[0] {
            FetchClass::Success => {
                let f = spec_filename(multi, outfile, seq_number);
                if multi {
                    let rest = spec_fetch_run(seq_number + 1, multi, outfile, cs.drop_first());
                    (seq![f] + rest.0, rest.1)
                } else {
                    (seq![f], FetchOutcome::Done)
                }
            },
            FetchClass::NotFound => (Seq::empty(), FetchOutcome::Done),
            FetchClass::Other(s) => (
                Seq::empty(),
                FetchOutcome::Aborted(FetchError::UnexpectedStatus(s)),
            ),
            FetchClass::NoContact => (
                Seq::empty(),
                FetchOutcome::Aborted(FetchError::TransportError),
            ),
        }
    }
}

impl FetchState {
    /// The state is usable: sequence numbers start at one, and in
    /// multi-document mode the output path can be split at its only
    /// extension separator.
    pub open spec fn wf(self) -> bool {
        &&& self.seq_number >= 1
        &&& self.multi ==> spec_single_dot(self.outfile@)
    }

    /// Starts a fetch loop at sequence number one. In multi-document mode
    /// an output path without exactly one extension separator is rejected,
    /// since no filename could be derived from it.
    pub fn new(outfile: String, multi: bool) -> (r: Option<FetchState>)
        ensures
            match r {
                Some(st) => st.seq_number == 1 && st.multi == multi && st.outfile == outfile
                    && st.wf(),
                None => multi && !spec_single_dot(outfile@),
            },
    {
        if multi {
            match crate::filename::find_single_dot(outfile.as_str()) {
                Some(i) => {
                    proof {
                        assert(crate::filename::is_only_dot(outfile@, i as int));
                    }
                    Some(FetchState { seq_number: 1, multi, outfile })
                },
                None => None,
            }
        } else {
            Some(FetchState { seq_number: 1, multi, outfile })
        }
    }

    /// Feeds one transport event into the loop and says what to do next.
    ///
    /// A success reply directs the host to save the body under the name for
    /// the current sequence number and increments that number; `more` tells
    /// the host whether to request another document (multi-document mode)
    /// or to stop after this save. A 404 reply finishes the loop without a
    /// save; any other status, and silence, abort it.
    pub fn on_event(&mut self, e: FetchEvent) -> (r: FetchDirective)
        requires
            old(self).wf(),
            old(self).seq_number < u64::MAX,
        ensures
            final(self).wf(),
            final(self).multi == old(self).multi,
            final(self).outfile == old(self).outfile,
            match spec_fetch_class(e) {
                FetchClass::Success => {
                    &&& (r matches FetchDirective::Save { filename, more }
                        && filename@ == spec_filename(
                            old(self).multi,
                            old(self).outfile@,
                            old(self).seq_number as nat,
                        )
                        && more == old(self).multi)
                    &&& final(self).seq_number == old(self).seq_number + 1
                },
                FetchClass::NotFound => r == FetchDirective::Finished && *final(self) == *old(self),
                FetchClass::Other(s) => r == FetchDirective::Abort(FetchError::UnexpectedStatus(s))
                    && *final(self) == *old(self),
                FetchClass::NoContact => r == FetchDirective::Abort(FetchError::TransportError)
                    && *final(self) == *old(self),
            },
    {
        match e {
            FetchEvent::Reply { status } => {
                if 200 <= status && status < 300 {
                    let filename = determine_filename(
                        self.multi,
                        self.outfile.as_str(),
                        self.seq_number,
                    );
                    let more = self.multi;
                    self.seq_number = self.seq_number + 1;
                    FetchDirective::Save { filename, more }
                } else if status == 404 {
                    FetchDirective::Finished
                } else {
                    FetchDirective::Abort(FetchError::UnexpectedStatus(status))
                }
            },
            FetchEvent::NoReply => FetchDirective::Abort(FetchError::TransportError),
        }
    }
}

/// The URL the next document is fetched from: the relative `NextDocument`
/// reference resolved against the job location.
pub fn next_document_url(location: &str) -> (r: Option<String>)
    ensures
        match r {
            Some(t) => url_join(location@, "NextDocument"@) == Some(t@),
            None => url_join(location@, "NextDocument"@) is None,
        },
{
    join_url(location, "NextDocument")
}

/// Law (single-document mode stops at the first save): when the mode is
/// single and the first reply is a success, the run saves exactly one file,
/// named with the output path itself, and is done — whatever replies would
/// have followed are never asked for.
pub proof fn lemma_single_mode_stops_after_first_save(
    seq_number: nat,
    outfile: Seq<char>,
    cs: Seq<FetchClass>,
)
    requires
        cs.len() > 0,
        cs[0] is Success,
    ensures
        spec_fetch_run(seq_number, false, outfile, cs).0 == seq![outfile],
        spec_fetch_run(seq_number, false, outfile, cs).1 == FetchOutcome::Done,
{
    assert(spec_filename(false, outfile, seq_number) == outfile);
}

/// Law (gapless multi-document naming): in multi-document mode, a run of
/// `k` success replies followed by one terminal reply saves exactly `k`
/// files, the one at position `i` named with sequence number
/// `seq_number + i` — consecutive numbers with no gap — and then ends as
/// the terminal reply dictates: not-found finishes the run cleanly, any
/// other status aborts it with that status, silence aborts it as a
/// transport failure. The files saved before the terminal reply stay in
/// the run's output either way.
pub proof fn lemma_multi_run_names_are_gapless(
    seq_number: nat,
    outfile: Seq<char>,
    k: nat,
    t: FetchClass,
)
    requires
        !(t is Success),
    ensures
        spec_fetch_run(
            seq_number,
            true,
            outfile,
            Seq::new(k, |i: int| FetchClass::Success).push(t),
        ).0 == Seq::new(k, |i: int| spec_filename(true, outfile, (seq_number + i) as nat)),
        spec_fetch_run(
            seq_number,
            true,
            outfile,
            Seq::new(k, |i: int| FetchClass::Success).push(t),
        ).1 == spec_terminal_outcome(t),
    decreases k,
{
    let cs = Seq::new(k, |i: int| FetchClass::Success).push(t);
    let names = Seq::new(k, |i: int| spec_filename(true, outfile, (seq_number + i) as nat));
    if k == 0 {
        assert(cs[0] == t);
        assert(spec_fetch_run(seq_number, true, outfile, cs).0 =~= names);
    } else {
        assert(cs[0] == FetchClass::Success);
        lemma_multi_run_names_are_gapless(seq_number + 1, outfile, (k - 1) as nat, t);
        assert(cs.drop_first() =~= Seq::new((k - 1) as nat, |i: int| FetchClass::Success).push(t));
        let rest = spec_fetch_run(seq_number + 1, true, outfile, cs.drop_first());
        assert(rest.0 == Seq::new(
            (k - 1) as nat,
            |i: int| spec_filename(true, outfile, (seq_number + 1 + i) as nat),
        ));
        assert(spec_fetch_run(seq_number, true, outfile, cs).0 =~= names);
    }
}

} // verus!
