//! The orchestrator: a state machine over the fetch → stream → write (or
//! fetch → decode → print) pipeline.
//!
//! The surrounding program performs the network and file I/O; after each
//! operation it reports an [`Event`], and [`Pipeline::step`] decides what
//! follows. Every transition is fixed by the spec function [`next_phase`],
//! and the lemmas below state the guarantees of the table: a non-2xx
//! response fails the run, a dropped stream discards the partial body, and
//! the writing phase is reached only through a fully collected body.

use vstd::prelude::*;

use crate::outcome::{ErrorKind, Mode, Outcome, is_success_code};
use crate::resolve::{check_url, is_absolute_url};

verus! {

/// Where a run currently stands.
#[derive(Clone, Copy, Debug, PartialEq, Eq, Structural)]
pub enum Phase {
    /// The GET request is in flight.
    Fetching,
    /// A successful response's body is being streamed into a buffer
    /// (save mode).
    Streaming,
    /// A successful response's body is being decoded as text (print mode).
    Decoding,
    /// The fully collected body of `bytes` bytes is being written to the
    /// destination file.
    Writing { bytes: usize },
    /// The run is over; no event changes a finished run.
    Finished { outcome: Outcome },
}

/// What the surroundings report back after each operation.
#[derive(Clone, Copy, Debug, PartialEq, Eq, Structural)]
pub enum Event {
    /// A response arrived, carrying this status code.
    Response { status: u16 },
    /// The transport failed before any response arrived.
    TransportFailed,
    /// The whole body was streamed; this many bytes were collected.
    BodyDone { bytes: usize },
    /// The connection dropped while the body was being streamed.
    BodyFailed,
    /// The body was decoded as text and printed.
    TextDone,
    /// The body could not be decoded as text.
    TextFailed,
    /// Every collected byte was written to the destination file.
    WriteDone,
    /// The destination file could not be created or written.
    WriteFailed,
}

/// The complete transition table of the pipeline. An event that cannot
/// occur in a phase leaves the phase unchanged.
pub open spec fn next_phase(mode: Mode, phase: Phase, event: Event) -> Phase {
    match (phase, event) {
        (Phase::Fetching, Event::Response { status }) => if !is_success_code(status) {
            Phase::Finished { outcome: Outcome::Failure { kind: ErrorKind::RequestFailed } }
        } else if mode is Save {
            Phase::Streaming
        } else {
            Phase::Decoding
        },
        (Phase::Fetching, Event::TransportFailed) => Phase::Finished {
            outcome: Outcome::Failure { kind: ErrorKind::Network },
        },
        (Phase::Streaming, Event::BodyDone { bytes }) => Phase::Writing { bytes },
        (Phase::Streaming, Event::BodyFailed) => Phase::Finished {
            outcome: Outcome::Failure { kind: ErrorKind::Network },
        },
        (Phase::Decoding, Event::TextDone) => Phase::Finished { outcome: Outcome::Printed },
        (Phase::Decoding, Event::TextFailed) => Phase::Finished {
            outcome: Outcome::Failure { kind: ErrorKind::Network },
        },
        (Phase::Writing { bytes }, Event::WriteDone) => Phase::Finished {
            outcome: Outcome::Saved { bytes },
        },
        (Phase::Writing { .. }, Event::WriteFailed) => Phase::Finished {
            outcome: Outcome::Failure { kind: ErrorKind::Storage },
        },
        (p, _) => p,
    }
}

/// One run of the pipeline: the chosen mode and the current phase.
pub struct Pipeline {
    pub mode: Mode,
    pub phase: Phase,
}

impl Pipeline {
    /// Starts a run. A malformed URL fails fast with `InvalidInput`,
    /// before any request is made.
    pub fn new(mode: Mode, url: &str) -> (r: Pipeline)
        ensures
            r.mode == mode,
            is_absolute_url(url@) ==> r.phase == Phase::Fetching,
            !is_absolute_url(url@) ==> r.phase == (Phase::Finished {
                outcome: Outcome::Failure { kind: ErrorKind::InvalidInput },
            }),
    {
        match check_url(url) {
            Ok(()) => Pipeline { mode, phase: Phase::Fetching },
            Err(kind) => Pipeline {
                mode,
                phase: Phase::Finished { outcome: Outcome::Failure { kind } },
            },
        }
    }

    /// Takes one transition of the table for the reported event.
    pub fn step(&mut self, event: Event)
        ensures
            final(self).mode == old(self).mode,
            final(self).phase == next_phase(old(self).mode, old(self).phase, event),
    {
        let next = match (self.phase, event) {
            (Phase::Fetching, Event::Response { status }) => if !crate::outcome::status_is_success(
                status,
            ) {
                Phase::Finished { outcome: Outcome::Failure { kind: ErrorKind::RequestFailed } }
            } else if matches!(self.mode, Mode::Save) {
                Phase::Streaming
            } else {
                Phase::Decoding
            },
            (Phase::Fetching, Event::TransportFailed) => Phase::Finished {
                outcome: Outcome::Failure { kind: ErrorKind::Network },
            },
            (Phase::Streaming, Event::BodyDone { bytes }) => Phase::Writing { bytes },
            (Phase::Streaming, Event::BodyFailed) => Phase::Finished {
                outcome: Outcome::Failure { kind: ErrorKind::Network },
            },
            (Phase::Decoding, Event::TextDone) => Phase::Finished { outcome: Outcome::Printed },
            (Phase::Decoding, Event::TextFailed) => Phase::Finished {
                outcome: Outcome::Failure { kind: ErrorKind::Network },
            },
            (Phase::Writing { bytes }, Event::WriteDone) => Phase::Finished {
                outcome: Outcome::Saved { bytes },
            },
            (Phase::Writing { .. }, Event::WriteFailed) => Phase::Finished {
                outcome: Outcome::Failure { kind: ErrorKind::Storage },
            },
            (p, _) => p,
        };
        self.phase = next;
    }

    /// True on a terminal phase.
    pub fn is_finished(&self) -> (r: bool)
        ensures
            r == (self.phase is Finished),
    {
        matches!(self.phase, Phase::Finished { .. })
    }
}

/// A non-2xx response terminates the run as `RequestFailed`, in either
/// mode; its body is never streamed, decoded or written.
pub proof fn lemma_non_success_response_fails(mode: Mode, status: u16)
    requires
        !is_success_code(status),
    ensures
        next_phase(mode, Phase::Fetching, Event::Response { status }) == (Phase::Finished {
            outcome: Outcome::Failure { kind: ErrorKind::RequestFailed },
        }),
{
}

/// A transport failure before any response terminates the run as
/// `Network`, in either mode.
pub proof fn lemma_transport_failure_fails(mode: Mode)
    ensures
        next_phase(mode, Phase::Fetching, Event::TransportFailed) == (Phase::Finished {
            outcome: Outcome::Failure { kind: ErrorKind::Network },
        }),
{
}

/// A connection dropped mid-stream discards the partial body: the run
/// terminates as `Network` and the writing phase is never entered.
pub proof fn lemma_body_failure_aborts(mode: Mode)
    ensures
        next_phase(mode, Phase::Streaming, Event::BodyFailed) == (Phase::Finished {
            outcome: Outcome::Failure { kind: ErrorKind::Network },
        }),
{
}

/// The streaming phase is entered only in save mode, from a fetch that
/// answered with a 2xx status.
pub proof fn lemma_streaming_needs_success(mode: Mode, phase: Phase, event: Event)
    requires
        next_phase(mode, phase, event) is Streaming,
        !(phase is Streaming),
    ensures
        mode is Save,
        phase is Fetching,
        event matches Event::Response { status } && is_success_code(status),
{
}

/// The writing phase is entered only from a stream that delivered its
/// whole body, and records exactly the collected byte count.
pub proof fn lemma_write_needs_full_body(mode: Mode, phase: Phase, event: Event)
    requires
        next_phase(mode, phase, event) is Writing,
        !(phase is Writing),
    ensures
        phase is Streaming,
        event matches Event::BodyDone { bytes } && next_phase(mode, phase, event)
            == (Phase::Writing { bytes }),
{
}

/// A finished run is terminal: no further event changes its outcome.
pub proof fn lemma_finished_is_terminal(mode: Mode, outcome: Outcome, event: Event)
    ensures
        next_phase(mode, Phase::Finished { outcome }, event) == (Phase::Finished { outcome }),
{
}

/// The successful save-mode run: a 2xx response streams, a body of
/// `bytes` bytes moves to writing, and a completed write ends in
/// `Saved { bytes }`.
pub proof fn lemma_save_success_path(status: u16, bytes: usize)
    requires
        is_success_code(status),
    ensures
        next_phase(Mode::Save, Phase::Fetching, Event::Response { status }) == Phase::Streaming,
        next_phase(Mode::Save, Phase::Streaming, Event::BodyDone { bytes }) == (Phase::Writing {
            bytes,
        }),
        next_phase(Mode::Save, Phase::Writing { bytes }, Event::WriteDone) == (Phase::Finished {
            outcome: Outcome::Saved { bytes },
        }),
{
}

/// The successful print-mode run: a 2xx response decodes, and a printed
/// body ends in `Printed`.
pub proof fn lemma_print_success_path(status: u16)
    requires
        is_success_code(status),
    ensures
        next_phase(Mode::Print, Phase::Fetching, Event::Response { status }) == Phase::Decoding,
        next_phase(Mode::Print, Phase::Decoding, Event::TextDone) == (Phase::Finished {
            outcome: Outcome::Printed,
        }),
{
}

} // verus!
