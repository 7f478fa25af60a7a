//! Identifying the finger on the sensor: capture an image, extract its
//! features, search the library.
//!
//! The machine takes one reply at a time and answers with the next exchange,
//! the match, or the error that ends the sequence. Each step uses the machine
//! up, so nothing can be asked of one that has failed. The wait for a finger
//! is bounded: `GetImage` is repeated a fixed number of times, with a pause
//! before each repeat.

use crate::codec::viewed;
use crate::command::{
    request, Command, Error, Exchange, Progress, ProgressView, Reply, ReplyView,
    FINGERPRINTSEARCH, GETIMAGE, IMAGE2TZ, NOFINGER, OK,
};
use crate::device::{Device, Session};
use crate::poll::{
    capture_verdict, capture_verdict_spec, go_on, require_ok, require_ok_spec, Verdict,
};
use vstd::prelude::*;

verus! {

/// Where an identification stands: which reply it waits for.
#[derive(Clone, Copy, Debug, PartialEq, Eq)]
pub enum IdentifyStage {
    /// `GetImage`, repeated until a finger is there.
    Capture,
    /// `Image2Tz` into buffer 1.
    Extract,
    /// `FingerSearch`.
    Search,
}

/// An identification under way.
#[derive(Clone, Copy, Debug, PartialEq, Eq)]
pub struct Identify {
    pub stage: IdentifyStage,
    /// How many more times `GetImage` may be repeated.
    pub retries_left: u32,
}

/// The template that a search found.
#[derive(Clone, Copy, Debug, PartialEq, Eq)]
pub struct Match {
    pub finger_id: u16,
    pub confidence: u16,
}

impl View for Identify {
    type V = Identify;

    open spec fn view(&self) -> Identify {
        *self
    }
}

impl View for Match {
    type V = Match;

    open spec fn view(&self) -> Match {
        *self
    }
}

impl Identify {
    /// What the next reply does to the session, and what follows.
    ///
    /// - `Capture`: the reply answers `GetImage`. `OK` leads to `Image2Tz`
    ///   into buffer 1; `NOFINGER` repeats `GetImage` after a pause, or fails
    ///   with `PollTimeout` when no retry is left; any other status fails.
    /// - `Extract`: the reply answers `Image2Tz`. `OK` leads to `FingerSearch`
    ///   over the whole library.
    /// - `Search`: the reply answers `FingerSearch`. `OK` completes the
    ///   sequence with the finger id and the confidence of the reply.
    ///
    /// A status that a step does not accept fails with `CommandFailed`, which
    /// names the step by its opcode; a reply that did not arrive or is no
    /// acceptable frame fails with its own error.
    pub open spec fn step(self, session: Session, reply: ReplyView) -> (
        Session,
        Result<ProgressView<Identify, Match>, Error>,
    ) {
        match self.stage {
            IdentifyStage::Capture => {
                let (after, r) = session.receive(Command::GetImage, reply);
                (
                    after,
                    match r {
                        Err(e) => Err(e),
                        Ok(status) => match capture_verdict_spec(status, self.retries_left) {
                            Verdict::Abort(e) => Err(e),
                            Verdict::Retry => go_on(
                                Identify {
                                    stage: IdentifyStage::Capture,
                                    retries_left: (self.retries_left - 1) as u32,
                                },
                                request(after.address, Command::GetImage, seq![GETIMAGE]),
                                true,
                            ),
                            Verdict::Proceed => go_on(
                                Identify { stage: IdentifyStage::Extract, ..self },
                                request(after.address, Command::Image2Tz, seq![IMAGE2TZ, 1u8]),
                                false,
                            ),
                        },
                    },
                )
            },
            IdentifyStage::Extract => {
                let (after, r) = session.receive(Command::Image2Tz, reply);
                (
                    after,
                    match r {
                        Err(e) => Err(e),
                        Ok(status) => match require_ok_spec(IMAGE2TZ, status) {
                            Err(e) => Err(e),
                            Ok(()) => match after.search(Command::FingerSearch) {
                                Err(e) => Err(e),
                                Ok(exchange) => go_on(
                                    Identify { stage: IdentifyStage::Search, ..self },
                                    exchange,
                                    false,
                                ),
                            },
                        },
                    },
                )
            },
            IdentifyStage::Search => {
                let (after, r) = session.receive(Command::FingerSearch, reply);
                (
                    after,
                    match r {
                        Err(e) => Err(e),
                        Ok(status) => match require_ok_spec(FINGERPRINTSEARCH, status) {
                            Err(e) => Err(e),
                            Ok(()) => Ok(
                                ProgressView::Done(
                                    Match {
                                        finger_id: after.finger_id,
                                        confidence: after.confidence,
                                    },
                                ),
                            ),
                        },
                    },
                )
            },
        }
    }

    /// Begins an identification: the exchange to perform first is `GetImage`,
    /// which may be repeated `max_retries` times while no finger is there.
    pub fn start(device: &Device, max_retries: u32) -> (r: (Identify, Exchange))
        ensures
            r.0 == (Identify { stage: IdentifyStage::Capture, retries_left: max_retries }),
            r.1@ == request(device@.address, Command::GetImage, seq![GETIMAGE]),
    {
        (Identify { stage: IdentifyStage::Capture, retries_left: max_retries }, device.get_image())
    }

    /// Takes the reply to the exchange that was asked for last.
    pub fn advance(self, device: &mut Device, reply: &Reply) -> (r: Result<
        Progress<Identify, Match>,
        Error,
    >)
        ensures
            (final(device)@, viewed(r)) == self.step(old(device)@, reply@),
    {
        match self.stage {
            IdentifyStage::Capture => {
                let status: u8 = match device.receive(Command::GetImage, reply) {
                    Err(e) => {
                        return Err(e);
                    },
                    Ok(status) => status,
                };
                match capture_verdict(status, self.retries_left) {
                    Verdict::Abort(e) => Err(e),
                    Verdict::Retry => Ok(
                        Progress::Continue {
                            machine: Identify {
                                stage: IdentifyStage::Capture,
                                retries_left: self.retries_left - 1,
                            },
                            exchange: device.get_image(),
                            pause: true,
                        },
                    ),
                    Verdict::Proceed => Ok(
                        Progress::Continue {
                            machine: Identify {
                                stage: IdentifyStage::Extract,
                                retries_left: self.retries_left,
                            },
                            exchange: device.image_2_tz(1),
                            pause: false,
                        },
                    ),
                }
            },
            IdentifyStage::Extract => {
                let status: u8 = match device.receive(Command::Image2Tz, reply) {
                    Err(e) => {
                        return Err(e);
                    },
                    Ok(status) => status,
                };
                match require_ok(IMAGE2TZ, status) {
                    Err(e) => Err(e),
                    Ok(()) => match device.finger_search() {
                        Err(e) => Err(e),
                        Ok(exchange) => Ok(
                            Progress::Continue {
                                machine: Identify {
                                    stage: IdentifyStage::Search,
                                    retries_left: self.retries_left,
                                },
                                exchange,
                                pause: false,
                            },
                        ),
                    },
                }
            },
            IdentifyStage::Search => {
                let status: u8 = match device.receive(Command::FingerSearch, reply) {
                    Err(e) => {
                        return Err(e);
                    },
                    Ok(status) => status,
                };
                match require_ok(FINGERPRINTSEARCH, status) {
                    Err(e) => Err(e),
                    Ok(()) => Ok(
                        Progress::Done(
                            Match {
                                finger_id: device.finger_id(),
                                confidence: device.confidence(),
                            },
                        ),
                    ),
                }
            },
        }
    }
}

impl Identify {
    /// An upper bound on the exchanges that the identification can still ask
    /// for, the one it waits for included.
    pub open spec fn budget(self) -> nat {
        match self.stage {
            IdentifyStage::Capture => self.retries_left as nat + 3,
            IdentifyStage::Extract => 2,
            IdentifyStage::Search => 1,
        }
    }
}

/// Identification is bounded. Every step that goes on leaves a machine with a
/// smaller budget, so an identification with `max_retries` retries asks for at
/// most `max_retries + 3` exchanges before it completes or fails.
pub proof fn law_identify_bounded(machine: Identify, session: Session, reply: ReplyView)
    ensures
        match machine.step(session, reply).1 {
            Ok(ProgressView::Continue { machine: next, .. }) => next.budget() < machine.budget(),
            _ => true,
        },
{
}

/// Features are extracted from a captured image only. An identification asks
/// for the `Image2Tz` exchange in one case only: it waited for the reply to
/// `GetImage`, and that reply was accepted with the status `OK`. While the
/// status is `NOFINGER` and a retry is left, it asks for `GetImage` again.
pub proof fn law_identify_polls(machine: Identify, session: Session, reply: ReplyView)
    ensures
        match machine.step(session, reply).1 {
            Ok(ProgressView::Continue { exchange, .. }) => exchange.command == Command::Image2Tz
                ==> machine.stage == IdentifyStage::Capture && session.receive(
                Command::GetImage,
                reply,
            ).1 == Ok::<u8, Error>(OK),
            _ => true,
        },
        machine.stage == IdentifyStage::Capture && session.receive(Command::GetImage, reply).1
            == Ok::<u8, Error>(NOFINGER) && machine.retries_left > 0 ==> machine.step(
            session,
            reply,
        ).1 == go_on::<Identify, Match>(
            Identify {
                stage: IdentifyStage::Capture,
                retries_left: (machine.retries_left - 1) as u32,
            },
            request(session.address, Command::GetImage, seq![GETIMAGE]),
            true,
        ),
{
}

} // verus!
