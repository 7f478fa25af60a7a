//! Enrolling a finger at a library location: two captures of the same finger,
//! with the finger lifted in between, are merged into a model and stored.
//!
//! The machine takes one reply at a time and answers with the next exchange,
//! completion, or the error that ends the sequence. Each step uses the machine
//! up, so a sequence that was aborted can issue nothing more: a model that
//! could not be created is never stored. Every wait, for a finger or for its
//! removal, is bounded by the same number of retries.

use crate::codec::viewed;
use crate::command::{
    request, Command, Error, Exchange, ExchangeView, Progress, ProgressView, Reply, ReplyView,
    GETIMAGE, IMAGE2TZ, OK, REGMODEL, STORE,
};
use crate::device::{Device, Session};
use crate::poll::{
    capture_verdict, capture_verdict_spec, go_on, removal_verdict, removal_verdict_spec,
    require_ok, require_ok_spec, Verdict,
};
use crate::wire::{high_byte, low_byte};
use vstd::prelude::*;

verus! {

/// Where an enrollment stands: which reply it waits for.
#[derive(Clone, Copy, Debug, PartialEq, Eq)]
pub enum EnrollStage {
    /// `GetImage`, repeated until the finger is there for the first time.
    FirstCapture,
    /// `Image2Tz` into buffer 1.
    FirstExtract,
    /// `GetImage`, repeated until the finger has been lifted.
    Removal,
    /// `GetImage`, repeated until the finger is there again.
    SecondCapture,
    /// `Image2Tz` into buffer 2.
    SecondExtract,
    /// `CreateModel`.
    Create,
    /// `StoreModel` from buffer 1.
    Store,
}

/// An enrollment under way.
#[derive(Clone, Copy, Debug, PartialEq, Eq)]
pub struct Enroll {
    pub stage: EnrollStage,
    /// The library location that takes the model.
    pub location: u16,
    /// How many times each wait may repeat `GetImage`.
    pub max_retries: u32,
    /// How many more times the current wait may repeat `GetImage`.
    pub retries_left: u32,
}

impl View for Enroll {
    type V = Enroll;

    open spec fn view(&self) -> Enroll {
        *self
    }
}

impl Enroll {
    /// The machine at `stage` with a full set of retries.
    pub open spec fn at(self, stage: EnrollStage) -> Enroll {
        Enroll { stage, retries_left: self.max_retries, ..self }
    }

    /// The machine that repeats its poll with one retry less.
    pub open spec fn retrying(self) -> Enroll {
        Enroll { retries_left: (self.retries_left - 1) as u32, ..self }
    }

    /// The buffer that takes the features of the capture at `stage`.
    pub open spec fn slot(stage: EnrollStage) -> u8 {
        if stage == EnrollStage::FirstCapture || stage == EnrollStage::FirstExtract {
            1
        } else {
            2
        }
    }

    /// The `GetImage` exchange on `session`.
    pub open spec fn poll(session: Session) -> ExchangeView {
        request(session.address, Command::GetImage, seq![GETIMAGE])
    }

    /// The command whose reply the machine waits for at `stage`.
    pub open spec fn awaited(stage: EnrollStage) -> Command {
        match stage {
            EnrollStage::FirstCapture | EnrollStage::Removal | EnrollStage::SecondCapture =>
                Command::GetImage,
            EnrollStage::FirstExtract | EnrollStage::SecondExtract => Command::Image2Tz,
            EnrollStage::Create => Command::CreateModel,
            EnrollStage::Store => Command::StoreModel,
        }
    }

    /// What follows the status `status` of the awaited reply, on the session
    /// `after` that the reply has left.
    ///
    /// - The captures: `OK` leads to `Image2Tz` into buffer 1 or 2; `NOFINGER`
    ///   repeats `GetImage` after a pause, or fails with `PollTimeout` when no
    ///   retry is left; any other status fails.
    /// - The first extraction: `OK` leads to the wait for the finger to be
    ///   lifted, which begins after a pause. The second: `OK` leads to
    ///   `CreateModel`.
    /// - The removal: `NOFINGER` leads to the second capture; any other status
    ///   repeats `GetImage` after a pause, or fails with `PollTimeout`.
    /// - `CreateModel`: `OK` leads to `StoreModel` from buffer 1 to the
    ///   location. Any other status, that of a mismatch among them, fails.
    /// - `StoreModel`: `OK` completes the enrollment.
    ///
    /// A status that a step does not accept fails with `CommandFailed`, which
    /// names the step by its opcode.
    pub open spec fn decide(self, after: Session, status: u8) -> Result<
        ProgressView<Enroll, ()>,
        Error,
    > {
        match self.stage {
            EnrollStage::FirstCapture | EnrollStage::SecondCapture => match capture_verdict_spec(
                status,
                self.retries_left,
            ) {
                Verdict::Abort(e) => Err(e),
                Verdict::Retry => go_on(self.retrying(), Self::poll(after), true),
                Verdict::Proceed => go_on(
                    self.at(
                        if self.stage == EnrollStage::FirstCapture {
                            EnrollStage::FirstExtract
                        } else {
                            EnrollStage::SecondExtract
                        },
                    ),
                    request(
                        after.address,
                        Command::Image2Tz,
                        seq![IMAGE2TZ, Self::slot(self.stage)],
                    ),
                    false,
                ),
            },
            EnrollStage::FirstExtract => match require_ok_spec(IMAGE2TZ, status) {
                Err(e) => Err(e),
                Ok(()) => go_on(self.at(EnrollStage::Removal), Self::poll(after), true),
            },
            EnrollStage::Removal => match removal_verdict_spec(status, self.retries_left) {
                Verdict::Abort(e) => Err(e),
                Verdict::Retry => go_on(self.retrying(), Self::poll(after), true),
                Verdict::Proceed => go_on(
                    self.at(EnrollStage::SecondCapture),
                    Self::poll(after),
                    true,
                ),
            },
            EnrollStage::SecondExtract => match require_ok_spec(IMAGE2TZ, status) {
                Err(e) => Err(e),
                Ok(()) => go_on(
                    self.at(EnrollStage::Create),
                    request(after.address, Command::CreateModel, seq![REGMODEL]),
                    false,
                ),
            },
            EnrollStage::Create => match require_ok_spec(REGMODEL, status) {
                Err(e) => Err(e),
                Ok(()) => go_on(
                    self.at(EnrollStage::Store),
                    request(
                        after.address,
                        Command::StoreModel,
                        seq![
                            STORE,
                            1u8,
                            high_byte(self.location as int),
                            low_byte(self.location as int),
                        ],
                    ),
                    false,
                ),
            },
            EnrollStage::Store => match require_ok_spec(STORE, status) {
                Err(e) => Err(e),
                Ok(()) => Ok(ProgressView::Done(())),
            },
        }
    }

    /// What the next reply does to the session, and what follows: the reply
    /// answers the command that the stage waits for, and its status decides. A
    /// reply that did not arrive or is no acceptable frame fails with its own
    /// error.
    pub open spec fn step(self, session: Session, reply: ReplyView) -> (
        Session,
        Result<ProgressView<Enroll, ()>, Error>,
    ) {
        let (after, r) = session.receive(Self::awaited(self.stage), reply);
        (
            after,
            match r {
                Err(e) => Err(e),
                Ok(status) => self.decide(after, status),
            },
        )
    }

    /// Begins an enrollment at `location`: the exchange to perform first is
    /// `GetImage`. Each wait may repeat it `max_retries` times.
    pub fn start(device: &Device, location: u16, max_retries: u32) -> (r: (Enroll, Exchange))
        ensures
            r.0 == (Enroll {
                stage: EnrollStage::FirstCapture,
                location,
                max_retries,
                retries_left: max_retries,
            }),
            r.1@ == Self::poll(device@),
    {
        (
            Enroll {
                stage: EnrollStage::FirstCapture,
                location,
                max_retries,
                retries_left: max_retries,
            },
            device.get_image(),
        )
    }

    /// The command whose reply the machine waits for.
    pub fn awaits(&self) -> (command: Command)
        ensures
            command == Self::awaited(self.stage),
    {
        match self.stage {
            EnrollStage::FirstCapture | EnrollStage::Removal | EnrollStage::SecondCapture =>
                Command::GetImage,
            EnrollStage::FirstExtract | EnrollStage::SecondExtract => Command::Image2Tz,
            EnrollStage::Create => Command::CreateModel,
            EnrollStage::Store => Command::StoreModel,
        }
    }

    /// The machine at `stage` with a full set of retries, and the exchange it
    /// waits for.
    fn proceed(self, stage: EnrollStage, exchange: Exchange, pause: bool) -> (r: Result<
        Progress<Enroll, ()>,
        Error,
    >)
        ensures
            viewed(r) == go_on::<Enroll, ()>(self.at(stage), exchange@, pause),
    {
        Ok(
            Progress::Continue {
                machine: Enroll {
                    stage,
                    location: self.location,
                    max_retries: self.max_retries,
                    retries_left: self.max_retries,
                },
                exchange,
                pause,
            },
        )
    }

    /// The machine that repeats `GetImage` with one retry less.
    fn retry(self, device: &Device) -> (r: Result<Progress<Enroll, ()>, Error>)
        requires
            self.retries_left > 0,
        ensures
            viewed(r) == go_on::<Enroll, ()>(self.retrying(), Self::poll(device@), true),
    {
        Ok(
            Progress::Continue {
                machine: Enroll {
                    stage: self.stage,
                    location: self.location,
                    max_retries: self.max_retries,
                    retries_left: self.retries_left - 1,
                },
                exchange: device.get_image(),
                pause: true,
            },
        )
    }

    /// Takes the reply to the exchange that was asked for last.
    pub fn advance(self, device: &mut Device, reply: &Reply) -> (r: Result<
        Progress<Enroll, ()>,
        Error,
    >)
        ensures
            (final(device)@, viewed(r)) == self.step(old(device)@, reply@),
    {
        let status: u8 = match device.receive(self.awaits(), reply) {
            Err(e) => {
                return Err(e);
            },
            Ok(status) => status,
        };
        match self.stage {
            EnrollStage::FirstCapture => match capture_verdict(status, self.retries_left) {
                Verdict::Abort(e) => Err(e),
                Verdict::Retry => self.retry(device),
                Verdict::Proceed => self.proceed(
                    EnrollStage::FirstExtract,
                    device.image_2_tz(1),
                    false,
                ),
            },
            EnrollStage::SecondCapture => match capture_verdict(status, self.retries_left) {
                Verdict::Abort(e) => Err(e),
                Verdict::Retry => self.retry(device),
                Verdict::Proceed => self.proceed(
                    EnrollStage::SecondExtract,
                    device.image_2_tz(2),
                    false,
                ),
            },
            EnrollStage::FirstExtract => match require_ok(IMAGE2TZ, status) {
                Err(e) => Err(e),
                Ok(()) => self.proceed(EnrollStage::Removal, device.get_image(), true),
            },
            EnrollStage::Removal => match removal_verdict(status, self.retries_left) {
                Verdict::Abort(e) => Err(e),
                Verdict::Retry => self.retry(device),
                Verdict::Proceed => self.proceed(
                    EnrollStage::SecondCapture,
                    device.get_image(),
                    true,
                ),
            },
            EnrollStage::SecondExtract => match require_ok(IMAGE2TZ, status) {
                Err(e) => Err(e),
                Ok(()) => self.proceed(EnrollStage::Create, device.create_model(), false),
            },
            EnrollStage::Create => match require_ok(REGMODEL, status) {
                Err(e) => Err(e),
                Ok(()) => self.proceed(
                    EnrollStage::Store,
                    device.store_model(self.location, 1),
                    false,
                ),
            },
            EnrollStage::Store => match require_ok(STORE, status) {
                Err(e) => Err(e),
                Ok(()) => Ok(Progress::Done(())),
            },
        }
    }
}

impl Enroll {
    /// An upper bound on the exchanges that the enrollment can still ask for,
    /// the one it waits for included.
    pub open spec fn budget(self) -> nat {
        let max = self.max_retries as nat;
        let left = self.retries_left as nat;
        match self.stage {
            EnrollStage::FirstCapture => left + 2 * max + 7,
            EnrollStage::FirstExtract => 2 * max + 6,
            EnrollStage::Removal => left + max + 5,
            EnrollStage::SecondCapture => left + 4,
            EnrollStage::SecondExtract => 3,
            EnrollStage::Create => 2,
            EnrollStage::Store => 1,
        }
    }
}

/// No model, no store. An enrollment asks for the `StoreModel` exchange in one
/// case only: it waited for the reply to `CreateModel`, and that reply was
/// accepted with the status `OK`. The exchange then stores buffer 1 at the
/// location the enrollment was started with.
pub proof fn law_store_needs_created_model(machine: Enroll, session: Session, reply: ReplyView)
    ensures
        match machine.step(session, reply).1 {
            Ok(ProgressView::Continue { exchange, .. }) => exchange.command == Command::StoreModel
                ==> {
                &&& machine.stage == EnrollStage::Create
                &&& session.receive(Command::CreateModel, reply).1 == Ok::<u8, Error>(OK)
                &&& exchange == request(
                    machine.step(session, reply).0.address,
                    Command::StoreModel,
                    seq![
                        STORE,
                        1u8,
                        high_byte(machine.location as int),
                        low_byte(machine.location as int),
                    ],
                )
            },
            _ => true,
        },
        machine.stage == EnrollStage::Create ==> match session.receive(
            Command::CreateModel,
            reply,
        ).1 {
            Ok(status) => status != OK ==> machine.step(session, reply).1 == Err::<
                ProgressView<Enroll, ()>,
                Error,
            >(Error::CommandFailed { opcode: REGMODEL, status }),
            Err(e) => machine.step(session, reply).1 == Err::<ProgressView<Enroll, ()>, Error>(e),
        },
{
}

/// Enrollment is bounded. Every step that goes on leaves a machine with a
/// smaller budget, so an enrollment with `max_retries` retries per wait asks
/// for at most `3 * max_retries + 7` exchanges before it completes or fails.
pub proof fn law_enroll_bounded(machine: Enroll, session: Session, reply: ReplyView)
    ensures
        match machine.step(session, reply).1 {
            Ok(ProgressView::Continue { machine: next, .. }) => {
                &&& next.budget() < machine.budget()
                &&& next.max_retries == machine.max_retries
                &&& next.location == machine.location
            },
            _ => true,
        },
        machine.stage == EnrollStage::FirstCapture && machine.retries_left == machine.max_retries
            ==> machine.budget() == 3 * machine.max_retries + 7,
{
}

} // verus!
