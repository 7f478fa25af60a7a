//! Setting a session up, exchange by exchange.
//!
//! The sensor must accept the password and then report its parameters. The
//! second exchange is asked for only after the first reply was accepted, and a
//! failure ends the handshake: the machine is used up and no session exists.

use crate::codec::viewed;
use crate::command::{
    request, Command, Error, Exchange, Progress, ProgressView, Reply, ReplyView, READSYSPARAM,
    VERIFYPASSWORD,
};
use crate::device::{construct, Device, Session};
use vstd::prelude::*;

verus! {

/// A handshake under way.
#[derive(Debug)]
pub struct Handshake {
    device: Device,
    verified: bool,
}

/// A [`Handshake`] as contracts see it.
pub struct HandshakeView {
    /// The session that is being set up.
    pub session: Session,
    /// Whether the sensor has accepted the password.
    pub verified: bool,
}

impl View for Handshake {
    type V = HandshakeView;

    closed spec fn view(&self) -> HandshakeView {
        HandshakeView { session: self.device@, verified: self.verified }
    }
}

impl HandshakeView {
    /// The handshake that has exchanged nothing yet.
    pub open spec fn initial(address: Seq<u8>, password: Seq<u8>, strict: bool) -> HandshakeView {
        HandshakeView { session: Session::initial(address, password, strict), verified: false }
    }

    /// What the next reply leads to.
    ///
    /// Before the password is accepted the reply answers `VerifyPassword`: a
    /// status of `OK` asks for the `ReadSysParam` exchange, any other status is
    /// `HandshakeFailed`. After that the reply answers `ReadSysParam`, and a
    /// status of `OK` completes the session. A reply that did not arrive or is
    /// no acceptable frame fails with its own error.
    pub open spec fn step(self, reply: ReplyView) -> Result<
        ProgressView<HandshakeView, Session>,
        Error,
    > {
        if !self.verified {
            match self.session.password_accepted(reply) {
                Err(e) => Err(e),
                Ok(()) => Ok(
                    ProgressView::Continue {
                        machine: HandshakeView { session: self.session, verified: true },
                        exchange: request(
                            self.session.address,
                            Command::ReadSysParam,
                            seq![READSYSPARAM],
                        ),
                        pause: false,
                    },
                ),
            }
        } else {
            match self.session.configured(reply) {
                Err(e) => Err(e),
                Ok(session) => Ok(ProgressView::Done(session)),
            }
        }
    }
}

impl Handshake {
    /// Begins the handshake with the sensor at `address`: the exchange to
    /// perform first is `VerifyPassword` with `password`.
    pub fn start(address: [u8; 4], password: [u8; 4], strict: bool) -> (r: (Handshake, Exchange))
        ensures
            r.0@ == HandshakeView::initial(address@, password@, strict),
            r.1@ == request(address@, Command::VerifyPassword, seq![VERIFYPASSWORD] + password@),
    {
        let device = Device::unconfigured(address, password, strict);
        let exchange = device.verify_password();
        (Handshake { device, verified: false }, exchange)
    }

    /// Takes the reply to the exchange that was asked for last.
    pub fn advance(self, reply: &Reply) -> (r: Result<Progress<Handshake, Device>, Error>)
        ensures
            viewed(r) == self@.step(reply@),
    {
        let mut device = self.device;
        if !self.verified {
            match device.accept_password(reply) {
                Err(e) => Err(e),
                Ok(()) => {
                    let exchange = device.read_sysparam();
                    Ok(
                        Progress::Continue {
                            machine: Handshake { device, verified: true },
                            exchange,
                            pause: false,
                        },
                    )
                },
            }
        } else {
            match device.receive(Command::ReadSysParam, reply) {
                Err(e) => Err(e),
                Ok(_) => Ok(Progress::Done(device)),
            }
        }
    }
}

/// The handshake and the constructor agree. Whatever the two replies are,
/// taking them one after the other through the handshake ends as
/// [`construct`] says: with the same session or with the same error, and the
/// second exchange is asked for exactly when the first reply was accepted.
pub proof fn law_handshake_constructs(
    address: Seq<u8>,
    password: Seq<u8>,
    strict: bool,
    verify_reply: ReplyView,
    sysparam_reply: ReplyView,
)
    ensures
        match HandshakeView::initial(address, password, strict).step(verify_reply) {
            Err(e) => construct(address, password, strict, verify_reply, sysparam_reply) == Err::<
                Session,
                Error,
            >(e),
            Ok(ProgressView::Done(_)) => false,
            Ok(ProgressView::Continue { machine, exchange, pause }) => {
                &&& exchange == request(address, Command::ReadSysParam, seq![READSYSPARAM])
                &&& !pause
                &&& match machine.step(sysparam_reply) {
                    Err(e) => construct(address, password, strict, verify_reply, sysparam_reply)
                        == Err::<Session, Error>(e),
                    Ok(ProgressView::Done(session)) => construct(
                        address,
                        password,
                        strict,
                        verify_reply,
                        sysparam_reply,
                    ) == Ok::<Session, Error>(session),
                    Ok(ProgressView::Continue { .. }) => false,
                }
            },
        },
{
}

} // verus!
