//! The vocabulary of the protocol: status bytes, opcodes, the commands with
//! the size of their replies, and what one exchange with the sensor consists of.

use crate::codec::{frame, ProtocolError, COMMANDPACKET};
use vstd::prelude::*;

verus! {

/// Status: the command was carried out.
pub const OK: u8 = 0x00;

/// Status of `GetImage`: no finger is on the sensor. Expected while polling.
pub const NOFINGER: u8 = 0x02;

/// Status of `GetImage`: the image could not be taken.
pub const IMAGEFAIL: u8 = 0x03;

/// Status of `Image2Tz`: the image is too messy.
pub const IMAGEMESS: u8 = 0x06;

/// Status of `Image2Tz`: too few features could be extracted.
pub const FEATUREFAIL: u8 = 0x07;

/// Status of `CreateModel`: the two captures do not belong together.
pub const ENROLLMISMATCH: u8 = 0x0A;

/// Status of `StoreModel`: the location is outside the library.
pub const BADLOCATION: u8 = 0x0B;

/// Status of `Image2Tz`: the image buffer holds no valid image.
pub const INVALIDIMAGE: u8 = 0x15;

/// Status of `StoreModel`: writing to flash failed.
pub const FLASHERR: u8 = 0x18;

/// Opcode of `VerifyPassword`.
pub const VERIFYPASSWORD: u8 = 0x13;

/// Opcode of `TemplateCount`.
pub const TEMPLATECOUNT: u8 = 0x1D;

/// Opcode of `ReadSysParam`.
pub const READSYSPARAM: u8 = 0x0F;

/// Opcode of `GetImage`.
pub const GETIMAGE: u8 = 0x01;

/// Opcode of `Image2Tz`.
pub const IMAGE2TZ: u8 = 0x02;

/// Opcode of `FingerSearch`.
pub const FINGERPRINTSEARCH: u8 = 0x04;

/// Opcode of `FingerFastSearch`.
pub const HISPEEDSEARCH: u8 = 0x1B;

/// Opcode of `CreateModel`.
pub const REGMODEL: u8 = 0x05;

/// Opcode of `StoreModel`.
pub const STORE: u8 = 0x06;

/// Opcode of `DeleteModel`.
pub const DELETE: u8 = 0x0C;

/// Everything that can go wrong between a command and its result.
#[derive(Clone, Copy, Debug, PartialEq, Eq)]
pub enum Error {
    /// The byte stream failed or timed out during the exchange.
    Transport,
    /// The reply is not an acceptable frame, or is too short for its command.
    Protocol(ProtocolError),
    /// The sensor did not accept the password while the session was set up.
    HandshakeFailed,
    /// The sensor refused to report its parameters.
    SysParamReadFailed,
    /// A search was asked for before the size of the library was known.
    LibrarySizeUnknown,
    /// The sensor answered the command `opcode` with a `status` other than `OK`.
    CommandFailed { opcode: u8, status: u8 },
    /// A poll for a finger, or for its removal, used up its retries.
    PollTimeout,
}

/// The primitives of the sensor.
#[derive(Clone, Copy, Debug, PartialEq, Eq)]
pub enum Command {
    VerifyPassword,
    ReadSysParam,
    TemplateCount,
    GetImage,
    Image2Tz,
    FingerSearch,
    FingerFastSearch,
    CreateModel,
    StoreModel,
    DeleteModel,
}

impl Command {
    /// The first payload byte of the command's request.
    pub open spec fn opcode_spec(self) -> u8 {
        match self {
            Command::VerifyPassword => VERIFYPASSWORD,
            Command::ReadSysParam => READSYSPARAM,
            Command::TemplateCount => TEMPLATECOUNT,
            Command::GetImage => GETIMAGE,
            Command::Image2Tz => IMAGE2TZ,
            Command::FingerSearch => FINGERPRINTSEARCH,
            Command::FingerFastSearch => HISPEEDSEARCH,
            Command::CreateModel => REGMODEL,
            Command::StoreModel => STORE,
            Command::DeleteModel => DELETE,
        }
    }

    /// The size in bytes of the reply's payload: the status byte and the
    /// fields that the command reports behind it.
    pub open spec fn payload_len_spec(self) -> usize {
        match self {
            Command::ReadSysParam => 17,
            Command::TemplateCount => 3,
            Command::FingerSearch => 5,
            Command::FingerFastSearch => 5,
            _ => 1,
        }
    }

    /// The size in bytes of the whole reply frame, which is fixed per command:
    /// nine bytes of header, the payload, two bytes of checksum.
    pub open spec fn reply_len_spec(self) -> usize {
        (self.payload_len_spec() + 11) as usize
    }

    /// The first payload byte of the command's request.
    #[verifier::when_used_as_spec(opcode_spec)]
    pub fn opcode(self) -> (code: u8)
        ensures
            code == self.opcode_spec(),
    {
        match self {
            Command::VerifyPassword => VERIFYPASSWORD,
            Command::ReadSysParam => READSYSPARAM,
            Command::TemplateCount => TEMPLATECOUNT,
            Command::GetImage => GETIMAGE,
            Command::Image2Tz => IMAGE2TZ,
            Command::FingerSearch => FINGERPRINTSEARCH,
            Command::FingerFastSearch => HISPEEDSEARCH,
            Command::CreateModel => REGMODEL,
            Command::StoreModel => STORE,
            Command::DeleteModel => DELETE,
        }
    }

    /// The size in bytes of the reply's payload: 17 for `ReadSysParam`, 3 for
    /// `TemplateCount`, 5 for the searches, 1 for every other command.
    #[verifier::when_used_as_spec(payload_len_spec)]
    pub fn payload_len(self) -> (len: usize)
        ensures
            len == self.payload_len_spec(),
    {
        match self {
            Command::ReadSysParam => 17,
            Command::TemplateCount => 3,
            Command::FingerSearch => 5,
            Command::FingerFastSearch => 5,
            _ => 1,
        }
    }

    /// The size in bytes of the whole reply frame, which is fixed per command:
    /// 28 for `ReadSysParam`, 14 for `TemplateCount`, 16 for the searches, 12
    /// for every other command.
    #[verifier::when_used_as_spec(reply_len_spec)]
    pub fn reply_len(self) -> (len: usize)
        ensures
            len == self.reply_len_spec(),
            len == 12 || len == 14 || len == 16 || len == 28,
    {
        self.payload_len() + 11
    }
}

/// One exchange with the sensor: write `frame`, then read exactly `reply_len`
/// bytes. The reply belongs to `command`.
#[derive(Debug, PartialEq, Eq)]
pub struct Exchange {
    pub command: Command,
    pub frame: Vec<u8>,
    pub reply_len: usize,
}

/// An [`Exchange`] with its frame as a sequence.
pub struct ExchangeView {
    pub command: Command,
    pub frame: Seq<u8>,
    pub reply_len: usize,
}

impl View for Exchange {
    type V = ExchangeView;

    open spec fn view(&self) -> ExchangeView {
        ExchangeView { command: self.command, frame: self.frame@, reply_len: self.reply_len }
    }
}

/// The exchange that puts `command` with the request bytes `payload` to the
/// sensor at `address`.
pub open spec fn request(address: Seq<u8>, command: Command, payload: Seq<u8>) -> ExchangeView {
    ExchangeView {
        command,
        frame: frame(address, COMMANDPACKET, payload),
        reply_len: command.reply_len_spec(),
    }
}

/// What came back from an exchange.
#[derive(Debug, PartialEq, Eq)]
pub enum Reply {
    /// The bytes that were read.
    Received(Vec<u8>),
    /// Writing the frame or reading the reply failed, or the read timed out.
    TransportFailed,
}

/// A [`Reply`] with its bytes as a sequence.
pub enum ReplyView {
    Received(Seq<u8>),
    TransportFailed,
}

impl View for Reply {
    type V = ReplyView;

    open spec fn view(&self) -> ReplyView {
        match self {
            Reply::Received(bytes) => ReplyView::Received(bytes@),
            Reply::TransportFailed => ReplyView::TransportFailed,
        }
    }
}

/// What a step of a multi-exchange operation asks for next.
#[derive(Debug)]
pub enum Progress<M, T> {
    /// Perform `exchange`, after waiting one poll interval if `pause` is set,
    /// and hand the reply to `machine`.
    Continue { machine: M, exchange: Exchange, pause: bool },
    /// The operation is complete.
    Done(T),
}

/// A [`Progress`] over views.
pub enum ProgressView<M, T> {
    Continue { machine: M, exchange: ExchangeView, pause: bool },
    Done(T),
}

impl<M: View, T: View> View for Progress<M, T> {
    type V = ProgressView<M::V, T::V>;

    open spec fn view(&self) -> ProgressView<M::V, T::V> {
        match self {
            Progress::Continue { machine, exchange, pause } => ProgressView::Continue {
                machine: machine@,
                exchange: exchange@,
                pause: *pause,
            },
            Progress::Done(value) => ProgressView::Done(value@),
        }
    }
}

} // verus!
