//! The session with one sensor: its address and password, the parameters the
//! sensor reported, and the results of the last commands.
//!
//! A command method builds the exchange to perform; [`Device::receive`] folds
//! the reply into the session and returns the status byte the sensor sent,
//! unchanged.

use crate::codec::{
    decode_spec, decode_with, encode, frame, law_round_trip, viewed, ProtocolError, ACKPACKET,
    COMMANDPACKET, MAX_PAYLOAD,
};
use crate::command::{
    request, Command, Error, Exchange, ExchangeView, Progress, ProgressView, Reply, ReplyView,
    DELETE, GETIMAGE, HISPEEDSEARCH, IMAGE2TZ, OK, READSYSPARAM, REGMODEL, STORE, TEMPLATECOUNT,
    VERIFYPASSWORD,
};
use crate::wire::{be16, field_at, high_byte, low_byte, split_u16};
use vstd::prelude::*;

verus! {

/// The parameters a sensor reports about itself.
#[derive(Clone, Copy, Debug, PartialEq, Eq)]
pub struct SysParams {
    pub status_register: u16,
    pub system_id: u16,
    /// How many templates the library can hold.
    pub library_size: u16,
    pub security_level: u16,
    pub data_packet_size: u16,
    pub baudrate: u16,
}

/// The parameters held by the payload `p` of a `ReadSysParam` reply.
pub open spec fn sys_params_of(p: Seq<u8>) -> SysParams {
    SysParams {
        status_register: be16(p[1], p[2]) as u16,
        system_id: be16(p[3], p[4]) as u16,
        library_size: be16(p[5], p[6]) as u16,
        security_level: be16(p[7], p[8]) as u16,
        data_packet_size: be16(p[13], p[14]) as u16,
        baudrate: be16(p[15], p[16]) as u16,
    }
}

/// The request bytes of a search over the whole library of `capacity` templates:
/// the opcode, buffer 1, start page 0, page count `capacity`.
pub open spec fn search_payload_spec(opcode: u8, capacity: u16) -> Seq<u8> {
    seq![opcode, 0x01u8, 0x00u8, 0x00u8, high_byte(capacity as int), low_byte(capacity as int)]
}

/// The state of a session, as contracts see it.
pub struct Session {
    /// Whether replies must carry a correct checksum and a complete payload.
    pub strict: bool,
    /// The address frames are sent to and must come from.
    pub address: Seq<u8>,
    pub password: Seq<u8>,
    /// The sensor's parameters; `None` until they have been read.
    pub params: Option<SysParams>,
    pub template_count: u16,
    pub finger_id: u16,
    pub confidence: u16,
}

impl Session {
    /// A session on which nothing has been exchanged yet.
    pub open spec fn initial(address: Seq<u8>, password: Seq<u8>, strict: bool) -> Session {
        Session {
            strict,
            address,
            password,
            params: None,
            template_count: 0,
            finger_id: 0,
            confidence: 0,
        }
    }

    /// The size of the library, once the parameters have been read.
    pub open spec fn library_size(self) -> Option<u16> {
        match self.params {
            Some(params) => Some(params.library_size),
            None => None,
        }
    }

    /// The payload of a reply that arrived and is an acceptable frame.
    pub open spec fn payload(self, reply: ReplyView) -> Result<Seq<u8>, Error> {
        match reply {
            ReplyView::TransportFailed => Err(Error::Transport),
            ReplyView::Received(bytes) => match decode_spec(bytes, self.address, self.strict) {
                Err(e) => Err(Error::Protocol(e)),
                Ok(p) => Ok(p),
            },
        }
    }

    /// The session with its template count set to `count`.
    pub open spec fn with_count(self, count: u16) -> Session {
        Session { template_count: count, ..self }
    }

    /// The session after a `ReadSysParam` reply with payload `p` was accepted.
    /// The sensor reports its address too, and the session follows it.
    pub open spec fn with_params(self, p: Seq<u8>) -> Session {
        Session { params: Some(sys_params_of(p)), address: p.subrange(9, 13), ..self }
    }

    /// What the payload `p` of a reply to `command` does to the session, and
    /// what the command returns.
    ///
    /// - `ReadSysParam`: a status other than `OK` is `SysParamReadFailed`;
    ///   otherwise the parameters and the address are taken from `p`.
    /// - `TemplateCount`: the count is taken from `p`. On a session that is
    ///   not strict, the count is 0 whenever `p` is too short to hold one. A
    ///   status other than `OK` is `CommandFailed`.
    /// - The searches: finger id and confidence are taken from `p`.
    /// - Every other command leaves the session as it is.
    ///
    /// A payload without a status byte, or too short for its command, is
    /// `TruncatedFrame`. It changes nothing, but for the count that a short
    /// `TemplateCount` payload sets to 0 on a session that is not strict: that
    /// payload is accepted if it holds the status, and is an error if it is
    /// empty.
    pub open spec fn absorb(self, command: Command, p: Seq<u8>) -> (Session, Result<u8, Error>) {
        let truncated = Err::<u8, Error>(Error::Protocol(ProtocolError::TruncatedFrame));
        let short = p.len() < command.payload_len_spec();
        if p.len() == 0 {
            (
                if command == Command::TemplateCount && !self.strict {
                    self.with_count(0)
                } else {
                    self
                },
                truncated,
            )
        } else {
            match command {
                Command::ReadSysParam => if p[0] != OK {
                    (self, Err(Error::SysParamReadFailed))
                } else if short {
                    (self, truncated)
                } else {
                    (self.with_params(p), Ok(p[0]))
                },
                Command::TemplateCount => if short && self.strict {
                    (self, truncated)
                } else {
                    (
                        self.with_count(
                            if short {
                                0u16
                            } else {
                                be16(p[1], p[2]) as u16
                            },
                        ),
                        if p[0] == OK {
                            Ok(p[0])
                        } else {
                            Err(Error::CommandFailed { opcode: TEMPLATECOUNT, status: p[0] })
                        },
                    )
                },
                Command::FingerSearch | Command::FingerFastSearch => if short {
                    (self, truncated)
                } else {
                    (
                        Session {
                            finger_id: be16(p[1], p[2]) as u16,
                            confidence: be16(p[3], p[4]) as u16,
                            ..self
                        },
                        Ok(p[0]),
                    )
                },
                _ => (self, Ok(p[0])),
            }
        }
    }

    /// The session after the reply to `command` came in, and what the command
    /// returns. A reply that did not arrive, or is no acceptable frame, fails
    /// with its own error and changes nothing.
    pub open spec fn receive(self, command: Command, reply: ReplyView) -> (
        Session,
        Result<u8, Error>,
    ) {
        match self.payload(reply) {
            Err(e) => (self, Err(e)),
            Ok(p) => self.absorb(command, p),
        }
    }

    /// Whether the reply to `VerifyPassword` lets the handshake go on: the
    /// status must be `OK`, anything else is `HandshakeFailed`.
    pub open spec fn password_accepted(self, reply: ReplyView) -> Result<(), Error> {
        match self.receive(Command::VerifyPassword, reply).1 {
            Err(e) => Err(e),
            Ok(status) => if status == OK {
                Ok(())
            } else {
                Err(Error::HandshakeFailed)
            },
        }
    }

    /// The session that the reply to `ReadSysParam` configures, if it does.
    pub open spec fn configured(self, reply: ReplyView) -> Result<Session, Error> {
        match self.receive(Command::ReadSysParam, reply).1 {
            Err(e) => Err(e),
            Ok(_) => Ok(self.receive(Command::ReadSysParam, reply).0),
        }
    }

    /// The exchange of a search by `command` over the whole library, which
    /// needs the size of the library.
    pub open spec fn search(self, command: Command) -> Result<ExchangeView, Error> {
        match search_request_spec(command.opcode_spec(), self.library_size()) {
            Err(e) => Err(e),
            Ok(payload) => Ok(request(self.address, command, payload)),
        }
    }

    /// Address and password are four bytes each.
    pub open spec fn well_formed(self) -> bool {
        self.address.len() == 4 && self.password.len() == 4
    }
}

/// The request bytes of a search over a library whose size may not be known
/// yet: without the size there is no search.
pub open spec fn search_request_spec(opcode: u8, library_size: Option<u16>) -> Result<
    Seq<u8>,
    Error,
> {
    match library_size {
        None => Err(Error::LibrarySizeUnknown),
        Some(capacity) => Ok(search_payload_spec(opcode, capacity)),
    }
}

/// The session that the two replies of the handshake make: the sensor must
/// accept the password, then report its parameters. Nothing else yields a
/// session.
pub open spec fn construct(
    address: Seq<u8>,
    password: Seq<u8>,
    strict: bool,
    verify_reply: ReplyView,
    sysparam_reply: ReplyView,
) -> Result<Session, Error> {
    let fresh = Session::initial(address, password, strict);
    match fresh.password_accepted(verify_reply) {
        Err(e) => Err(e),
        Ok(()) => fresh.configured(sysparam_reply),
    }
}

/// The request bytes of a search over a library whose size is `library_size`.
///
/// Fails with `LibrarySizeUnknown` exactly when the size is not known.
pub fn search_payload(opcode: u8, library_size: Option<u16>) -> (r: Result<Vec<u8>, Error>)
    ensures
        viewed(r) == search_request_spec(opcode, library_size),
{
    match library_size {
        None => Err(Error::LibrarySizeUnknown),
        Some(capacity) => {
            let pages: (u8, u8) = split_u16(capacity);
            let mut payload: Vec<u8> = Vec::new();
            payload.push(opcode);
            payload.push(0x01);
            payload.push(0x00);
            payload.push(0x00);
            payload.push(pages.0);
            payload.push(pages.1);
            assert(payload@ =~= search_payload_spec(opcode, capacity));
            Ok(payload)
        },
    }
}

/// A session with one sensor.
///
/// A `Device` comes out of the handshake only: the sensor has accepted the
/// password and reported its parameters.
#[derive(Debug)]
pub struct Device {
    strict: bool,
    address: [u8; 4],
    password: [u8; 4],
    params: Option<SysParams>,
    template_count: u16,
    finger_id: u16,
    confidence: u16,
}

impl View for Device {
    type V = Session;

    closed spec fn view(&self) -> Session {
        Session {
            strict: self.strict,
            address: self.address@,
            password: self.password@,
            params: self.params,
            template_count: self.template_count,
            finger_id: self.finger_id,
            confidence: self.confidence,
        }
    }
}

impl Device {
    /// A session on which nothing has been exchanged yet. Only the handshake
    /// holds one.
    pub(crate) fn unconfigured(address: [u8; 4], password: [u8; 4], strict: bool) -> (device:
        Device)
        ensures
            device@ == Session::initial(address@, password@, strict),
    {
        Device {
            strict,
            address,
            password,
            params: None,
            template_count: 0,
            finger_id: 0,
            confidence: 0,
        }
    }

    /// The session that the handshake replies make.
    ///
    /// `verify_reply` answers the `VerifyPassword` exchange and `sysparam_reply`
    /// the `ReadSysParam` exchange that follows it on a fresh session for
    /// `address` and `password`. The result is a session exactly when the first
    /// reply carries the status `OK` and the second one `OK` and the sensor's
    /// parameters; otherwise it is the error of the first step that failed:
    /// `HandshakeFailed` for a refused password, `SysParamReadFailed` for
    /// refused parameters, and the transport or protocol error of a reply that
    /// did not arrive or is no acceptable frame.
    pub fn new(
        address: [u8; 4],
        password: [u8; 4],
        strict: bool,
        verify_reply: &Reply,
        sysparam_reply: &Reply,
    ) -> (r: Result<Device, Error>)
        ensures
            viewed(r) == construct(address@, password@, strict, verify_reply@, sysparam_reply@),
    {
        let mut device = Device::unconfigured(address, password, strict);
        match device.accept_password(verify_reply) {
            Err(e) => Err(e),
            Ok(()) => match device.receive(Command::ReadSysParam, sysparam_reply) {
                Err(e) => Err(e),
                Ok(_) => Ok(device),
            },
        }
    }

    /// Checks the reply to `VerifyPassword` during the handshake.
    pub(crate) fn accept_password(&mut self, reply: &Reply) -> (r: Result<(), Error>)
        ensures
            final(self)@ == old(self)@,
            r == old(self)@.password_accepted(reply@),
    {
        match self.receive(Command::VerifyPassword, reply) {
            Err(e) => Err(e),
            Ok(status) => if status == OK {
                Ok(())
            } else {
                Err(Error::HandshakeFailed)
            },
        }
    }

    /// Every session that a `Device` holds is well formed.
    pub proof fn lemma_well_formed(&self)
        ensures
            self@.well_formed(),
    {
    }

    /// Whether replies must carry a correct checksum and a complete payload.
    pub fn strict(&self) -> (strict: bool)
        ensures
            strict == self@.strict,
    {
        self.strict
    }

    /// The address frames are sent to and must come from.
    pub fn address(&self) -> (address: [u8; 4])
        ensures
            address@ == self@.address,
    {
        self.address
    }

    /// The parameters the sensor reported.
    pub fn sys_params(&self) -> (params: Option<SysParams>)
        ensures
            params == self@.params,
    {
        self.params
    }

    /// How many templates the library can hold, if the sensor has said so.
    pub fn library_size(&self) -> (size: Option<u16>)
        ensures
            size == self@.library_size(),
    {
        match self.params {
            Some(params) => Some(params.library_size),
            None => None,
        }
    }

    /// The count that the last `TemplateCount` reply held.
    pub fn template_count(&self) -> (count: u16)
        ensures
            count == self@.template_count,
    {
        self.template_count
    }

    /// The finger id that the last search reply held.
    pub fn finger_id(&self) -> (id: u16)
        ensures
            id == self@.finger_id,
    {
        self.finger_id
    }

    /// The confidence that the last search reply held.
    pub fn confidence(&self) -> (score: u16)
        ensures
            score == self@.confidence,
    {
        self.confidence
    }

    /// The command frame that carries `data` to the session's sensor.
    pub fn send_packet(&self, data: &[u8]) -> (packet: Vec<u8>)
        requires
            data.len() <= MAX_PAYLOAD,
        ensures
            packet@ == frame(self@.address, COMMANDPACKET, data@),
    {
        encode(&self.address, COMMANDPACKET, data)
    }

    /// The payload of a received frame, if it is an acknowledgement from the
    /// session's sensor; strict sessions compare the checksum too.
    pub fn get_packet(&self, received: &[u8]) -> (r: Result<Vec<u8>, ProtocolError>)
        ensures
            viewed(r) == decode_spec(received@, self@.address, self@.strict),
    {
        decode_with(received, &self.address, self.strict)
    }

    /// The exchange that puts `command` with the request bytes `payload`.
    fn exchange(&self, command: Command, payload: &[u8]) -> (x: Exchange)
        requires
            payload.len() <= MAX_PAYLOAD,
        ensures
            x@ == request(self@.address, command, payload@),
    {
        Exchange { command, frame: self.send_packet(payload), reply_len: command.reply_len() }
    }

    /// `VerifyPassword`: the opcode and the session's password.
    pub fn verify_password(&self) -> (x: Exchange)
        ensures
            x@ == request(
                self@.address,
                Command::VerifyPassword,
                seq![VERIFYPASSWORD] + self@.password,
            ),
    {
        let mut payload: Vec<u8> = Vec::new();
        payload.push(VERIFYPASSWORD);
        payload.extend_from_slice(self.password.as_slice());
        assert(payload@ =~= seq![VERIFYPASSWORD] + self@.password);
        self.exchange(Command::VerifyPassword, payload.as_slice())
    }

    /// `ReadSysParam`: the opcode alone.
    pub fn read_sysparam(&self) -> (x: Exchange)
        ensures
            x@ == request(self@.address, Command::ReadSysParam, seq![READSYSPARAM]),
    {
        let payload: [u8; 1] = [READSYSPARAM];
        assert(payload@ =~= seq![READSYSPARAM]);
        self.exchange(Command::ReadSysParam, payload.as_slice())
    }

    /// `TemplateCount`: the opcode alone.
    pub fn count_templates(&self) -> (x: Exchange)
        ensures
            x@ == request(self@.address, Command::TemplateCount, seq![TEMPLATECOUNT]),
    {
        let payload: [u8; 1] = [TEMPLATECOUNT];
        assert(payload@ =~= seq![TEMPLATECOUNT]);
        self.exchange(Command::TemplateCount, payload.as_slice())
    }

    /// `GetImage`: the opcode alone.
    pub fn get_image(&self) -> (x: Exchange)
        ensures
            x@ == request(self@.address, Command::GetImage, seq![GETIMAGE]),
    {
        let payload: [u8; 1] = [GETIMAGE];
        assert(payload@ =~= seq![GETIMAGE]);
        self.exchange(Command::GetImage, payload.as_slice())
    }

    /// `Image2Tz`: the opcode and the buffer slot (1 or 2) that takes the features.
    pub fn image_2_tz(&self, slot: u8) -> (x: Exchange)
        ensures
            x@ == request(self@.address, Command::Image2Tz, seq![IMAGE2TZ, slot]),
    {
        let payload: [u8; 2] = [IMAGE2TZ, slot];
        assert(payload@ =~= seq![IMAGE2TZ, slot]);
        self.exchange(Command::Image2Tz, payload.as_slice())
    }

    /// The exchange of a search by `command` over the whole library.
    fn search(&self, command: Command) -> (r: Result<Exchange, Error>)
        ensures
            viewed(r) == self@.search(command),
    {
        match search_payload(command.opcode(), self.library_size()) {
            Err(e) => Err(e),
            Ok(payload) => Ok(self.exchange(command, payload.as_slice())),
        }
    }

    /// `FingerSearch` over the whole library: buffer 1, start page 0, as many
    /// pages as the library holds. Fails with `LibrarySizeUnknown` exactly when
    /// the sensor's parameters have not been read.
    pub fn finger_search(&self) -> (r: Result<Exchange, Error>)
        ensures
            viewed(r) == self@.search(Command::FingerSearch),
    {
        self.search(Command::FingerSearch)
    }

    /// `FingerFastSearch` starts by reading the sensor's parameters again, so
    /// that the search runs over the library as it is now. The exchange is
    /// that of `ReadSysParam`; [`FastSearch::advance`] takes its reply, and
    /// asks for the search itself only if the parameters were read.
    pub fn finger_fast_search(&self) -> (r: (FastSearch, Exchange))
        ensures
            r.0 == (FastSearch { refreshed: false }),
            r.1@ == request(self@.address, Command::ReadSysParam, seq![READSYSPARAM]),
    {
        (FastSearch { refreshed: false }, self.read_sysparam())
    }

    /// `CreateModel`: the opcode alone.
    pub fn create_model(&self) -> (x: Exchange)
        ensures
            x@ == request(self@.address, Command::CreateModel, seq![REGMODEL]),
    {
        let payload: [u8; 1] = [REGMODEL];
        assert(payload@ =~= seq![REGMODEL]);
        self.exchange(Command::CreateModel, payload.as_slice())
    }

    /// `StoreModel`: the opcode, the buffer slot and the library location.
    pub fn store_model(&self, location: u16, slot: u8) -> (x: Exchange)
        ensures
            x@ == request(
                self@.address,
                Command::StoreModel,
                seq![STORE, slot, high_byte(location as int), low_byte(location as int)],
            ),
    {
        let at: (u8, u8) = split_u16(location);
        let payload: [u8; 4] = [STORE, slot, at.0, at.1];
        assert(payload@ =~= seq![
            STORE,
            slot,
            high_byte(location as int),
            low_byte(location as int),
        ]);
        self.exchange(Command::StoreModel, payload.as_slice())
    }

    /// `DeleteModel`: the opcode, the library location and a count of one.
    pub fn delete_model(&self, location: u16) -> (x: Exchange)
        ensures
            x@ == request(
                self@.address,
                Command::DeleteModel,
                seq![
                    DELETE,
                    high_byte(location as int),
                    low_byte(location as int),
                    0x00u8,
                    0x01u8,
                ],
            ),
    {
        let at: (u8, u8) = split_u16(location);
        let payload: [u8; 5] = [DELETE, at.0, at.1, 0x00, 0x01];
        assert(payload@ =~= seq![
            DELETE,
            high_byte(location as int),
            low_byte(location as int),
            0x00u8,
            0x01u8,
        ]);
        self.exchange(Command::DeleteModel, payload.as_slice())
    }

    /// Folds the reply to `command` into the session and returns the status
    /// byte of the reply. See [`Session::receive`].
    pub fn receive(&mut self, command: Command, reply: &Reply) -> (r: Result<u8, Error>)
        ensures
            (final(self)@, r) == old(self)@.receive(command, reply@),
    {
        let payload: Vec<u8> = match reply {
            Reply::TransportFailed => {
                return Err(Error::Transport);
            },
            Reply::Received(bytes) => match self.get_packet(bytes.as_slice()) {
                Err(e) => {
                    return Err(Error::Protocol(e));
                },
                Ok(payload) => payload,
            },
        };
        let len: usize = payload.len();
        if len == 0 {
            match command {
                Command::TemplateCount => {
                    if !self.strict {
                        self.template_count = 0;
                    }
                },
                _ => {},
            }
            return Err(Error::Protocol(ProtocolError::TruncatedFrame));
        }
        let p: &[u8] = payload.as_slice();
        let status: u8 = p[0];
        let short: bool = len < command.payload_len();
        match command {
            Command::ReadSysParam => {
                if status != OK {
                    return Err(Error::SysParamReadFailed);
                }
                if short {
                    return Err(Error::Protocol(ProtocolError::TruncatedFrame));
                }
                self.params = Some(
                    SysParams {
                        status_register: field_at(p, 1),
                        system_id: field_at(p, 3),
                        library_size: field_at(p, 5),
                        security_level: field_at(p, 7),
                        data_packet_size: field_at(p, 13),
                        baudrate: field_at(p, 15),
                    },
                );
                self.address = [p[9], p[10], p[11], p[12]];
                assert(self.address@ =~= p@.subrange(9, 13));
                Ok(status)
            },
            Command::TemplateCount => {
                if short {
                    if self.strict {
                        return Err(Error::Protocol(ProtocolError::TruncatedFrame));
                    }
                    self.template_count = 0;
                } else {
                    self.template_count = field_at(p, 1);
                }
                if status == OK {
                    Ok(status)
                } else {
                    Err(Error::CommandFailed { opcode: TEMPLATECOUNT, status })
                }
            },
            Command::FingerSearch | Command::FingerFastSearch => {
                if short {
                    return Err(Error::Protocol(ProtocolError::TruncatedFrame));
                }
                self.finger_id = field_at(p, 1);
                self.confidence = field_at(p, 3);
                Ok(status)
            },
            _ => Ok(status),
        }
    }
}

/// A fast search under way: first the parameters are read again, then the
/// search itself is put to the sensor.
#[derive(Clone, Copy, Debug, PartialEq, Eq)]
pub struct FastSearch {
    /// Whether the reply to the parameter read has come in.
    pub refreshed: bool,
}

impl View for FastSearch {
    type V = FastSearch;

    open spec fn view(&self) -> FastSearch {
        *self
    }
}

impl FastSearch {
    /// What the next reply does to the session, and what follows.
    ///
    /// The first reply answers `ReadSysParam`. If it fails, by the transport,
    /// as a frame or by its status, the fast search ends with that error and
    /// no search is put to the sensor. Otherwise the search is asked for, over
    /// the library size that was just read. The second reply answers the
    /// search and yields its status.
    pub open spec fn step(self, session: Session, reply: ReplyView) -> (
        Session,
        Result<ProgressView<FastSearch, u8>, Error>,
    ) {
        if !self.refreshed {
            let (after, r) = session.receive(Command::ReadSysParam, reply);
            (
                after,
                match r {
                    Err(e) => Err(e),
                    Ok(_) => match after.search(Command::FingerFastSearch) {
                        Err(e) => Err(e),
                        Ok(exchange) => Ok(
                            ProgressView::Continue {
                                machine: FastSearch { refreshed: true },
                                exchange,
                                pause: false,
                            },
                        ),
                    },
                },
            )
        } else {
            let (after, r) = session.receive(Command::FingerFastSearch, reply);
            (
                after,
                match r {
                    Err(e) => Err(e),
                    Ok(status) => Ok(ProgressView::Done(status)),
                },
            )
        }
    }

    /// Takes the reply to the exchange that was asked for last.
    pub fn advance(self, device: &mut Device, reply: &Reply) -> (r: Result<
        Progress<FastSearch, u8>,
        Error,
    >)
        ensures
            (final(device)@, viewed(r)) == self.step(old(device)@, reply@),
    {
        if !self.refreshed {
            match device.receive(Command::ReadSysParam, reply) {
                Err(e) => Err(e),
                Ok(_) => match device.search(Command::FingerFastSearch) {
                    Err(e) => Err(e),
                    Ok(exchange) => Ok(
                        Progress::Continue {
                            machine: FastSearch { refreshed: true },
                            exchange,
                            pause: false,
                        },
                    ),
                },
            }
        } else {
            match device.receive(Command::FingerFastSearch, reply) {
                Err(e) => Err(e),
                Ok(status) => Ok(Progress::Done(status)),
            }
        }
    }
}

/// No refresh, no search. A fast search asks for its second exchange in one
/// case only: the reply to `ReadSysParam` was accepted with the status `OK`.
/// The exchange is then `FingerFastSearch` over the library size that this
/// reply reported. Every other reply ends the fast search with the error of
/// the parameter read, and leaves the session as it was.
pub proof fn law_fast_search_needs_refresh(session: Session, reply: ReplyView)
    ensures
        match session.receive(Command::ReadSysParam, reply).1 {
            Err(e) => (FastSearch { refreshed: false }).step(session, reply) == (
                session,
                Err::<ProgressView<FastSearch, u8>, Error>(e),
            ),
            Ok(_) => {
                let after = session.receive(Command::ReadSysParam, reply).0;
                &&& after.params matches Some(params)
                &&& (FastSearch { refreshed: false }).step(session, reply) == (
                    after,
                    Ok::<ProgressView<FastSearch, u8>, Error>(
                        ProgressView::Continue {
                            machine: FastSearch { refreshed: true },
                            exchange: request(
                                after.address,
                                Command::FingerFastSearch,
                                search_payload_spec(HISPEEDSEARCH, params.library_size),
                            ),
                            pause: false,
                        },
                    ),
                )
            },
        },
{
}

/// The lenient count. On a session that is not strict, a reply to
/// `TemplateCount` that is an acceptable frame but too short to hold a count
/// sets the count to 0 and changes nothing else, whether or not it holds a
/// status; without a status the command still fails with `TruncatedFrame`. On
/// a strict session such a reply fails with `TruncatedFrame` and the count
/// stays.
pub proof fn law_short_count(session: Session, reply: ReplyView)
    ensures
        match session.payload(reply) {
            Ok(p) => p.len() < 3 ==> {
                let (after, r) = session.receive(Command::TemplateCount, reply);
                &&& after == if session.strict {
                    session
                } else {
                    session.with_count(0)
                }
                &&& (session.strict || p.len() == 0) ==> r == Err::<u8, Error>(
                    Error::Protocol(ProtocolError::TruncatedFrame),
                )
            },
            Err(e) => session.receive(Command::TemplateCount, reply) == (
                session,
                Err::<u8, Error>(e),
            ),
        },
{
}

/// What a command returns for a reply that is complete and carries `status`.
pub open spec fn delivered(command: Command, status: u8) -> Result<u8, Error> {
    match command {
        Command::ReadSysParam => if status == OK {
            Ok(status)
        } else {
            Err(Error::SysParamReadFailed)
        },
        Command::TemplateCount => if status == OK {
            Ok(status)
        } else {
            Err(Error::CommandFailed { opcode: TEMPLATECOUNT, status })
        },
        _ => Ok(status),
    }
}

/// Status pass-through. Let the sensor answer `command` with an
/// acknowledgement whose payload is `status` followed by `rest`. Then a status
/// that the command returns, as its result or inside `CommandFailed`, is
/// `status` itself; and a reply whose payload is as long as the command's
/// replies are yields `status` as the result, but for the two commands that
/// turn a status other than `OK` into their error. The one reply that is
/// accepted though too short is that of `TemplateCount` on a session that is
/// not strict: the count is then 0.
pub proof fn law_status_passes_through(
    session: Session,
    command: Command,
    status: u8,
    rest: Seq<u8>,
)
    requires
        session.well_formed(),
        rest.len() < MAX_PAYLOAD,
    ensures
        ({
            let payload = seq![status] + rest;
            let reply = ReplyView::Received(frame(session.address, ACKPACKET, payload));
            let (after, r) = session.receive(command, reply);
            &&& (after, r) == session.absorb(command, payload)
            &&& r matches Ok(s) ==> s == status
            &&& r matches Err(Error::CommandFailed { opcode, status: s }) ==> s == status && opcode
                == command.opcode_spec()
            &&& payload.len() >= command.payload_len_spec() ==> r == delivered(command, status)
            &&& command == Command::TemplateCount && !session.strict ==> r == delivered(
                command,
                status,
            ) && (payload.len() < 3 ==> after.template_count == 0)
        }),
{
    let payload = seq![status] + rest;
    law_round_trip(session.address, ACKPACKET, payload, session.strict);
    assert(payload[0] == status);
}

/// Construction. Let the sensor at `address` answer `VerifyPassword` with the
/// status `OK` and `ReadSysParam` with the payload `report`, which begins
/// with `OK` and holds the sixteen parameter bytes. Then the session exists,
/// and the size of its library is the value of bytes 5 and 6 of `report`.
pub proof fn law_construction(address: Seq<u8>, password: Seq<u8>, strict: bool, report: Seq<u8>)
    requires
        address.len() == 4,
        17 <= report.len() <= MAX_PAYLOAD,
        report[0] == OK,
    ensures
        ({
            let verify_reply = ReplyView::Received(frame(address, ACKPACKET, seq![OK]));
            let sysparam_reply = ReplyView::Received(frame(address, ACKPACKET, report));
            let built = construct(address, password, strict, verify_reply, sysparam_reply);
            &&& built == Ok::<Session, Error>(
                Session::initial(address, password, strict).with_params(report),
            )
            &&& built matches Ok(session) && session.library_size() == Some(
                be16(report[5], report[6]) as u16,
            )
        }),
{
    law_round_trip(address, ACKPACKET, seq![OK], strict);
    law_round_trip(address, ACKPACKET, report, strict);
}

} // verus!
