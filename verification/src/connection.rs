//! The client side of a RaSTA connection, as a state machine.
//!
//! The connection owns no stream and no clock. Each operation takes the
//! current time and returns the message to send; what the peer answers is
//! handed to the operation that expects it. A connection starts `Down`,
//! goes `Up` when the peer's connection response carries the right version,
//! and is `Closed` once the caller says that its disconnection request has
//! been written: if the write fails, the connection is still up. A closed
//! connection stays closed.

use crate::error::RastaError;
use crate::message::{
    data_of, header_of, lemma_rasta_version, next_sequence_number, spec_rasta_version, Header,
    Message, MessageType, RastaId, MAX_DATA_LEN, RASTA_VERSION,
};
use crate::N_SENDMAX;
use vstd::prelude::*;
use vstd::slice::slice_to_vec;

verus! {

/// The state of a RaSTA connection.
#[derive(Debug, Clone, Copy, PartialEq, Eq, Structural)]
pub enum RastaConnectionState {
    Closed,
    Down,
    /// Reserved: no operation enters this state.
    Start,
    Up,
}

/// What the user of a connection wants done next.
#[derive(Debug)]
pub enum RastaCommand {
    /// Send the bytes in a data message.
    Data(Vec<u8>),
    /// Send nothing, but keep the connection alive with a heartbeat.
    Wait,
    /// End the connection.
    Disconnect,
}

/// What the owner of the stream has to do for a command.
#[derive(Debug)]
pub enum RastaAction {
    /// Send the data message, read one message and hand it to
    /// [`RastaConnection::received_data`].
    SendData(Message),
    /// Send the heartbeat, read one message, hand it to
    /// [`RastaConnection::heartbeat_response`], and pause for half the
    /// RaSTA timeout.
    SendHeartbeat(Message),
    /// Send the disconnection request, if there is one, tell
    /// [`RastaConnection::disconnection_written`] once it is written, and
    /// stop.
    Disconnect(Option<Message>),
}

/// What a connection knows.
pub struct ConnectionView {
    pub state: RastaConnectionState,
    pub id: RastaId,
    pub peer: RastaId,
    pub seq_nr: Option<u32>,
    pub confirmed_timestamp: u32,
}

/// What can happen to a connection.
pub enum ConnectionEvent {
    /// The bytes of the peer's answer to the connection request.
    ConnectionResponse(Seq<u8>),
    /// A data message went out.
    DataSent,
    /// A heartbeat went out.
    HeartbeatSent,
    /// The bytes of the peer's answer to a heartbeat.
    HeartbeatResponse(Seq<u8>),
    /// The connection was asked to close, and gave out its disconnection
    /// request.
    CloseRequested,
    /// The disconnection request was written to the stream.
    DisconnectionWritten,
}

/// Whether the data of a connection response opens with the version
/// `"0301"`.
pub open spec fn carries_version(data: Seq<u8>) -> bool {
    data.len() >= 4 && data.subrange(0, 4) == spec_rasta_version()
}

impl ConnectionView {
    /// A connection that has not been opened yet.
    pub open spec fn initial(id: RastaId) -> ConnectionView {
        ConnectionView {
            state: RastaConnectionState::Down,
            id,
            peer: 0,
            seq_nr: None,
            confirmed_timestamp: 0,
        }
    }

    /// What holds of every connection: one that is up knows a sequence
    /// number.
    pub open spec fn wf(self) -> bool {
        self.state == RastaConnectionState::Up ==> self.seq_nr is Some
    }

    /// The current sequence number, which the next message confirms.
    pub open spec fn current(self) -> u32 {
        match self.seq_nr {
            Some(n) => n,
            None => 0,
        }
    }

    /// The connection after one more message went out: the sequence number
    /// moved on by one.
    pub open spec fn advanced(self) -> ConnectionView {
        ConnectionView { seq_nr: Some(next_sequence_number(self.current())), ..self }
    }

    /// Whether a connection response opens the connection: the connection
    /// is down, the data carries the version, and the message is a
    /// connection response.
    pub open spec fn opens(self, frame: Seq<u8>) -> bool {
        &&& self.state == RastaConnectionState::Down
        &&& carries_version(data_of(frame))
        &&& header_of(frame).message_type == MessageType::ConnResp
    }

    /// The connection after an event.
    pub open spec fn after(self, event: ConnectionEvent) -> ConnectionView {
        match event {
            ConnectionEvent::ConnectionResponse(frame) => if self.opens(frame) {
                ConnectionView {
                    state: RastaConnectionState::Up,
                    peer: header_of(frame).sender,
                    seq_nr: Some(header_of(frame).sequence_number),
                    confirmed_timestamp: header_of(frame).timestamp,
                    ..self
                }
            } else {
                self
            },
            ConnectionEvent::DataSent | ConnectionEvent::HeartbeatSent
            | ConnectionEvent::CloseRequested => if self.state == RastaConnectionState::Up {
                self.advanced()
            } else {
                self
            },
            ConnectionEvent::HeartbeatResponse(frame) => if header_of(frame).message_type
                == MessageType::HB {
                ConnectionView {
                    seq_nr: Some(header_of(frame).sequence_number),
                    confirmed_timestamp: header_of(frame).timestamp,
                    ..self
                }
            } else {
                self
            },
            ConnectionEvent::DisconnectionWritten => if self.state == RastaConnectionState::Up {
                ConnectionView { state: RastaConnectionState::Closed, ..self }
            } else {
                self
            },
        }
    }

    /// The connection after a sequence of events, first to last.
    pub open spec fn after_all(self, events: Seq<ConnectionEvent>) -> ConnectionView
        decreases events.len(),
    {
        if events.len() == 0 {
            self
        } else {
            self.after_all(events.drop_last()).after(events.last())
        }
    }

    /// The connection after `n` data messages went out.
    pub open spec fn after_data_sends(self, n: nat) -> ConnectionView
        decreases n,
    {
        if n == 0 {
            self
        } else {
            self.after_data_sends((n - 1) as nat).after(ConnectionEvent::DataSent)
        }
    }

    /// The header of the message that goes out next: it confirms the
    /// current sequence number and carries the one after it.
    pub open spec fn next_header(
        self,
        length: u16,
        message_type: MessageType,
        timestamp: u32,
    ) -> Header {
        Header {
            length,
            message_type,
            receiver: self.peer,
            sender: self.id,
            sequence_number: next_sequence_number(self.current()),
            confirmed_sequence_number: self.current(),
            timestamp,
            confirmed_timestamp: self.confirmed_timestamp,
        }
    }
}

/// State monotonicity: no event brings a closed connection up again, nor
/// changes its state at all.
pub proof fn lemma_closed_stays_closed(v: ConnectionView, event: ConnectionEvent)
    requires
        v.state == RastaConnectionState::Closed,
    ensures
        v.after(event).state == RastaConnectionState::Closed,
{
}

/// State monotonicity over time: whatever happens to a closed connection,
/// and however often, it stays closed.
pub proof fn lemma_closed_forever(v: ConnectionView, events: Seq<ConnectionEvent>)
    requires
        v.state == RastaConnectionState::Closed,
    ensures
        v.after_all(events).state == RastaConnectionState::Closed,
    decreases events.len(),
{
    if events.len() > 0 {
        lemma_closed_forever(v, events.drop_last());
        lemma_closed_stays_closed(v.after_all(events.drop_last()), events.last());
    }
}

/// Asking a connection to close does not change its state: it is closed
/// only once the disconnection request was written, so that after a
/// failed write it is still up.
pub proof fn lemma_close_request_keeps_state(v: ConnectionView)
    ensures
        v.after(ConnectionEvent::CloseRequested).state == v.state,
        v.state == RastaConnectionState::Up ==> v.after(ConnectionEvent::CloseRequested).after(
            ConnectionEvent::DisconnectionWritten,
        ).state == RastaConnectionState::Closed,
{
}

/// A connection that is up came up from down or was up before: no event
/// leads from closed or start to up.
pub proof fn lemma_up_only_from_down(v: ConnectionView, event: ConnectionEvent)
    requires
        v.after(event).state == RastaConnectionState::Up,
    ensures
        v.state == RastaConnectionState::Up || v.state == RastaConnectionState::Down,
{
}

/// A count of messages as a sequence number: wrapped around at 2^32.
pub open spec fn wrapped(n: int) -> u32 {
    (n % 0x1_0000_0000) as u32
}

/// Moving a sequence number on by one is adding one before wrapping.
pub proof fn lemma_next_is_wrapped_successor(n: int)
    requires
        0 <= n,
    ensures
        next_sequence_number(wrapped(n)) == wrapped(n + 1),
{
    let m = n % 0x1_0000_0000;
    assert(0 <= m < 0x1_0000_0000);
    if m == 0xffff_ffff {
        assert((n + 1) % 0x1_0000_0000 == 0) by (nonlinear_arith)
            requires
                n % 0x1_0000_0000 == 0xffff_ffff,
                0 <= n,
        ;
    } else {
        assert((n + 1) % 0x1_0000_0000 == m + 1) by (nonlinear_arith)
            requires
                n % 0x1_0000_0000 == m,
                0 <= m < 0xffff_ffff,
                0 <= n,
        ;
    }
}

/// Data messages move the sequence number of a connection that is up on
/// by one each, and leave the connection up.
pub proof fn lemma_data_sends_count(v: ConnectionView, start: int, n: nat)
    requires
        v.state == RastaConnectionState::Up,
        0 <= start,
        v.seq_nr == Some(wrapped(start)),
    ensures
        v.after_data_sends(n).state == RastaConnectionState::Up,
        v.after_data_sends(n).seq_nr == Some(wrapped(start + n)),
    decreases n,
{
    if n > 0 {
        lemma_data_sends_count(v, start, (n - 1) as nat);
        lemma_next_is_wrapped_successor(start + n - 1);
    }
}

/// A connection response that opens the connection brings it up with the
/// sequence number of the response.
pub proof fn lemma_response_opens(v: ConnectionView, frame: Seq<u8>)
    requires
        v.opens(frame),
    ensures
        v.after(ConnectionEvent::ConnectionResponse(frame)).state == RastaConnectionState::Up,
        v.after(ConnectionEvent::ConnectionResponse(frame)).seq_nr == Some(
            header_of(frame).sequence_number,
        ),
{
}

/// Sequence-number discipline: once a connection is up with the sequence
/// number `initial` of the peer's connection response, `n` data messages
/// later its sequence number is `initial + n`, wrapped around at 2^32: it
/// is `initial + n` itself as long as that fits 32 bits.
pub proof fn lemma_sequence_number_after_sends(opened: ConnectionView, initial: u32, n: nat)
    requires
        opened.state == RastaConnectionState::Up,
        opened.seq_nr == Some(initial),
    ensures
        opened.after_data_sends(n).state == RastaConnectionState::Up,
        opened.after_data_sends(n).seq_nr == Some(wrapped(initial + n)),
        initial + n <= u32::MAX ==> opened.after_data_sends(n).seq_nr == Some(
            (initial + n) as u32,
        ),
{
    assert(wrapped(initial as int) == initial);
    lemma_data_sends_count(opened, initial as int, n);
}

/// Every event keeps a well-formed connection well formed.
pub proof fn lemma_after_keeps_wf(v: ConnectionView, event: ConnectionEvent)
    requires
        v.wf(),
    ensures
        v.after(event).wf(),
{
}

/// The client side of a RaSTA connection.
#[derive(Debug)]
pub struct RastaConnection {
    state: RastaConnectionState,
    id: RastaId,
    peer: RastaId,
    seq_nr: Option<u32>,
    confirmed_timestamp: u32,
}

impl View for RastaConnection {
    type V = ConnectionView;

    closed spec fn view(&self) -> ConnectionView {
        ConnectionView {
            state: self.state,
            id: self.id,
            peer: self.peer,
            seq_nr: self.seq_nr,
            confirmed_timestamp: self.confirmed_timestamp,
        }
    }
}

impl RastaConnection {
    /// What holds of every connection: see [`ConnectionView::wf`].
    #[verifier::type_invariant]
    pub open spec fn inv(&self) -> bool {
        self@.wf()
    }

    /// A connection with the given id. It is down and knows no peer yet.
    pub fn new(id: RastaId) -> (c: RastaConnection)
        ensures
            c@ == ConnectionView::initial(id),
    {
        RastaConnection {
            state: RastaConnectionState::Down,
            id,
            peer: 0,
            seq_nr: None,
            confirmed_timestamp: 0,
        }
    }

    /// The state of the connection.
    pub fn connection_state_request(&self) -> (state: RastaConnectionState)
        ensures
            state == self@.state,
    {
        self.state
    }

    /// The id of this end.
    pub fn id(&self) -> (id: RastaId)
        ensures
            id == self@.id,
    {
        self.id
    }

    /// The id of the peer: zero until a connection response has named it.
    pub fn peer(&self) -> (id: RastaId)
        ensures
            id == self@.peer,
    {
        self.peer
    }

    /// The current sequence number, if there is one yet.
    pub fn sequence_number(&self) -> (n: Option<u32>)
        ensures
            n == self@.seq_nr,
            self@.state == RastaConnectionState::Up ==> n is Some,
    {
        proof {
            use_type_invariant(self);
        }
        self.seq_nr
    }

    /// The timestamp of the peer's last message that was taken over.
    pub fn confirmed_timestamp(&self) -> (t: u32)
        ensures
            t == self@.confirmed_timestamp,
    {
        self.confirmed_timestamp
    }

    fn next_seq_nr(&mut self) -> (pair: (u32, u32))
        requires
            old(self)@.state == RastaConnectionState::Up,
        ensures
            pair.0 == old(self)@.current(),
            pair.1 == next_sequence_number(old(self)@.current()),
            final(self)@ == old(self)@.advanced(),
    {
        proof {
            use_type_invariant(&*self);
        }
        let current = match self.seq_nr {
            Some(n) => n,
            None => 0,
        };
        let next = current.wrapping_add(1);
        self.seq_nr = Some(next);
        (current, next)
    }

    /// The connection request that opens a connection to `receiver`, with
    /// a sequence number drawn at random. Fails with
    /// [`RastaError::StateError`] unless the connection is down. The
    /// connection itself does not change: it comes up when
    /// [`RastaConnection::connection_response`] takes the peer's answer.
    pub fn open_connection(&self, receiver: RastaId, timestamp: u32) -> (r: Result<
        Message,
        RastaError,
    >)
        ensures
            match r {
                Ok(m) => self@.state == RastaConnectionState::Down && m.holds(
                    Header {
                        length: 50,
                        message_type: MessageType::ConnReq,
                        receiver,
                        sender: self@.id,
                        sequence_number: m.spec_sequence_number(),
                        confirmed_sequence_number: 0,
                        timestamp,
                        confirmed_timestamp: 0,
                    },
                    crate::message::connection_data(N_SENDMAX),
                ),
                Err(e) => self@.state != RastaConnectionState::Down && e
                    == RastaError::StateError,
            },
    {
        match self.state {
            RastaConnectionState::Down => Ok(
                Message::connection_request(receiver, self.id, timestamp, N_SENDMAX),
            ),
            _ => Err(RastaError::StateError),
        }
    }

    /// As [`RastaConnection::open_connection`], with the sequence number
    /// that the caller chose for this connection.
    pub fn open_connection_with_sequence_number(
        &self,
        receiver: RastaId,
        initial_sequence_number: u32,
        timestamp: u32,
    ) -> (r: Result<Message, RastaError>)
        ensures
            match r {
                Ok(m) => self@.state == RastaConnectionState::Down && m.holds(
                    Header {
                        length: 50,
                        message_type: MessageType::ConnReq,
                        receiver,
                        sender: self@.id,
                        sequence_number: initial_sequence_number,
                        confirmed_sequence_number: 0,
                        timestamp,
                        confirmed_timestamp: 0,
                    },
                    crate::message::connection_data(N_SENDMAX),
                ),
                Err(e) => self@.state != RastaConnectionState::Down && e
                    == RastaError::StateError,
            },
    {
        match self.state {
            RastaConnectionState::Down => Ok(
                Message::connection_request_with_sequence_number(
                    receiver,
                    self.id,
                    initial_sequence_number,
                    timestamp,
                    N_SENDMAX,
                ),
            ),
            _ => Err(RastaError::StateError),
        }
    }

    /// Whether the data of a message opens with the version `"0301"`.
    pub fn has_version(response: &Message) -> (b: bool)
        ensures
            b == carries_version(response.spec_data()),
    {
        let data = response.data();
        if data.len() < 4 {
            return false;
        }
        let version = RASTA_VERSION;
        proof {
            lemma_rasta_version();
        }
        let b = data[0] == version[0] && data[1] == version[1] && data[2] == version[2]
            && data[3] == version[3];
        proof {
            if b {
                assert(data@.subrange(0, 4) =~= spec_rasta_version());
            } else {
                assert(data@.subrange(0, 4)[0] == data@[0]);
                assert(data@.subrange(0, 4)[1] == data@[1]);
                assert(data@.subrange(0, 4)[2] == data@[2]);
                assert(data@.subrange(0, 4)[3] == data@[3]);
            }
        }
        b
    }

    /// Takes the peer's answer to the connection request. Fails with
    /// [`RastaError::StateError`] unless the connection is down, and with
    /// [`RastaError::VersionMismatch`] if the data of the answer does not
    /// open with the version `"0301"`; the connection is then unchanged.
    /// Else a connection response brings the connection up, with the
    /// answer's sender as peer, its sequence number as the current one and
    /// its timestamp as the confirmed one; any other message changes
    /// nothing.
    pub fn connection_response(&mut self, response: &Message) -> (r: Result<(), RastaError>)
        ensures
            final(self)@ == old(self)@.after(ConnectionEvent::ConnectionResponse(response@)),
            r == if old(self)@.state != RastaConnectionState::Down {
                Err::<(), RastaError>(RastaError::StateError)
            } else if !carries_version(response.spec_data()) {
                Err(RastaError::VersionMismatch)
            } else {
                Ok(())
            },
    {
        match self.state {
            RastaConnectionState::Down => {},
            _ => {
                return Err(RastaError::StateError);
            },
        }
        if !RastaConnection::has_version(response) {
            return Err(RastaError::VersionMismatch);
        }
        if response.message_type() == MessageType::ConnResp {
            self.seq_nr = Some(response.sequence_number());
            self.confirmed_timestamp = response.timestamp();
            self.peer = response.sender();
            self.state = RastaConnectionState::Up;
        }
        Ok(())
    }

    /// The data message that carries `data`. It confirms the current
    /// sequence number and carries the one after it, which becomes the
    /// current one. Fails with [`RastaError::StateError`], and changes
    /// nothing, unless the connection is up.
    pub fn send_data(&mut self, data: &[u8], timestamp: u32) -> (r: Result<Message, RastaError>)
        requires
            data.len() <= MAX_DATA_LEN,
        ensures
            final(self)@ == old(self)@.after(ConnectionEvent::DataSent),
            match r {
                Ok(m) => old(self)@.state == RastaConnectionState::Up && m.holds(
                    old(self)@.next_header(
                        (36 + data@.len()) as u16,
                        MessageType::Data,
                        timestamp,
                    ),
                    data@,
                ),
                Err(e) => old(self)@.state != RastaConnectionState::Up && e
                    == RastaError::StateError,
            },
    {
        match self.state {
            RastaConnectionState::Up => {},
            _ => {
                return Err(RastaError::StateError);
            },
        }
        let (confirmed_seq_nr, seq_nr) = self.next_seq_nr();
        Ok(
            Message::data_message(
                self.peer,
                self.id,
                seq_nr,
                confirmed_seq_nr,
                timestamp,
                self.confirmed_timestamp,
                data,
            ),
        )
    }

    /// The heartbeat that keeps the connection alive. It confirms the
    /// current sequence number and carries the one after it, which becomes
    /// the current one. Fails with [`RastaError::StateError`], and changes
    /// nothing, unless the connection is up.
    pub fn send_heartbeat(&mut self, timestamp: u32) -> (r: Result<Message, RastaError>)
        ensures
            final(self)@ == old(self)@.after(ConnectionEvent::HeartbeatSent),
            match r {
                Ok(m) => old(self)@.state == RastaConnectionState::Up && m.holds(
                    old(self)@.next_header(36, MessageType::HB, timestamp),
                    Seq::<u8>::empty(),
                ),
                Err(e) => old(self)@.state != RastaConnectionState::Up && e
                    == RastaError::StateError,
            },
    {
        match self.state {
            RastaConnectionState::Up => {},
            _ => {
                return Err(RastaError::StateError);
            },
        }
        let (confirmed_seq_nr, seq_nr) = self.next_seq_nr();
        Ok(
            Message::heartbeat(
                self.peer,
                self.id,
                seq_nr,
                confirmed_seq_nr,
                timestamp,
                self.confirmed_timestamp,
            ),
        )
    }

    /// Takes the peer's answer to a heartbeat: of a heartbeat the
    /// connection takes over sequence number and timestamp; any other
    /// message changes nothing.
    pub fn heartbeat_response(&mut self, response: &Message)
        ensures
            final(self)@ == old(self)@.after(ConnectionEvent::HeartbeatResponse(response@)),
    {
        if response.message_type() == MessageType::HB {
            self.seq_nr = Some(response.sequence_number());
            self.confirmed_timestamp = response.timestamp();
        }
    }

    /// Asks the connection to close. If it is up, the result is the
    /// disconnection request to send; the sequence number moves on, and the
    /// connection stays up until [`RastaConnection::disconnection_written`]
    /// is told that the request was written. If it is not up, there is
    /// nothing to send and nothing changes.
    pub fn close_connection(&mut self, timestamp: u32) -> (r: Option<Message>)
        ensures
            final(self)@ == old(self)@.after(ConnectionEvent::CloseRequested),
            match r {
                Some(m) => old(self)@.state == RastaConnectionState::Up && m.holds(
                    old(self)@.next_header(40, MessageType::DiscReq, timestamp),
                    Seq::<u8>::empty(),
                ),
                None => old(self)@.state != RastaConnectionState::Up,
            },
    {
        match self.state {
            RastaConnectionState::Up => {},
            _ => {
                return None;
            },
        }
        let (confirmed_seq_nr, seq_nr) = self.next_seq_nr();
        Some(
            Message::disconnection_request(
                self.peer,
                self.id,
                seq_nr,
                confirmed_seq_nr,
                timestamp,
                self.confirmed_timestamp,
            ),
        )
    }

    /// Takes note that the disconnection request was written to the
    /// stream: a connection that is up is closed from now on. In any other
    /// state nothing changes.
    pub fn disconnection_written(&mut self)
        ensures
            final(self)@ == old(self)@.after(ConnectionEvent::DisconnectionWritten),
    {
        match self.state {
            RastaConnectionState::Up => {
                self.state = RastaConnectionState::Closed;
            },
            _ => {},
        }
    }

    /// Reads the message that one frame holds. Fails as
    /// [`Message::decode`] does.
    pub fn receive_message(&self, frame: &[u8]) -> (r: Result<Message, RastaError>)
        ensures
            match r {
                Ok(m) => crate::message::frame_error(frame@) is None && m@ == frame@,
                Err(e) => crate::message::frame_error(frame@) == Some(e),
            },
    {
        Message::decode(frame)
    }

    /// What to keep of the message that followed a data message: of a data
    /// message its data, of any other message nothing.
    pub fn received_data(message: &Message) -> (data: Option<Vec<u8>>)
        ensures
            match data {
                Some(d) => message.spec_message_type() == MessageType::Data && d@
                    == message.spec_data(),
                None => message.spec_message_type() != MessageType::Data,
            },
    {
        if message.message_type() == MessageType::Data {
            Some(slice_to_vec(message.data()))
        } else {
            None
        }
    }

    /// One turn of the control loop: what to send for a command. Data goes
    /// out in a data message, waiting sends a heartbeat, and disconnecting
    /// gives out the disconnection request. Data and heartbeat fail with
    /// [`RastaError::StateError`] unless the connection is up.
    pub fn step(&mut self, command: RastaCommand, timestamp: u32) -> (r: Result<
        RastaAction,
        RastaError,
    >)
        requires
            command matches RastaCommand::Data(data) ==> data.len() <= MAX_DATA_LEN,
        ensures
            final(self)@ == old(self)@.after(
                match command {
                    RastaCommand::Data(_) => ConnectionEvent::DataSent,
                    RastaCommand::Wait => ConnectionEvent::HeartbeatSent,
                    RastaCommand::Disconnect => ConnectionEvent::CloseRequested,
                },
            ),
            match (command, r) {
                (RastaCommand::Data(data), Ok(RastaAction::SendData(m))) => old(self)@.state
                    == RastaConnectionState::Up && m.holds(
                    old(self)@.next_header(
                        (36 + data@.len()) as u16,
                        MessageType::Data,
                        timestamp,
                    ),
                    data@,
                ),
                (RastaCommand::Wait, Ok(RastaAction::SendHeartbeat(m))) => old(self)@.state
                    == RastaConnectionState::Up && m.holds(
                    old(self)@.next_header(36, MessageType::HB, timestamp),
                    Seq::<u8>::empty(),
                ),
                (RastaCommand::Disconnect, Ok(RastaAction::Disconnect(Some(m)))) => old(
                    self,
                )@.state == RastaConnectionState::Up && m.holds(
                    old(self)@.next_header(40, MessageType::DiscReq, timestamp),
                    Seq::<u8>::empty(),
                ),
                (RastaCommand::Disconnect, Ok(RastaAction::Disconnect(None))) => old(self)@.state
                    != RastaConnectionState::Up,
                (RastaCommand::Data(_), Err(e)) => old(self)@.state != RastaConnectionState::Up
                    && e == RastaError::StateError,
                (RastaCommand::Wait, Err(e)) => old(self)@.state != RastaConnectionState::Up && e
                    == RastaError::StateError,
                _ => false,
            },
    {
        match command {
            RastaCommand::Data(data) => {
                let msg = self.send_data(data.as_slice(), timestamp)?;
                Ok(RastaAction::SendData(msg))
            },
            RastaCommand::Wait => {
                let msg = self.send_heartbeat(timestamp)?;
                Ok(RastaAction::SendHeartbeat(msg))
            },
            RastaCommand::Disconnect => Ok(RastaAction::Disconnect(self.close_connection(timestamp))),
        }
    }
}

} // verus!
