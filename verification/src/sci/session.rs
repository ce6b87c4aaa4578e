//! SCI endpoints on top of RaSTA: telegrams in place of bytes, and names
//! in place of RaSTA ids.
//!
//! Like the RaSTA state machines below them, the endpoints own no stream:
//! they say what to send, and take what was read.

use super::telegram::{decode_telegram, encode_telegram, SCITelegram, TelegramView};
use super::SciError;
use crate::connection::{
    ConnectionEvent, ConnectionView, RastaConnection, RastaConnectionState,
};
use crate::error::RastaError;
use crate::listener::{ListenerAction, ListenerView, RastaListener};
use crate::message::{
    connection_data, data_of, frame_error, header_of, Header, Message, MessageType, RastaId,
};
use crate::N_SENDMAX;
use vstd::prelude::*;

verus! {

/// What the user of an SCI connection wants done next.
#[derive(Debug)]
pub enum SCICommand {
    /// Send the telegram.
    Telegram(SCITelegram),
    /// Send nothing, but keep the connection alive with a heartbeat.
    Wait,
    /// End the connection.
    Disconnect,
}

/// What the owner of the stream has to do to get a telegram out.
#[derive(Debug)]
pub enum SCISend {
    /// The connection is still down: send this connection request, hand
    /// the answer to [`SCIConnection::connection_response`], and ask for
    /// the telegram to be sent again.
    Open(Message),
    /// Send this data message: it carries the telegram.
    Data(Message),
}

/// What the owner of the stream has to do for a command.
#[derive(Debug)]
pub enum SCIAction {
    /// As [`SCISend::Open`]; the telegram comes back to be sent again.
    Open(Message, SCITelegram),
    /// Send the data message, read one frame and hand it to
    /// [`SCIConnection::receive_telegram`].
    SendTelegram(Message),
    /// Send the heartbeat, read one message, hand it to
    /// [`SCIConnection::heartbeat_response`], and pause for half the RaSTA
    /// timeout.
    SendHeartbeat(Message),
    /// Send the disconnection request, if there is one, tell
    /// [`SCIConnection::disconnection_written`] once it is written, and
    /// stop.
    Disconnect(Option<Message>),
}

/// The RaSTA id that a name has in a mapping: that of the first entry with
/// the name, if there is one.
pub open spec fn lookup(mapping: Seq<(String, RastaId)>, name: Seq<char>) -> Option<RastaId>
    decreases mapping.len(),
{
    if mapping.len() == 0 {
        None
    } else if mapping[0].0@ == name {
        Some(mapping[0].1)
    } else {
        lookup(mapping.drop_first(), name)
    }
}

/// What an SCI connection knows.
pub struct SessionView {
    pub connection: ConnectionView,
    pub name: Seq<char>,
    pub mapping: Seq<(String, RastaId)>,
}

/// A sending SCI endpoint: a RaSTA connection, the name of this end, and
/// the RaSTA ids of the names that it talks to.
#[derive(Debug)]
pub struct SCIConnection {
    conn: RastaConnection,
    name: String,
    sci_name_rasta_id_mapping: Vec<(String, RastaId)>,
}

impl View for SCIConnection {
    type V = SessionView;

    closed spec fn view(&self) -> SessionView {
        SessionView {
            connection: self.conn@,
            name: self.name@,
            mapping: self.sci_name_rasta_id_mapping@,
        }
    }
}

/// The header of the connection request that opens a connection.
pub open spec fn opening_header(
    sender: RastaId,
    receiver: RastaId,
    sequence_number: u32,
    timestamp: u32,
) -> Header {
    Header {
        length: 50,
        message_type: MessageType::ConnReq,
        receiver,
        sender,
        sequence_number,
        confirmed_sequence_number: 0,
        timestamp,
        confirmed_timestamp: 0,
    }
}

/// Whether a message is the connection request to the given target: there
/// is a target, and but for its sequence number the message is the
/// connection request that [`opening_header`] describes.
pub open spec fn is_opening(
    m: Message,
    sender: RastaId,
    target: Option<RastaId>,
    timestamp: u32,
) -> bool {
    match target {
        Some(id) => m.holds(
            opening_header(sender, id, m.spec_sequence_number(), timestamp),
            connection_data(N_SENDMAX),
        ),
        None => false,
    }
}

impl SCIConnection {
    /// An SCI connection over a RaSTA connection that is still down. Fails
    /// with [`RastaError::StateError`] on a connection in any other state.
    pub fn try_new(
        conn: RastaConnection,
        name: String,
        sci_name_rasta_id_mapping: Vec<(String, RastaId)>,
    ) -> (r: Result<SCIConnection, RastaError>)
        ensures
            match r {
                Ok(c) => conn@.state == RastaConnectionState::Down && c@ == (SessionView {
                    connection: conn@,
                    name: name@,
                    mapping: sci_name_rasta_id_mapping@,
                }),
                Err(e) => conn@.state != RastaConnectionState::Down && e
                    == RastaError::StateError,
            },
    {
        match conn.connection_state_request() {
            RastaConnectionState::Down => Ok(
                SCIConnection { conn, name, sci_name_rasta_id_mapping },
            ),
            _ => Err(RastaError::StateError),
        }
    }

    /// The name of this end.
    pub fn name(&self) -> (name: &str)
        ensures
            name@ == self@.name,
    {
        self.name.as_str()
    }

    /// The RaSTA connection below.
    pub fn connection(&self) -> (conn: &RastaConnection)
        ensures
            conn@ == self@.connection,
    {
        &self.conn
    }

    /// The RaSTA id of a name, if the mapping has one.
    pub fn rasta_id(&self, name: &String) -> (id: Option<RastaId>)
        ensures
            id == lookup(self@.mapping, name@),
    {
        let mut i: usize = 0;
        assert(self.sci_name_rasta_id_mapping@.subrange(
            0,
            self.sci_name_rasta_id_mapping.len() as int,
        ) =~= self.sci_name_rasta_id_mapping@);
        while i < self.sci_name_rasta_id_mapping.len()
            invariant
                i <= self.sci_name_rasta_id_mapping.len(),
                lookup(self.sci_name_rasta_id_mapping@, name@) == lookup(
                    self.sci_name_rasta_id_mapping@.subrange(
                        i as int,
                        self.sci_name_rasta_id_mapping.len() as int,
                    ),
                    name@,
                ),
            decreases self.sci_name_rasta_id_mapping.len() - i,
        {
            let ghost rest = self.sci_name_rasta_id_mapping@.subrange(
                i as int,
                self.sci_name_rasta_id_mapping.len() as int,
            );
            proof {
                assert(rest.len() > 0);
                assert(rest[0] == self.sci_name_rasta_id_mapping@[i as int]);
                assert(rest.drop_first() =~= self.sci_name_rasta_id_mapping@.subrange(
                    i + 1,
                    self.sci_name_rasta_id_mapping.len() as int,
                ));
            }
            if self.sci_name_rasta_id_mapping[i].0 == *name {
                return Some(self.sci_name_rasta_id_mapping[i].1);
            }
            i += 1;
        }
        proof {
            assert(self.sci_name_rasta_id_mapping@.subrange(
                i as int,
                self.sci_name_rasta_id_mapping.len() as int,
            ).len() == 0);
        }
        None
    }

    /// The connection request that opens the connection to the peer with
    /// the given name, if the connection is down; nothing, if it is not.
    /// Fails with [`RastaError::MissingRastaId`] if the connection is down
    /// and the mapping has no RaSTA id for the name. Changes nothing.
    pub fn open(&self, peer: &String, timestamp: u32) -> (r: Result<Option<Message>, RastaError>)
        ensures
            match r {
                Ok(Some(m)) => self@.connection.state == RastaConnectionState::Down && is_opening(
                    m,
                    self@.connection.id,
                    lookup(self@.mapping, peer@),
                    timestamp,
                ),
                Ok(None) => self@.connection.state != RastaConnectionState::Down,
                Err(e) => self@.connection.state == RastaConnectionState::Down && lookup(
                    self@.mapping,
                    peer@,
                ) is None && e == RastaError::MissingRastaId,
            },
    {
        match self.conn.connection_state_request() {
            RastaConnectionState::Down => {},
            _ => {
                return Ok(None);
            },
        }
        match self.rasta_id(peer) {
            None => Err(RastaError::MissingRastaId),
            Some(id) => {
                let request = self.conn.open_connection(id, timestamp)?;
                Ok(Some(request))
            },
        }
    }

    /// Takes the peer's answer to the connection request, as
    /// [`RastaConnection::connection_response`] does.
    pub fn connection_response(&mut self, response: &Message) -> (r: Result<(), RastaError>)
        ensures
            final(self)@ == (SessionView {
                connection: old(self)@.connection.after(
                    ConnectionEvent::ConnectionResponse(response@),
                ),
                ..old(self)@
            }),
            r == if old(self)@.connection.state != RastaConnectionState::Down {
                Err::<(), RastaError>(RastaError::StateError)
            } else if !crate::connection::carries_version(response.spec_data()) {
                Err(RastaError::VersionMismatch)
            } else {
                Ok(())
            },
    {
        self.conn.connection_response(response)
    }

    /// What to send to get a telegram out. On a connection that is down
    /// it is the connection request to the telegram's receiver, and fails
    /// with [`RastaError::MissingRastaId`] if the mapping has no RaSTA id
    /// for that name; nothing changes then. On a connection that is up it
    /// is the data message with the encoded telegram. In any other state
    /// it fails with [`RastaError::StateError`].
    pub fn send_telegram(&mut self, telegram: &SCITelegram, timestamp: u32) -> (r: Result<
        SCISend,
        RastaError,
    >)
        ensures
            final(self)@ == (SessionView {
                connection: if old(self)@.connection.state == RastaConnectionState::Down {
                    old(self)@.connection
                } else {
                    old(self)@.connection.after(ConnectionEvent::DataSent)
                },
                ..old(self)@
            }),
            match r {
                Ok(SCISend::Open(m)) => old(self)@.connection.state == RastaConnectionState::Down
                    && is_opening(
                    m,
                    old(self)@.connection.id,
                    lookup(old(self)@.mapping, telegram@.receiver),
                    timestamp,
                ),
                Ok(SCISend::Data(m)) => old(self)@.connection.state == RastaConnectionState::Up
                    && m.holds(
                    old(self)@.connection.next_header(
                        (36 + encode_telegram(telegram@).len()) as u16,
                        MessageType::Data,
                        timestamp,
                    ),
                    encode_telegram(telegram@),
                ),
                Err(e) => if old(self)@.connection.state == RastaConnectionState::Down {
                    lookup(old(self)@.mapping, telegram@.receiver) is None && e
                        == RastaError::MissingRastaId
                } else {
                    old(self)@.connection.state != RastaConnectionState::Up && e
                        == RastaError::StateError
                },
            },
    {
        match self.open(&telegram.receiver, timestamp)? {
            Some(request) => Ok(SCISend::Open(request)),
            None => {
                let data = telegram.encode();
                let message = self.conn.send_data(data.as_slice(), timestamp)?;
                Ok(SCISend::Data(message))
            },
        }
    }

    /// Reads the telegram that one frame carries. Fails as
    /// [`Message::decode`] does if the frame is no message, and with
    /// [`RastaError::Malformed`] if the data of the message is no
    /// telegram.
    pub fn receive_telegram(&self, frame: &[u8]) -> (r: Result<SCITelegram, RastaError>)
        ensures
            match r {
                Ok(t) => frame_error(frame@) is None && decode_telegram(data_of(frame@)) == Ok::<
                    TelegramView,
                    SciError,
                >(t@),
                Err(e) => match frame_error(frame@) {
                    Some(fault) => e == fault,
                    None => decode_telegram(data_of(frame@)) is Err && e == RastaError::Malformed,
                },
            },
    {
        let message = self.conn.receive_message(frame)?;
        match SCITelegram::try_from(message.data()) {
            Ok(telegram) => Ok(telegram),
            Err(e) => Err(RastaError::from(e)),
        }
    }

    /// The heartbeat that keeps the connection alive, as
    /// [`RastaConnection::send_heartbeat`] gives it.
    pub fn send_heartbeat(&mut self, timestamp: u32) -> (r: Result<Message, RastaError>)
        ensures
            final(self)@ == (SessionView {
                connection: old(self)@.connection.after(ConnectionEvent::HeartbeatSent),
                ..old(self)@
            }),
            match r {
                Ok(m) => old(self)@.connection.state == RastaConnectionState::Up && m.holds(
                    old(self)@.connection.next_header(36, MessageType::HB, timestamp),
                    Seq::<u8>::empty(),
                ),
                Err(e) => old(self)@.connection.state != RastaConnectionState::Up && e
                    == RastaError::StateError,
            },
    {
        self.conn.send_heartbeat(timestamp)
    }

    /// Takes the peer's answer to a heartbeat, as
    /// [`RastaConnection::heartbeat_response`] does.
    pub fn heartbeat_response(&mut self, response: &Message)
        ensures
            final(self)@ == (SessionView {
                connection: old(self)@.connection.after(
                    ConnectionEvent::HeartbeatResponse(response@),
                ),
                ..old(self)@
            }),
    {
        self.conn.heartbeat_response(response)
    }

    /// Asks the connection to close, as
    /// [`RastaConnection::close_connection`] does.
    pub fn close_connection(&mut self, timestamp: u32) -> (r: Option<Message>)
        ensures
            final(self)@ == (SessionView {
                connection: old(self)@.connection.after(ConnectionEvent::CloseRequested),
                ..old(self)@
            }),
            match r {
                Some(m) => old(self)@.connection.state == RastaConnectionState::Up && m.holds(
                    old(self)@.connection.next_header(40, MessageType::DiscReq, timestamp),
                    Seq::<u8>::empty(),
                ),
                None => old(self)@.connection.state != RastaConnectionState::Up,
            },
    {
        self.conn.close_connection(timestamp)
    }

    /// Takes note that the disconnection request was written, as
    /// [`RastaConnection::disconnection_written`] does.
    pub fn disconnection_written(&mut self)
        ensures
            final(self)@ == (SessionView {
                connection: old(self)@.connection.after(ConnectionEvent::DisconnectionWritten),
                ..old(self)@
            }),
    {
        self.conn.disconnection_written()
    }

    /// One turn of the control loop: what to do for a command. A telegram
    /// goes out as [`SCIConnection::send_telegram`] says, waiting sends a
    /// heartbeat, and disconnecting gives out the disconnection request.
    pub fn step(&mut self, command: SCICommand, timestamp: u32) -> (r: Result<
        SCIAction,
        RastaError,
    >)
        ensures
            final(self)@.name == old(self)@.name,
            final(self)@.mapping == old(self)@.mapping,
            final(self)@.connection == match command {
                SCICommand::Telegram(_) => if old(self)@.connection.state
                    == RastaConnectionState::Down {
                    old(self)@.connection
                } else {
                    old(self)@.connection.after(ConnectionEvent::DataSent)
                },
                SCICommand::Wait => old(self)@.connection.after(ConnectionEvent::HeartbeatSent),
                SCICommand::Disconnect => old(self)@.connection.after(
                    ConnectionEvent::CloseRequested,
                ),
            },
            match (command, r) {
                (SCICommand::Telegram(t), Ok(SCIAction::Open(m, back))) => old(
                    self,
                )@.connection.state == RastaConnectionState::Down && back == t && is_opening(
                    m,
                    old(self)@.connection.id,
                    lookup(old(self)@.mapping, t@.receiver),
                    timestamp,
                ),
                (SCICommand::Telegram(t), Ok(SCIAction::SendTelegram(m))) => old(
                    self,
                )@.connection.state == RastaConnectionState::Up && m.holds(
                    old(self)@.connection.next_header(
                        (36 + encode_telegram(t@).len()) as u16,
                        MessageType::Data,
                        timestamp,
                    ),
                    encode_telegram(t@),
                ),
                (SCICommand::Telegram(t), Err(e)) => if old(self)@.connection.state
                    == RastaConnectionState::Down {
                    lookup(old(self)@.mapping, t@.receiver) is None && e
                        == RastaError::MissingRastaId
                } else {
                    old(self)@.connection.state != RastaConnectionState::Up && e
                        == RastaError::StateError
                },
                (SCICommand::Wait, Ok(SCIAction::SendHeartbeat(m))) => old(self)@.connection.state
                    == RastaConnectionState::Up && m.holds(
                    old(self)@.connection.next_header(36, MessageType::HB, timestamp),
                    Seq::<u8>::empty(),
                ),
                (SCICommand::Wait, Err(e)) => old(self)@.connection.state
                    != RastaConnectionState::Up && e == RastaError::StateError,
                (SCICommand::Disconnect, Ok(SCIAction::Disconnect(Some(m)))) => old(
                    self,
                )@.connection.state == RastaConnectionState::Up && m.holds(
                    old(self)@.connection.next_header(40, MessageType::DiscReq, timestamp),
                    Seq::<u8>::empty(),
                ),
                (SCICommand::Disconnect, Ok(SCIAction::Disconnect(None))) => old(
                    self,
                )@.connection.state != RastaConnectionState::Up,
                _ => false,
            },
    {
        match command {
            SCICommand::Telegram(telegram) => {
                match self.send_telegram(&telegram, timestamp)? {
                    SCISend::Open(request) => Ok(SCIAction::Open(request, telegram)),
                    SCISend::Data(message) => Ok(SCIAction::SendTelegram(message)),
                }
            },
            SCICommand::Wait => {
                let message = self.send_heartbeat(timestamp)?;
                Ok(SCIAction::SendHeartbeat(message))
            },
            SCICommand::Disconnect => Ok(SCIAction::Disconnect(self.close_connection(timestamp))),
        }
    }
}

/// A listening SCI endpoint: a RaSTA listener and the name of this end.
#[derive(Debug)]
pub struct SCIListener {
    listener: RastaListener,
    name: String,
}

impl SCIListener {
    /// The RaSTA listener below, as a value of specifications.
    pub closed spec fn listener_view(&self) -> ListenerView {
        self.listener@
    }

    /// The name of this end, as a value of specifications.
    pub closed spec fn name_view(&self) -> Seq<char> {
        self.name@
    }

    /// An SCI listener over a RaSTA listener.
    pub fn new(listener: RastaListener, name: String) -> (l: SCIListener)
        ensures
            l.listener_view() == listener@,
            l.name_view() == name@,
    {
        SCIListener { listener, name }
    }

    /// The name of this end.
    pub fn name(&self) -> (name: &str)
        ensures
            name@ == self.name_view(),
    {
        self.name.as_str()
    }

    /// Takes one message of the running stream, as
    /// [`RastaListener::handle_message`] does.
    pub fn handle_message(&mut self, message: &Message, now: u64, timestamp: u32) -> (r: Result<
        ListenerAction,
        RastaError,
    >)
        ensures
            final(self).name_view() == old(self).name_view(),
            match r {
                Ok(action) => {
                    &&& !old(self).listener_view().rejects(header_of(message@))
                    &&& final(self).listener_view() == old(self).listener_view().after_message(
                        header_of(message@),
                        now,
                    )
                    &&& action@ == old(self).listener_view().action(
                        header_of(message@),
                        now,
                        timestamp,
                    )
                },
                Err(e) => {
                    &&& old(self).listener_view().rejects(header_of(message@))
                    &&& e == RastaError::InvalidSeqNr
                    &&& final(self).listener_view() == old(self).listener_view()
                },
            },
    {
        self.listener.handle_message(message, now, timestamp)
    }

    /// The telegram that a delivered message carries. Fails as
    /// [`SCITelegram::try_from`] does if its data is no telegram.
    pub fn telegram(message: &Message) -> (r: Result<SCITelegram, SciError>)
        ensures
            match r {
                Ok(t) => decode_telegram(message.spec_data()) == Ok::<TelegramView, SciError>(t@),
                Err(e) => decode_telegram(message.spec_data()) == Err::<TelegramView, SciError>(
                    e,
                ),
            },
    {
        SCITelegram::try_from(message.data())
    }

    /// The answer to a delivered telegram: a data message with the user's
    /// telegram, or a heartbeat if the user has none.
    pub fn telegram_response(
        &self,
        message: &Message,
        response: Option<&SCITelegram>,
        timestamp: u32,
    ) -> (m: Message)
        ensures
            match response {
                Some(t) => m.holds(
                    ListenerView::answer(
                        header_of(message@),
                        (36 + encode_telegram(t@).len()) as u16,
                        MessageType::Data,
                        self.listener_view().id,
                        self.listener_view().answer_sequence_number(header_of(message@)),
                        timestamp,
                    ),
                    encode_telegram(t@),
                ),
                None => m.holds(
                    ListenerView::answer(
                        header_of(message@),
                        36,
                        MessageType::HB,
                        self.listener_view().id,
                        self.listener_view().answer_sequence_number(header_of(message@)),
                        timestamp,
                    ),
                    Seq::<u8>::empty(),
                ),
            },
    {
        match response {
            Some(telegram) => {
                let data = telegram.encode();
                self.listener.data_response(message, Some(data.as_slice()), timestamp)
            },
            None => self.listener.data_response(message, None, timestamp),
        }
    }

    /// Takes note that the stream broke or ended, as
    /// [`RastaListener::connection_lost`] does.
    pub fn connection_lost(&mut self) -> (peer: Option<RastaId>)
        ensures
            final(self).name_view() == old(self).name_view(),
            final(self).listener_view() == old(self).listener_view().after_loss(),
            peer == old(self).listener_view().lost_peer(),
    {
        self.listener.connection_lost()
    }
}

} // verus!
