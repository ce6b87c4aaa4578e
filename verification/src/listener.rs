//! The server side of RaSTA, as a state machine.
//!
//! The listener owns no socket and no clock. The owner of the socket
//! accepts one stream at a time, reads frame by frame and hands each
//! message to [`RastaListener::handle_message`], together with the current
//! time; the listener says what to answer and whether to go on reading.

use crate::error::RastaError;
use crate::message::{
    connection_data, frame, header_of, next_sequence_number, zero_code, Header, Message,
    MessageType, RastaId, MAX_DATA_LEN,
};
use crate::{N_SENDMAX, RASTA_TIMEOUT_MS};
use vstd::prelude::*;

verus! {

/// What the owner of the stream has to do after a message.
#[derive(Debug)]
pub enum ListenerAction {
    /// Nothing: read the next frame.
    Continue,
    /// Send the message, then read the next frame.
    Reply(Message),
    /// Send the message and leave this stream: the peer was idle for too
    /// long.
    ReplyAndClose(Message),
    /// Leave this stream: the peer has disconnected.
    Close,
    /// Hand the message to the user, and send what
    /// [`RastaListener::data_response`] makes of the user's answer.
    Deliver,
    /// The message belongs to retransmission, which is left to the
    /// transport below: there is no way to go on from here.
    Unsupported,
}

/// What a [`ListenerAction`] says, with frames in place of messages.
pub enum ActionView {
    Continue,
    Reply(Seq<u8>),
    ReplyAndClose(Seq<u8>),
    Close,
    Deliver,
    Unsupported,
}

impl View for ListenerAction {
    type V = ActionView;

    open spec fn view(&self) -> ActionView {
        match self {
            ListenerAction::Continue => ActionView::Continue,
            ListenerAction::Reply(m) => ActionView::Reply(m@),
            ListenerAction::ReplyAndClose(m) => ActionView::ReplyAndClose(m@),
            ListenerAction::Close => ActionView::Close,
            ListenerAction::Deliver => ActionView::Deliver,
            ListenerAction::Unsupported => ActionView::Unsupported,
        }
    }
}

/// Where a peer stands first among the connected peers. Meaningful if it
/// is among them.
pub open spec fn first_index(peers: Seq<RastaId>, peer: RastaId) -> int {
    peers.index_of_first(peer).unwrap()
}

/// The peers without one of them: the list as it is if the peer is not in
/// it.
pub open spec fn without(peers: Seq<RastaId>, peer: RastaId) -> Seq<RastaId> {
    if peers.contains(peer) {
        peers.remove(first_index(peers, peer))
    } else {
        peers
    }
}

/// Taking a peer out of a set of peers leaves a set without that peer, in
/// which every other peer is exactly if it was before.
pub proof fn lemma_without(peers: Seq<RastaId>, peer: RastaId, other: RastaId)
    requires
        peers.no_duplicates(),
    ensures
        without(peers, peer).no_duplicates(),
        !without(peers, peer).contains(peer),
        other != peer ==> (without(peers, peer).contains(other) <==> peers.contains(other)),
{
    if peers.contains(peer) {
        peers.index_of_first_ensures(peer);
        let at = first_index(peers, peer);
        let rest = peers.remove(at);
        assert forall|i: int, j: int|
            0 <= i < rest.len() && 0 <= j < rest.len() && i != j implies rest[i] != rest[j] by {
            let a = if i < at { i } else { i + 1 };
            let b = if j < at { j } else { j + 1 };
            assert(rest[i] == peers[a]);
            assert(rest[j] == peers[b]);
        }
        assert forall|i: int| 0 <= i < rest.len() implies rest[i] != peer by {
            let a = if i < at { i } else { i + 1 };
            assert(rest[i] == peers[a]);
        }
        if other != peer {
            if peers.contains(other) {
                let k = choose|k: int| 0 <= k < peers.len() && peers[k] == other;
                let i = if k < at { k } else { k - 1 };
                assert(rest[i] == other);
            }
            if rest.contains(other) {
                let i = choose|i: int| 0 <= i < rest.len() && rest[i] == other;
                let a = if i < at { i } else { i + 1 };
                assert(peers[a] == other);
            }
        }
    }
}

/// What a listener knows.
pub struct ListenerView {
    /// The ids of the connected peers, each once, in the order in which
    /// they came.
    pub connections: Seq<RastaId>,
    pub id: RastaId,
    /// The sequence number that the next message has to confirm, once
    /// there is one.
    pub seq_nr: Option<u32>,
    /// When the last message of the running session came, in milliseconds
    /// of the caller's clock.
    pub last_message: Option<u64>,
    /// The peer of the running stream: the sender of its connection
    /// request, once there was one.
    pub peer: Option<RastaId>,
}

impl ListenerView {
    /// A listener that has seen nothing yet.
    pub open spec fn initial(id: RastaId) -> ListenerView {
        ListenerView {
            connections: Seq::empty(),
            id,
            seq_nr: None,
            last_message: None,
            peer: None,
        }
    }

    /// What holds of every listener: the connected peers are a set, no id
    /// is among them twice.
    pub open spec fn wf(self) -> bool {
        self.connections.no_duplicates()
    }

    /// Whether a message confirms the wrong sequence number.
    pub open spec fn rejects(self, h: Header) -> bool {
        self.seq_nr matches Some(expected) && h.confirmed_sequence_number != expected
    }

    /// Whether more than the RaSTA timeout has passed since the last
    /// message.
    pub open spec fn timed_out(self, now: u64) -> bool {
        self.last_message matches Some(last) && now > last && now - last > RASTA_TIMEOUT_MS
    }

    /// Whether a peer is connected.
    pub open spec fn knows(self, peer: RastaId) -> bool {
        self.connections.contains(peer)
    }

    /// The listener after a message that it did not reject.
    pub open spec fn after_message(self, h: Header, now: u64) -> ListenerView {
        if self.timed_out(now) {
            ListenerView { last_message: None, peer: None, ..self }
        } else {
            let seen = ListenerView {
                seq_nr: Some(h.sequence_number),
                last_message: Some(now),
                ..self
            };
            match h.message_type {
                MessageType::ConnReq => ListenerView {
                    connections: if self.knows(h.sender) {
                        self.connections
                    } else {
                        self.connections.push(h.sender)
                    },
                    seq_nr: Some(next_sequence_number(h.sequence_number)),
                    peer: Some(h.sender),
                    ..seen
                },
                MessageType::DiscReq => ListenerView {
                    connections: without(self.connections, h.sender),
                    last_message: None,
                    peer: None,
                    ..seen
                },
                MessageType::HB => if self.knows(h.sender) {
                    ListenerView { seq_nr: Some(next_sequence_number(h.sequence_number)), ..seen }
                } else {
                    seen
                },
                _ => seen,
            }
        }
    }

    /// The header of an answer to a message: it goes back to the sender,
    /// confirms the message's sequence number and timestamp.
    pub open spec fn answer(
        h: Header,
        length: u16,
        message_type: MessageType,
        sender: RastaId,
        sequence_number: u32,
        timestamp: u32,
    ) -> Header {
        Header {
            length,
            message_type,
            receiver: h.sender,
            sender,
            sequence_number,
            confirmed_sequence_number: h.sequence_number,
            timestamp,
            confirmed_timestamp: h.timestamp,
        }
    }

    /// What to do after a message that the listener did not reject.
    ///
    /// After too long a silence the answer is a disconnection request, and
    /// the stream is left. Else a connection request gets a connection
    /// response; a disconnection request ends the session, whoever sent
    /// it; a heartbeat of a connected peer gets a heartbeat; data of a
    /// connected peer is delivered; retransmission is not supported; and
    /// all else is passed over.
    pub open spec fn action(self, h: Header, now: u64, timestamp: u32) -> ActionView {
        if self.timed_out(now) {
            ActionView::ReplyAndClose(
                frame(
                    ListenerView::answer(
                        h,
                        40,
                        MessageType::DiscReq,
                        h.receiver,
                        next_sequence_number(h.sequence_number),
                        timestamp,
                    ),
                    Seq::empty(),
                    zero_code(),
                ),
            )
        } else {
            match h.message_type {
                MessageType::ConnReq => ActionView::Reply(
                    frame(
                        ListenerView::answer(
                            h,
                            50,
                            MessageType::ConnResp,
                            h.receiver,
                            next_sequence_number(h.sequence_number),
                            timestamp,
                        ),
                        connection_data(N_SENDMAX),
                        zero_code(),
                    ),
                ),
                MessageType::ConnResp => ActionView::Continue,
                MessageType::DiscReq => ActionView::Close,
                MessageType::HB => if self.knows(h.sender) {
                    ActionView::Reply(
                        frame(
                            ListenerView::answer(
                                h,
                                36,
                                MessageType::HB,
                                h.receiver,
                                next_sequence_number(h.sequence_number),
                                timestamp,
                            ),
                            Seq::empty(),
                            zero_code(),
                        ),
                    )
                } else {
                    ActionView::Continue
                },
                MessageType::Data => if self.knows(h.sender) {
                    ActionView::Deliver
                } else {
                    ActionView::Continue
                },
                MessageType::RetrReq | MessageType::RetrResp | MessageType::RetrData =>
                    ActionView::Unsupported,
            }
        }
    }

    /// The listener after its stream broke or ended: the peer of that
    /// stream is gone, every other peer is kept, and the next session
    /// starts afresh.
    pub open spec fn after_loss(self) -> ListenerView {
        ListenerView {
            connections: match self.peer {
                Some(peer) => without(self.connections, peer),
                None => self.connections,
            },
            seq_nr: None,
            last_message: None,
            peer: None,
            ..self
        }
    }

    /// The peer that the loss of the stream takes out of the connected
    /// peers, if any.
    pub open spec fn lost_peer(self) -> Option<RastaId> {
        match self.peer {
            Some(peer) => if self.knows(peer) {
                Some(peer)
            } else {
                None
            },
            None => None,
        }
    }

    /// The sequence number of an answer to delivered data: the one that
    /// the next message has to confirm.
    pub open spec fn answer_sequence_number(self, h: Header) -> u32 {
        match self.seq_nr {
            Some(n) => n,
            None => h.sequence_number,
        }
    }
}

/// Every message leaves the connected peers a set.
pub proof fn lemma_listener_stays_wf(v: ListenerView, h: Header, now: u64)
    requires
        v.wf(),
    ensures
        v.after_message(h, now).wf(),
{
    let peers = v.connections;
    lemma_without(peers, h.sender, h.sender);
    if !v.knows(h.sender) {
        let more = peers.push(h.sender);
        assert forall|i: int, j: int|
            0 <= i < more.len() && 0 <= j < more.len() && i != j implies more[i] != more[j] by {
            if i < peers.len() {
                assert(peers.contains(more[i]));
            }
            if j < peers.len() {
                assert(peers.contains(more[j]));
            }
        }
    }
}

/// The loss of a stream leaves the connected peers a set. The peer of the
/// stream is no longer among them, and every other peer is among them
/// exactly if it was before.
pub proof fn lemma_lost_peer_is_gone(v: ListenerView, other: RastaId)
    requires
        v.wf(),
    ensures
        v.after_loss().wf(),
        v.peer matches Some(peer) ==> !v.after_loss().knows(peer),
        v.peer != Some(other) ==> (v.after_loss().knows(other) <==> v.knows(other)),
{
    match v.peer {
        Some(peer) => {
            lemma_without(v.connections, peer, other);
        },
        None => {},
    }
}

/// After a disconnection request that came in time, its sender is no
/// longer among the connected peers, and every other peer is among them
/// exactly if it was before.
pub proof fn lemma_disconnected_peer_is_gone(v: ListenerView, h: Header, now: u64, peer: RastaId)
    requires
        v.wf(),
        !v.timed_out(now),
        h.message_type == MessageType::DiscReq,
    ensures
        !v.after_message(h, now).knows(h.sender),
        peer != h.sender ==> (v.after_message(h, now).knows(peer) <==> v.knows(peer)),
{
    lemma_without(v.connections, h.sender, peer);
}

/// A copy of a list of peers, to be changed and put in its place.
fn copy_of(peers: &Vec<RastaId>) -> (copy: Vec<RastaId>)
    ensures
        copy@ == peers@,
{
    let copy = peers.clone();
    assert(copy@ =~= peers@);
    copy
}

/// The server side of RaSTA.
#[derive(Debug)]
pub struct RastaListener {
    connections: Vec<RastaId>,
    id: RastaId,
    seq_nr: Option<u32>,
    last_message: Option<u64>,
    peer: Option<RastaId>,
}

impl View for RastaListener {
    type V = ListenerView;

    closed spec fn view(&self) -> ListenerView {
        ListenerView {
            connections: self.connections@,
            id: self.id,
            seq_nr: self.seq_nr,
            last_message: self.last_message,
            peer: self.peer,
        }
    }
}

impl RastaListener {
    /// What holds of every listener: see [`ListenerView::wf`].
    #[verifier::type_invariant]
    pub open spec fn inv(&self) -> bool {
        self@.wf()
    }

    /// A listener with the given id, which has seen nothing yet.
    pub fn new(id: RastaId) -> (l: RastaListener)
        ensures
            l@ == ListenerView::initial(id),
    {
        RastaListener {
            connections: Vec::new(),
            id,
            seq_nr: None,
            last_message: None,
            peer: None,
        }
    }

    /// The id of this end.
    pub fn id(&self) -> (id: RastaId)
        ensures
            id == self@.id,
    {
        self.id
    }

    /// The ids of the connected peers, each once.
    pub fn connections(&self) -> (peers: &[RastaId])
        ensures
            peers@ == self@.connections,
            peers@.no_duplicates(),
    {
        proof {
            use_type_invariant(self);
        }
        self.connections.as_slice()
    }

    /// The sequence number that the next message has to confirm, once
    /// there is one.
    pub fn sequence_number(&self) -> (n: Option<u32>)
        ensures
            n == self@.seq_nr,
    {
        self.seq_nr
    }

    fn position(&self, peer: RastaId) -> (at: Option<usize>)
        ensures
            match at {
                Some(i) => self@.knows(peer) && i == first_index(self@.connections, peer) && i
                    < self@.connections.len(),
                None => !self@.knows(peer),
            },
    {
        let mut i: usize = 0;
        while i < self.connections.len()
            invariant
                i <= self.connections.len(),
                forall|k: int| 0 <= k < i ==> self.connections@[k] != peer,
            decreases self.connections.len() - i,
        {
            if self.connections[i] == peer {
                proof {
                    let s = self.connections@;
                    assert(s[i as int] == peer);
                    s.index_of_first_ensures(peer);
                }
                return Some(i);
            }
            i += 1;
        }
        proof {
            let s = self.connections@;
            if s.contains(peer) {
                let k = choose|k: int| 0 <= k < s.len() && s[k] == peer;
                assert(false);
            }
        }
        None
    }

    /// Takes one message of the running stream. `now` is the time of a
    /// clock that counts milliseconds, `timestamp` the time in seconds
    /// since the epoch.
    ///
    /// Fails with [`RastaError::InvalidSeqNr`], and changes nothing, if a
    /// sequence number is expected and the message confirms another. Else
    /// the listener moves on as [`ListenerView::after_message`] says, and
    /// the result is the action that [`ListenerView::action`] gives.
    pub fn handle_message(&mut self, message: &Message, now: u64, timestamp: u32) -> (r: Result<
        ListenerAction,
        RastaError,
    >)
        ensures
            match r {
                Ok(action) => {
                    &&& !old(self)@.rejects(header_of(message@))
                    &&& final(self)@ == old(self)@.after_message(header_of(message@), now)
                    &&& action@ == old(self)@.action(header_of(message@), now, timestamp)
                },
                Err(e) => {
                    &&& old(self)@.rejects(header_of(message@))
                    &&& e == RastaError::InvalidSeqNr
                    &&& final(self)@ == old(self)@
                },
            },
    {
        let sequence_number = message.sequence_number();
        let sender = message.sender();
        proof {
            use_type_invariant(&*self);
            lemma_listener_stays_wf(self@, header_of(message@), now);
        }
        if let Some(expected) = self.seq_nr {
            if message.confirmed_sequence_number() != expected {
                return Err(RastaError::InvalidSeqNr);
            }
        }
        if let Some(last) = self.last_message {
            if now > last && now - last > RASTA_TIMEOUT_MS {
                let response = Message::disconnection_request(
                    sender,
                    message.receiver(),
                    sequence_number.wrapping_add(1),
                    sequence_number,
                    timestamp,
                    message.timestamp(),
                );
                self.last_message = None;
                self.peer = None;
                return Ok(ListenerAction::ReplyAndClose(response));
            }
        }
        self.seq_nr = Some(sequence_number);
        self.last_message = Some(now);
        match message.message_type() {
            MessageType::ConnReq => {
                let response = Message::connection_response(
                    sender,
                    message.receiver(),
                    sequence_number,
                    timestamp,
                    message.timestamp(),
                    N_SENDMAX,
                );
                self.seq_nr = Some(sequence_number.wrapping_add(1));
                if self.position(sender).is_none() {
                    let mut peers = copy_of(&self.connections);
                    peers.push(sender);
                    self.connections = peers;
                }
                self.peer = Some(sender);
                Ok(ListenerAction::Reply(response))
            },
            MessageType::ConnResp => Ok(ListenerAction::Continue),
            MessageType::DiscReq => {
                self.remove_peer(sender);
                self.last_message = None;
                self.peer = None;
                Ok(ListenerAction::Close)
            },
            MessageType::HB => {
                match self.position(sender) {
                    Some(_) => {
                        let next = sequence_number.wrapping_add(1);
                        self.seq_nr = Some(next);
                        let response = Message::heartbeat(
                            sender,
                            message.receiver(),
                            next,
                            sequence_number,
                            timestamp,
                            message.timestamp(),
                        );
                        Ok(ListenerAction::Reply(response))
                    },
                    None => Ok(ListenerAction::Continue),
                }
            },
            MessageType::Data => {
                match self.position(sender) {
                    Some(_) => Ok(ListenerAction::Deliver),
                    None => Ok(ListenerAction::Continue),
                }
            },
            _ => Ok(ListenerAction::Unsupported),
        }
    }

    /// The answer to delivered data: a data message with the user's bytes,
    /// or a heartbeat if the user has none. It goes to the sender of the
    /// message, comes from this listener, and carries and confirms the
    /// message's sequence number.
    pub fn data_response(&self, message: &Message, response: Option<&[u8]>, timestamp: u32) -> (m:
        Message)
        requires
            response matches Some(data) ==> data.len() <= MAX_DATA_LEN,
        ensures
            match response {
                Some(data) => m.holds(
                    ListenerView::answer(
                        header_of(message@),
                        (36 + data@.len()) as u16,
                        MessageType::Data,
                        self@.id,
                        self@.answer_sequence_number(header_of(message@)),
                        timestamp,
                    ),
                    data@,
                ),
                None => m.holds(
                    ListenerView::answer(
                        header_of(message@),
                        36,
                        MessageType::HB,
                        self@.id,
                        self@.answer_sequence_number(header_of(message@)),
                        timestamp,
                    ),
                    Seq::<u8>::empty(),
                ),
            },
    {
        let confirmed = message.sequence_number();
        let sequence_number = match self.seq_nr {
            Some(n) => n,
            None => confirmed,
        };
        match response {
            Some(data) => Message::data_message(
                message.sender(),
                self.id,
                sequence_number,
                confirmed,
                timestamp,
                message.timestamp(),
                data,
            ),
            None => Message::heartbeat(
                message.sender(),
                self.id,
                sequence_number,
                confirmed,
                timestamp,
                message.timestamp(),
            ),
        }
    }

    /// Takes a peer out of the connected peers, if it is among them.
    fn remove_peer(&mut self, peer: RastaId) -> (was_known: bool)
        ensures
            was_known == old(self)@.knows(peer),
            final(self)@ == (ListenerView {
                connections: without(old(self)@.connections, peer),
                ..old(self)@
            }),
    {
        proof {
            use_type_invariant(&*self);
            lemma_without(self@.connections, peer, peer);
        }
        match self.position(peer) {
            Some(at) => {
                let mut peers = copy_of(&self.connections);
                peers.remove(at);
                self.connections = peers;
                true
            },
            None => false,
        }
    }

    /// The peer of the running stream: the sender of its connection
    /// request, once there was one.
    pub fn peer(&self) -> (peer: Option<RastaId>)
        ensures
            peer == self@.peer,
    {
        self.peer
    }

    /// Takes note that the stream broke or ended: the peer of the stream
    /// is taken out of the connected peers, every other peer is kept, and
    /// no sequence number is expected any more. The result is the peer
    /// that was taken out, if any.
    pub fn connection_lost(&mut self) -> (peer: Option<RastaId>)
        ensures
            final(self)@ == old(self)@.after_loss(),
            peer == old(self)@.lost_peer(),
    {
        proof {
            use_type_invariant(&*self);
            lemma_lost_peer_is_gone(self@, 0);
        }
        let lost = match self.peer {
            Some(peer) => if self.remove_peer(peer) {
                Some(peer)
            } else {
                None
            },
            None => None,
        };
        self.seq_nr = None;
        self.last_message = None;
        self.peer = None;
        lost
    }
}

} // verus!
