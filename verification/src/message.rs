//! RaSTA frames: their layout, the typed constructors and the decoder.
//!
//! A frame is `length` bytes long. The header fields stand at fixed
//! offsets, the data starts at offset 34, and the last eight bytes are
//! reserved for the security code. Header integers are little-endian.
//!
//! | Offset | Size | Field |
//! |---|---|---|
//! | 0 | 2 | total length |
//! | 3 | 2 | message type code |
//! | 6 | 4 | receiver id |
//! | 10 | 4 | sender id |
//! | 15 | 4 | sequence number |
//! | 19 | 4 | confirmed sequence number |
//! | 24 | 4 | timestamp |
//! | 29 | 4 | confirmed timestamp |
//! | 34 | variable | data |
//! | length - 8 | 8 | security code |
//!
//! The shortest frame has 36 bytes, so the security code area reaches back
//! into the header or the data. Where it does, header and data win: of the
//! security code only the bytes that lie behind the data are in the frame,
//! and the others count as zero. Every byte that no field covers is zero,
//! and so is the security code of every message that this crate
//! constructs.

use crate::error::RastaError;
use crate::wire::{get_u16, get_u32, put_bytes, put_u16, put_u32, u16_at, u16_byte, u32_at, u32_byte};
use vstd::prelude::*;
use vstd::slice::slice_subrange;

verus! {

/// Identifies an endpoint within a RaSTA network.
pub type RastaId = u32;

/// Offset of the data within a frame.
pub const DATA_OFFSET: usize = 34;

/// Length of the shortest frame, and of a heartbeat.
pub const MIN_LENGTH: u16 = 36;

/// Length of a connection request or response.
pub const CONNECTION_LENGTH: u16 = 50;

/// Length of a disconnection request.
pub const DISCONNECTION_LENGTH: u16 = 40;

/// Length of the data of a connection request or response.
pub const CONNECTION_DATA_LEN: usize = 14;

/// The longest data a data message can carry: its length must fit the
/// 16-bit length field.
pub const MAX_DATA_LEN: usize = 65499;

/// Length of the security code.
pub const SECURITY_CODE_LEN: usize = 8;

/// The protocol version `"0301"` that opens the data of a connection
/// request or response.
pub const RASTA_VERSION: [u8; 4] = [0x30, 0x33, 0x30, 0x31];

/// The bytes of [`RASTA_VERSION`].
pub open spec fn spec_rasta_version() -> Seq<u8> {
    seq![0x30u8, 0x33u8, 0x30u8, 0x31u8]
}

/// The constant [`RASTA_VERSION`] holds the bytes of
/// [`spec_rasta_version`].
pub proof fn lemma_rasta_version()
    ensures
        RASTA_VERSION@ == spec_rasta_version(),
{
    assert(RASTA_VERSION@ =~= spec_rasta_version());
}

/// The kinds of RaSTA messages.
#[derive(Debug, Clone, Copy, PartialEq, Eq, Structural)]
pub enum MessageType {
    ConnReq,
    ConnResp,
    RetrReq,
    RetrResp,
    DiscReq,
    HB,
    Data,
    RetrData,
}

impl MessageType {
    /// The code that stands for this kind in a frame.
    pub open spec fn spec_code(self) -> u16 {
        match self {
            MessageType::ConnReq => 6200,
            MessageType::ConnResp => 6201,
            MessageType::RetrReq => 6212,
            MessageType::RetrResp => 6213,
            MessageType::DiscReq => 6216,
            MessageType::HB => 6220,
            MessageType::Data => 6240,
            MessageType::RetrData => 6241,
        }
    }

    /// The kind that a code stands for, if any.
    pub open spec fn from_code(code: u16) -> Option<MessageType> {
        if code == 6200 {
            Some(MessageType::ConnReq)
        } else if code == 6201 {
            Some(MessageType::ConnResp)
        } else if code == 6212 {
            Some(MessageType::RetrReq)
        } else if code == 6213 {
            Some(MessageType::RetrResp)
        } else if code == 6216 {
            Some(MessageType::DiscReq)
        } else if code == 6220 {
            Some(MessageType::HB)
        } else if code == 6240 {
            Some(MessageType::Data)
        } else if code == 6241 {
            Some(MessageType::RetrData)
        } else {
            None
        }
    }

    /// Whether frames of this kind carry retransmission traffic, which this
    /// implementation leaves to the reliable transport below it.
    pub open spec fn spec_is_retransmission(self) -> bool {
        self == MessageType::RetrReq || self == MessageType::RetrResp || self
            == MessageType::RetrData
    }

    /// The code that stands for this kind in a frame.
    #[verifier::when_used_as_spec(spec_code)]
    pub fn code(self) -> (code: u16)
        ensures
            code == self.spec_code(),
    {
        match self {
            MessageType::ConnReq => 6200,
            MessageType::ConnResp => 6201,
            MessageType::RetrReq => 6212,
            MessageType::RetrResp => 6213,
            MessageType::DiscReq => 6216,
            MessageType::HB => 6220,
            MessageType::Data => 6240,
            MessageType::RetrData => 6241,
        }
    }

    /// The kind that `value` stands for. Fails with
    /// [`RastaError::UnknownMessageType`] on every other value.
    pub fn try_from(value: u16) -> (kind: Result<MessageType, RastaError>)
        ensures
            kind == match MessageType::from_code(value) {
                Some(k) => Ok::<MessageType, RastaError>(k),
                None => Err(RastaError::UnknownMessageType(value)),
            },
    {
        match value {
            6200 => Ok(MessageType::ConnReq),
            6201 => Ok(MessageType::ConnResp),
            6212 => Ok(MessageType::RetrReq),
            6213 => Ok(MessageType::RetrResp),
            6216 => Ok(MessageType::DiscReq),
            6220 => Ok(MessageType::HB),
            6240 => Ok(MessageType::Data),
            6241 => Ok(MessageType::RetrData),
            n => Err(RastaError::UnknownMessageType(n)),
        }
    }

    /// Whether this kind is one of the three retransmission kinds.
    #[verifier::when_used_as_spec(spec_is_retransmission)]
    pub fn is_retransmission(self) -> (b: bool)
        ensures
            b == self.spec_is_retransmission(),
    {
        match self {
            MessageType::RetrReq => true,
            MessageType::RetrResp => true,
            MessageType::RetrData => true,
            _ => false,
        }
    }
}

/// Every kind is found again from its code.
pub proof fn lemma_message_type_round_trip(kind: MessageType)
    ensures
        MessageType::from_code(kind.spec_code()) == Some(kind),
{
}

/// A code that stands for a kind is the code of that kind.
pub proof fn lemma_message_type_code_unique(code: u16)
    ensures
        MessageType::from_code(code) matches Some(kind) ==> kind.spec_code() == code,
{
}

/// The fixed fields of a frame.
#[derive(Debug, Clone, Copy, PartialEq, Eq, Structural)]
pub struct Header {
    pub length: u16,
    pub message_type: MessageType,
    pub receiver: RastaId,
    pub sender: RastaId,
    pub sequence_number: u32,
    pub confirmed_sequence_number: u32,
    pub timestamp: u32,
    pub confirmed_timestamp: u32,
}

/// How many data bytes a frame of the given kind and length carries:
/// fourteen in a connection request or response, none in a heartbeat, a
/// retransmission request or response or a disconnection request, and all
/// but 36 bytes of a data message.
pub open spec fn data_len(kind: MessageType, length: u16) -> int {
    match kind {
        MessageType::ConnReq | MessageType::ConnResp => 14,
        MessageType::Data | MessageType::RetrData => length - 36,
        _ => 0,
    }
}

/// Whether `length` is a length that a frame of the given kind may have.
pub open spec fn length_fits(kind: MessageType, length: u16) -> bool {
    match kind {
        MessageType::ConnReq | MessageType::ConnResp => length == 50,
        MessageType::DiscReq => length == 40,
        MessageType::Data | MessageType::RetrData => length >= 36,
        _ => length == 36,
    }
}

/// Whether a header and data go together: the length is the one that the
/// kind asks for.
pub open spec fn header_fits(h: Header, data: Seq<u8>) -> bool {
    &&& length_fits(h.message_type, h.length)
    &&& data.len() == data_len(h.message_type, h.length)
}

/// Byte `i` of the frame with the given header, data and security code.
pub open spec fn frame_byte(h: Header, data: Seq<u8>, security_code: Seq<u8>, i: int) -> u8 {
    if 0 <= i < 2 {
        u16_byte(h.length, i)
    } else if 3 <= i < 5 {
        u16_byte(h.message_type.spec_code(), i - 3)
    } else if 6 <= i < 10 {
        u32_byte(h.receiver, i - 6)
    } else if 10 <= i < 14 {
        u32_byte(h.sender, i - 10)
    } else if 15 <= i < 19 {
        u32_byte(h.sequence_number, i - 15)
    } else if 19 <= i < 23 {
        u32_byte(h.confirmed_sequence_number, i - 19)
    } else if 24 <= i < 28 {
        u32_byte(h.timestamp, i - 24)
    } else if 29 <= i < 33 {
        u32_byte(h.confirmed_timestamp, i - 29)
    } else if 34 <= i < 34 + data.len() {
        data[i - 34]
    } else if 34 <= i && h.length - 8 <= i < h.length && security_code.len() == 8 {
        security_code[i - (h.length - 8)]
    } else {
        0
    }
}

/// The frame with the given header, data and security code.
pub open spec fn frame(h: Header, data: Seq<u8>, security_code: Seq<u8>) -> Seq<u8> {
    Seq::new(h.length as nat, |i: int| frame_byte(h, data, security_code, i))
}

/// Eight zero bytes: the security code of every message that this crate
/// constructs.
pub open spec fn zero_code() -> Seq<u8> {
    Seq::new(8, |i: int| 0u8)
}

/// The header that a well-formed frame carries.
pub open spec fn header_of(s: Seq<u8>) -> Header {
    Header {
        length: u16_at(s, 0),
        message_type: MessageType::from_code(u16_at(s, 3)).unwrap(),
        receiver: u32_at(s, 6),
        sender: u32_at(s, 10),
        sequence_number: u32_at(s, 15),
        confirmed_sequence_number: u32_at(s, 19),
        timestamp: u32_at(s, 24),
        confirmed_timestamp: u32_at(s, 29),
    }
}

/// The data that a well-formed frame carries.
pub open spec fn data_of(s: Seq<u8>) -> Seq<u8> {
    s.subrange(34, 34 + data_len(header_of(s).message_type, header_of(s).length))
}

/// The security code that a well-formed frame carries: eight bytes, of
/// which those that lie behind the data are the frame's, and those whose
/// place header or data take up are zero.
pub open spec fn security_code_of(s: Seq<u8>) -> Seq<u8> {
    Seq::new(
        8,
        |k: int|
            if s.len() - 8 + k >= 34 + data_len(header_of(s).message_type, header_of(s).length) {
                s[s.len() - 8 + k]
            } else {
                0u8
            },
    )
}

/// What is left of a security code in a frame with the given header and
/// data: its bytes that lie behind the data, and zero for the others.
pub open spec fn visible_code(h: Header, data: Seq<u8>, security_code: Seq<u8>) -> Seq<u8> {
    Seq::new(
        8,
        |k: int|
            if h.length - 8 + k >= 34 + data.len() && security_code.len() == 8 {
                security_code[k]
            } else {
                0u8
            },
    )
}

/// Why a byte sequence is not a frame, or `None` if it is one: it is
/// [`RastaError::Malformed`] if it has fewer than 36 bytes or its length
/// field differs from its length, has an
/// [`RastaError::UnknownMessageType`] if its type code is not defined, and
/// is [`RastaError::Malformed`] again if its length is not one that its
/// kind may have.
pub open spec fn frame_error(s: Seq<u8>) -> Option<RastaError> {
    if s.len() < 36 {
        Some(RastaError::Malformed)
    } else if u16_at(s, 0) != s.len() {
        Some(RastaError::Malformed)
    } else {
        match MessageType::from_code(u16_at(s, 3)) {
            None => Some(RastaError::UnknownMessageType(u16_at(s, 3))),
            Some(kind) => if length_fits(kind, u16_at(s, 0)) {
                None
            } else {
                Some(RastaError::Malformed)
            },
        }
    }
}

/// Whether a byte sequence is a frame.
pub open spec fn well_formed(s: Seq<u8>) -> bool {
    frame_error(s) is None
}

/// Length consistency: a well-formed frame is exactly as long as its
/// length field says, and at least 36 bytes long.
pub proof fn lemma_length_consistency(s: Seq<u8>)
    requires
        well_formed(s),
    ensures
        s.len() == header_of(s).length,
        header_of(s).length >= 36,
{
}

/// Round trip: the frame of any kind of message, built from a header and
/// data that fit, is well formed, so that decoding accepts it; it is as
/// long as its length field says; and every field and the data read back
/// as they were written.
pub proof fn lemma_frame_reads_back(h: Header, data: Seq<u8>, security_code: Seq<u8>)
    requires
        header_fits(h, data),
    ensures
        well_formed(frame(h, data, security_code)),
        frame(h, data, security_code).len() == h.length,
        h.length >= 36,
        header_of(frame(h, data, security_code)) == h,
        data_of(frame(h, data, security_code)) == data,
        security_code_of(frame(h, data, security_code)) == visible_code(h, data, security_code),
        security_code_of(frame(h, data, zero_code())) == zero_code(),
{
    let s = frame(h, data, security_code);
    crate::wire::lemma_u16_read_back(s, 0, h.length);
    crate::wire::lemma_u16_read_back(s, 3, h.message_type.spec_code());
    crate::wire::lemma_u32_read_back(s, 6, h.receiver);
    crate::wire::lemma_u32_read_back(s, 10, h.sender);
    crate::wire::lemma_u32_read_back(s, 15, h.sequence_number);
    crate::wire::lemma_u32_read_back(s, 19, h.confirmed_sequence_number);
    crate::wire::lemma_u32_read_back(s, 24, h.timestamp);
    crate::wire::lemma_u32_read_back(s, 29, h.confirmed_timestamp);
    lemma_message_type_round_trip(h.message_type);
    assert(data_of(s) =~= data);
    assert(security_code_of(s) =~= visible_code(h, data, security_code));
    lemma_zero_code_reads_back(h, data);
}

/// A frame that is built with a zero security code carries one.
pub proof fn lemma_zero_code_reads_back(h: Header, data: Seq<u8>)
    requires
        header_fits(h, data),
    ensures
        security_code_of(frame(h, data, zero_code())) == zero_code(),
{
    let s = frame(h, data, zero_code());
    crate::wire::lemma_u16_read_back(s, 0, h.length);
    crate::wire::lemma_u16_read_back(s, 3, h.message_type.spec_code());
    lemma_message_type_round_trip(h.message_type);
    assert(security_code_of(s) =~= zero_code());
}


/// A RaSTA frame that has been checked: it is as long as its length field
/// says, its kind is known, and its length is one that the kind may have.
#[derive(Debug)]
pub struct Message {
    content: Vec<u8>,
}

impl View for Message {
    type V = Seq<u8>;

    /// The bytes of the frame.
    closed spec fn view(&self) -> Seq<u8> {
        self.content@
    }
}

impl Clone for Message {
    fn clone(&self) -> (m: Message)
        ensures
            m@ == self@,
    {
        proof {
            use_type_invariant(self);
        }
        let content = self.content.clone();
        assert(content@ =~= self.content@);
        Message { content }
    }
}

impl Message {
    /// What holds of every message: its bytes are a well-formed frame.
    #[verifier::type_invariant]
    pub open spec fn inv(&self) -> bool {
        well_formed(self@)
    }

    /// The value of the length field.
    pub open spec fn spec_length(&self) -> u16 {
        header_of(self@).length
    }

    /// The kind of the message.
    pub open spec fn spec_message_type(&self) -> MessageType {
        header_of(self@).message_type
    }

    /// The id of the endpoint that the message is for.
    pub open spec fn spec_receiver(&self) -> RastaId {
        header_of(self@).receiver
    }

    /// The id of the endpoint that sent the message.
    pub open spec fn spec_sender(&self) -> RastaId {
        header_of(self@).sender
    }

    /// The sequence number of the message.
    pub open spec fn spec_sequence_number(&self) -> u32 {
        header_of(self@).sequence_number
    }

    /// The sequence number that the message confirms.
    pub open spec fn spec_confirmed_sequence_number(&self) -> u32 {
        header_of(self@).confirmed_sequence_number
    }

    /// When the message was sent, in seconds since the epoch.
    pub open spec fn spec_timestamp(&self) -> u32 {
        header_of(self@).timestamp
    }

    /// The timestamp that the message confirms.
    pub open spec fn spec_confirmed_timestamp(&self) -> u32 {
        header_of(self@).confirmed_timestamp
    }

    /// The data that the message carries.
    pub open spec fn spec_data(&self) -> Seq<u8> {
        data_of(self@)
    }

    /// The security code of the message.
    pub open spec fn spec_security_code(&self) -> Seq<u8> {
        security_code_of(self@)
    }

    /// Reads a frame. Succeeds exactly on the byte sequences that
    /// [`frame_error`] finds no fault with, and then keeps every byte.
    pub fn decode(bytes: &[u8]) -> (r: Result<Message, RastaError>)
        ensures
            match r {
                Ok(m) => frame_error(bytes@) is None && m@ == bytes@,
                Err(e) => frame_error(bytes@) == Some(e),
            },
    {
        if bytes.len() < 36 {
            return Err(RastaError::Malformed);
        }
        let length = get_u16(bytes, 0);
        if length as usize != bytes.len() {
            return Err(RastaError::Malformed);
        }
        let code = get_u16(bytes, 3);
        let kind = MessageType::try_from(code)?;
        let fits = match kind {
            MessageType::ConnReq | MessageType::ConnResp => length == CONNECTION_LENGTH,
            MessageType::DiscReq => length == DISCONNECTION_LENGTH,
            MessageType::Data | MessageType::RetrData => true,
            _ => length == MIN_LENGTH,
        };
        if !fits {
            return Err(RastaError::Malformed);
        }
        let content = vstd::slice::slice_to_vec(bytes);
        Ok(Message { content })
    }

    /// The bytes of the frame, as they go over the wire.
    pub fn as_bytes(&self) -> (bytes: &[u8])
        ensures
            bytes@ == self@,
            bytes@.len() == self.spec_length(),
            bytes@.len() >= 36,
    {
        proof {
            use_type_invariant(self);
        }
        self.content.as_slice()
    }

    /// The value of the length field, which is the length of the frame.
    #[verifier::when_used_as_spec(spec_length)]
    pub fn length(&self) -> (length: u16)
        ensures
            length == self.spec_length(),
            length == self@.len(),
            length >= 36,
    {
        proof {
            use_type_invariant(self);
        }
        get_u16(self.content.as_slice(), 0)
    }

    /// The kind of the message.
    #[verifier::when_used_as_spec(spec_message_type)]
    pub fn message_type(&self) -> (kind: MessageType)
        ensures
            kind == self.spec_message_type(),
    {
        proof {
            use_type_invariant(self);
        }
        let code = get_u16(self.content.as_slice(), 3);
        match MessageType::try_from(code) {
            Ok(kind) => kind,
            Err(_) => {
                proof {
                    assert(false);
                }
                MessageType::HB
            },
        }
    }

    /// The id of the endpoint that the message is for.
    #[verifier::when_used_as_spec(spec_receiver)]
    pub fn receiver(&self) -> (id: RastaId)
        ensures
            id == self.spec_receiver(),
    {
        proof {
            use_type_invariant(self);
        }
        get_u32(self.content.as_slice(), 6)
    }

    /// The id of the endpoint that sent the message.
    #[verifier::when_used_as_spec(spec_sender)]
    pub fn sender(&self) -> (id: RastaId)
        ensures
            id == self.spec_sender(),
    {
        proof {
            use_type_invariant(self);
        }
        get_u32(self.content.as_slice(), 10)
    }

    /// The sequence number of the message.
    #[verifier::when_used_as_spec(spec_sequence_number)]
    pub fn sequence_number(&self) -> (n: u32)
        ensures
            n == self.spec_sequence_number(),
    {
        proof {
            use_type_invariant(self);
        }
        get_u32(self.content.as_slice(), 15)
    }

    /// The sequence number that the message confirms.
    #[verifier::when_used_as_spec(spec_confirmed_sequence_number)]
    pub fn confirmed_sequence_number(&self) -> (n: u32)
        ensures
            n == self.spec_confirmed_sequence_number(),
    {
        proof {
            use_type_invariant(self);
        }
        get_u32(self.content.as_slice(), 19)
    }

    /// When the message was sent, in seconds since the epoch.
    #[verifier::when_used_as_spec(spec_timestamp)]
    pub fn timestamp(&self) -> (t: u32)
        ensures
            t == self.spec_timestamp(),
    {
        proof {
            use_type_invariant(self);
        }
        get_u32(self.content.as_slice(), 24)
    }

    /// The timestamp that the message confirms.
    #[verifier::when_used_as_spec(spec_confirmed_timestamp)]
    pub fn confirmed_timestamp(&self) -> (t: u32)
        ensures
            t == self.spec_confirmed_timestamp(),
    {
        proof {
            use_type_invariant(self);
        }
        get_u32(self.content.as_slice(), 29)
    }

    /// The data that the message carries: the bytes from offset 34 on, as
    /// many as [`data_len`] gives for the message's kind and length.
    pub fn data(&self) -> (data: &[u8])
        ensures
            data@ == self.spec_data(),
            data@.len() == data_len(self.spec_message_type(), self.spec_length()),
    {
        proof {
            use_type_invariant(self);
        }
        let length = self.length();
        let n: usize = match self.message_type() {
            MessageType::ConnReq | MessageType::ConnResp => CONNECTION_DATA_LEN,
            MessageType::Data | MessageType::RetrData => (length - MIN_LENGTH) as usize,
            _ => 0,
        };
        slice_subrange(self.content.as_slice(), DATA_OFFSET, DATA_OFFSET + n)
    }

    /// The security code of the message: of the last eight bytes of the
    /// frame those that lie behind the data, and zero in the place of
    /// those that header or data take up. It is zero throughout for every
    /// message that the constructors of this type build.
    pub fn security_code(&self) -> (code: [u8; 8])
        ensures
            code@ == self.spec_security_code(),
    {
        proof {
            use_type_invariant(self);
        }
        let len = self.content.len();
        let behind_data = DATA_OFFSET + self.data().len();
        let mut code = [0u8; 8];
        let mut k: usize = 0;
        while k < SECURITY_CODE_LEN
            invariant
                k <= 8,
                len == self@.len(),
                len >= 36,
                behind_data == 34 + data_len(self.spec_message_type(), self.spec_length()),
                forall|j: int|
                    0 <= j < k ==> code@[j] == if len - 8 + j >= behind_data {
                        self@[len - 8 + j]
                    } else {
                        0u8
                    },
            decreases 8 - k,
        {
            let at = len - SECURITY_CODE_LEN + k;
            if at >= behind_data {
                code[k] = self.content[at];
            } else {
                code[k] = 0;
            }
            k += 1;
        }
        assert(code@ =~= self.spec_security_code());
        code
    }
}


/// What a [`MessageBuilder`] has been told so far.
pub struct BuilderState {
    pub length: u16,
    pub message_type: Option<MessageType>,
    pub receiver: RastaId,
    pub sender: RastaId,
    pub sequence_number: u32,
    pub confirmed_sequence_number: u32,
    pub timestamp: u32,
    pub confirmed_timestamp: u32,
    pub data: Seq<u8>,
    pub security_code: Seq<u8>,
}

impl BuilderState {
    /// The state of a fresh builder: no kind, everything else zero or
    /// empty.
    pub open spec fn initial() -> BuilderState {
        BuilderState {
            length: 0,
            message_type: None,
            receiver: 0,
            sender: 0,
            sequence_number: 0,
            confirmed_sequence_number: 0,
            timestamp: 0,
            confirmed_timestamp: 0,
            data: Seq::empty(),
            security_code: zero_code(),
        }
    }

    /// The header that the builder would write. Meaningful once a kind has
    /// been set.
    pub open spec fn header(self) -> Header {
        Header {
            length: self.length,
            message_type: self.message_type.unwrap(),
            receiver: self.receiver,
            sender: self.sender,
            sequence_number: self.sequence_number,
            confirmed_sequence_number: self.confirmed_sequence_number,
            timestamp: self.timestamp,
            confirmed_timestamp: self.confirmed_timestamp,
        }
    }

    /// Whether a message can be built: a kind is set, and length and data
    /// are those that the kind asks for.
    pub open spec fn complete(self) -> bool {
        &&& self.message_type is Some
        &&& header_fits(self.header(), self.data)
    }
}

/// Collects the fields of a message one by one. The order of the calls
/// does not matter; a field set twice keeps the later value.
pub struct MessageBuilder {
    length: u16,
    message_type: Option<MessageType>,
    receiver: RastaId,
    sender: RastaId,
    sequence_number: u32,
    confirmed_sequence_number: u32,
    timestamp: u32,
    confirmed_timestamp: u32,
    data: Vec<u8>,
    security_code: [u8; 8],
}

impl View for MessageBuilder {
    type V = BuilderState;

    closed spec fn view(&self) -> BuilderState {
        BuilderState {
            length: self.length,
            message_type: self.message_type,
            receiver: self.receiver,
            sender: self.sender,
            sequence_number: self.sequence_number,
            confirmed_sequence_number: self.confirmed_sequence_number,
            timestamp: self.timestamp,
            confirmed_timestamp: self.confirmed_timestamp,
            data: self.data@,
            security_code: self.security_code@,
        }
    }
}

impl Default for MessageBuilder {
    fn default() -> (b: MessageBuilder)
        ensures
            b@ == BuilderState::initial(),
    {
        MessageBuilder::new()
    }
}

impl MessageBuilder {
    /// A builder that has been told nothing yet.
    pub fn new() -> (b: MessageBuilder)
        ensures
            b@ == BuilderState::initial(),
    {
        let b = MessageBuilder {
            length: 0,
            message_type: None,
            receiver: 0,
            sender: 0,
            sequence_number: 0,
            confirmed_sequence_number: 0,
            timestamp: 0,
            confirmed_timestamp: 0,
            data: Vec::new(),
            security_code: [0; 8],
        };
        assert(b.security_code@ =~= zero_code());
        b
    }

    /// Sets the total length of the frame.
    pub fn length(self, len: u16) -> (r: MessageBuilder)
        ensures
            r@ == (BuilderState { length: len, ..self@ }),
    {
        let mut b = self;
        b.length = len;
        b
    }

    /// Sets the kind of the message.
    pub fn message_type(self, message_type: MessageType) -> (r: MessageBuilder)
        ensures
            r@ == (BuilderState { message_type: Some(message_type), ..self@ }),
    {
        let mut b = self;
        b.message_type = Some(message_type);
        b
    }

    /// Sets the id of the endpoint that the message is for.
    pub fn receiver(self, receiver: RastaId) -> (r: MessageBuilder)
        ensures
            r@ == (BuilderState { receiver, ..self@ }),
    {
        let mut b = self;
        b.receiver = receiver;
        b
    }

    /// Sets the id of the endpoint that sends the message.
    pub fn sender(self, sender: RastaId) -> (r: MessageBuilder)
        ensures
            r@ == (BuilderState { sender, ..self@ }),
    {
        let mut b = self;
        b.sender = sender;
        b
    }

    /// Sets the sequence number.
    pub fn sequence_number(self, sequence_number: u32) -> (r: MessageBuilder)
        ensures
            r@ == (BuilderState { sequence_number, ..self@ }),
    {
        let mut b = self;
        b.sequence_number = sequence_number;
        b
    }

    /// Sets the sequence number that the message confirms.
    pub fn confirmed_sequence_number(self, confirmed_sequence_number: u32) -> (r:
        MessageBuilder)
        ensures
            r@ == (BuilderState { confirmed_sequence_number, ..self@ }),
    {
        let mut b = self;
        b.confirmed_sequence_number = confirmed_sequence_number;
        b
    }

    /// Sets the timestamp.
    pub fn timestamp(self, timestamp: u32) -> (r: MessageBuilder)
        ensures
            r@ == (BuilderState { timestamp, ..self@ }),
    {
        let mut b = self;
        b.timestamp = timestamp;
        b
    }

    /// Sets the timestamp that the message confirms.
    pub fn confirmed_timestamp(self, confirmed_timestamp: u32) -> (r: MessageBuilder)
        ensures
            r@ == (BuilderState { confirmed_timestamp, ..self@ }),
    {
        let mut b = self;
        b.confirmed_timestamp = confirmed_timestamp;
        b
    }

    /// Sets the data.
    pub fn data(self, data: &[u8]) -> (r: MessageBuilder)
        ensures
            r@ == (BuilderState { data: data@, ..self@ }),
    {
        let mut b = self;
        b.data = vstd::slice::slice_to_vec(data);
        b
    }

    /// Sets the security code.
    pub fn security_code(self, code: &[u8; 8]) -> (r: MessageBuilder)
        ensures
            r@ == (BuilderState { security_code: code@, ..self@ }),
    {
        let mut b = self;
        b.security_code = *code;
        b
    }

    /// Whether [`MessageBuilder::build`] may be called.
    pub fn is_complete(&self) -> (b: bool)
        ensures
            b == self@.complete(),
    {
        match self.message_type {
            None => false,
            Some(kind) => match kind {
                MessageType::ConnReq | MessageType::ConnResp => self.length == CONNECTION_LENGTH
                    && self.data.len() == CONNECTION_DATA_LEN,
                MessageType::DiscReq => self.length == DISCONNECTION_LENGTH && self.data.len()
                    == 0,
                MessageType::Data | MessageType::RetrData => self.length >= MIN_LENGTH
                    && self.data.len() == (self.length - MIN_LENGTH) as usize,
                _ => self.length == MIN_LENGTH && self.data.len() == 0,
            },
        }
    }

    /// The message with the fields that were set. Each field stands at its
    /// offset, every other byte is zero. Of the security code the message
    /// carries what lies behind the data.
    pub fn build(self) -> (m: Message)
        requires
            self@.complete(),
        ensures
            m@ == frame(self@.header(), self@.data, self@.security_code),
            header_of(m@) == self@.header(),
            data_of(m@) == self@.data,
            security_code_of(m@) == visible_code(
                self@.header(),
                self@.data,
                self@.security_code,
            ),
    {
        let ghost h = self@.header();
        let ghost data = self@.data;
        let ghost code = self@.security_code;
        proof {
            lemma_frame_reads_back(h, data, code);
        }
        let kind = match self.message_type {
            Some(kind) => kind,
            None => MessageType::HB,
        };
        let length = self.length as usize;
        let mut buf: Vec<u8> = vec![0u8; length];
        // of the security code, only what lies behind the data is written
        if DATA_OFFSET + self.data.len() < length {
            let tail = if length - SECURITY_CODE_LEN > DATA_OFFSET + self.data.len() {
                length - SECURITY_CODE_LEN
            } else {
                DATA_OFFSET + self.data.len()
            };
            let skipped = tail - (length - SECURITY_CODE_LEN);
            put_bytes(
                &mut buf,
                tail,
                slice_subrange(self.security_code.as_slice(), skipped, SECURITY_CODE_LEN),
            );
        }
        put_u16(&mut buf, 0, self.length);
        put_u16(&mut buf, 3, kind.code());
        put_u32(&mut buf, 6, self.receiver);
        put_u32(&mut buf, 10, self.sender);
        put_u32(&mut buf, 15, self.sequence_number);
        put_u32(&mut buf, 19, self.confirmed_sequence_number);
        put_u32(&mut buf, 24, self.timestamp);
        put_u32(&mut buf, 29, self.confirmed_timestamp);
        put_bytes(&mut buf, DATA_OFFSET, self.data.as_slice());
        assert(buf@ =~= frame(h, data, code));
        Message { content: buf }
    }
}

/// The sequence number after `n`. Sequence numbers wrap around.
pub open spec fn next_sequence_number(n: u32) -> u32 {
    if n == u32::MAX {
        0
    } else {
        (n + 1) as u32
    }
}

/// The data of a connection request or response: the version `"0301"`, a
/// zero byte, the receive window as a little-endian 16-bit value, and zero
/// bytes up to the length of fourteen.
pub open spec fn connection_data(n_sendmax: u16) -> Seq<u8> {
    Seq::new(
        14,
        |i: int|
            if 0 <= i < 4 {
                spec_rasta_version()[i]
            } else if 5 <= i < 7 {
                u16_byte(n_sendmax, i - 5)
            } else {
                0u8
            },
    )
}

/// A sequence number drawn by `rand::random`. Nothing is promised of it:
/// each call may give any value.
#[verifier::external_body]
fn random_sequence_number() -> (n: u32) {
    rand::random::<u32>()
}

impl Message {
    /// Whether the message is the frame with the given header and data and
    /// a zero security code. Its fields then read back as given, and its
    /// security code is eight zero bytes.
    pub open spec fn holds(&self, h: Header, data: Seq<u8>) -> bool {
        &&& self@ == frame(h, data, zero_code())
        &&& header_of(self@) == h
        &&& data_of(self@) == data
        &&& security_code_of(self@) == zero_code()
    }

    fn assemble(h: Header, data: &[u8]) -> (m: Message)
        requires
            header_fits(h, data@),
        ensures
            m.holds(h, data@),
    {
        let code: [u8; 8] = [0; 8];
        assert(code@ =~= zero_code());
        proof {
            lemma_zero_code_reads_back(h, data@);
        }
        MessageBuilder::new()
            .length(h.length)
            .message_type(h.message_type)
            .receiver(h.receiver)
            .sender(h.sender)
            .sequence_number(h.sequence_number)
            .confirmed_sequence_number(h.confirmed_sequence_number)
            .timestamp(h.timestamp)
            .confirmed_timestamp(h.confirmed_timestamp)
            .data(data)
            .security_code(&code)
            .build()
    }

    fn connection_data(n_sendmax: u16) -> (data: Vec<u8>)
        ensures
            data@ == connection_data(n_sendmax),
    {
        let mut data: Vec<u8> = vec![0u8; CONNECTION_DATA_LEN];
        let version = RASTA_VERSION;
        proof {
            lemma_rasta_version();
        }
        put_bytes(&mut data, 0, version.as_slice());
        put_u16(&mut data, 5, n_sendmax);
        assert(data@ =~= connection_data(n_sendmax));
        data
    }

    /// A connection request with a sequence number drawn at random. All
    /// else is as in [`Message::connection_request_with_sequence_number`],
    /// called with the sequence number that the result carries.
    pub fn connection_request(
        receiver: RastaId,
        sender: RastaId,
        timestamp: u32,
        n_sendmax: u16,
    ) -> (m: Message)
        ensures
            m.holds(
                Header {
                    length: 50,
                    message_type: MessageType::ConnReq,
                    receiver,
                    sender,
                    sequence_number: m.spec_sequence_number(),
                    confirmed_sequence_number: 0,
                    timestamp,
                    confirmed_timestamp: 0,
                },
                connection_data(n_sendmax),
            ),
    {
        let initial_sequence_number = random_sequence_number();
        Message::connection_request_with_sequence_number(
            receiver,
            sender,
            initial_sequence_number,
            timestamp,
            n_sendmax,
        )
    }

    /// A connection request that opens with the given sequence number. It
    /// confirms nothing yet: confirmed sequence number and confirmed
    /// timestamp are zero.
    pub fn connection_request_with_sequence_number(
        receiver: RastaId,
        sender: RastaId,
        initial_sequence_number: u32,
        timestamp: u32,
        n_sendmax: u16,
    ) -> (m: Message)
        ensures
            m.holds(
                Header {
                    length: 50,
                    message_type: MessageType::ConnReq,
                    receiver,
                    sender,
                    sequence_number: initial_sequence_number,
                    confirmed_sequence_number: 0,
                    timestamp,
                    confirmed_timestamp: 0,
                },
                connection_data(n_sendmax),
            ),
    {
        let data = Message::connection_data(n_sendmax);
        Message::assemble(
            Header {
                length: CONNECTION_LENGTH,
                message_type: MessageType::ConnReq,
                receiver,
                sender,
                sequence_number: initial_sequence_number,
                confirmed_sequence_number: 0,
                timestamp,
                confirmed_timestamp: 0,
            },
            data.as_slice(),
        )
    }

    /// The answer to a connection request. Its sequence number is the one
    /// after the confirmed sequence number.
    pub fn connection_response(
        receiver: RastaId,
        sender: RastaId,
        confirmed_sequence_number: u32,
        timestamp: u32,
        confirmed_timestamp: u32,
        n_sendmax: u16,
    ) -> (m: Message)
        ensures
            m.holds(
                Header {
                    length: 50,
                    message_type: MessageType::ConnResp,
                    receiver,
                    sender,
                    sequence_number: next_sequence_number(confirmed_sequence_number),
                    confirmed_sequence_number,
                    timestamp,
                    confirmed_timestamp,
                },
                connection_data(n_sendmax),
            ),
    {
        let data = Message::connection_data(n_sendmax);
        Message::assemble(
            Header {
                length: CONNECTION_LENGTH,
                message_type: MessageType::ConnResp,
                receiver,
                sender,
                sequence_number: confirmed_sequence_number.wrapping_add(1),
                confirmed_sequence_number,
                timestamp,
                confirmed_timestamp,
            },
            data.as_slice(),
        )
    }

    /// A retransmission request: 36 bytes, no data.
    pub fn retransmission_request(
        receiver: RastaId,
        sender: RastaId,
        sequence_number: u32,
        confirmed_sequence_number: u32,
        timestamp: u32,
        confirmed_timestamp: u32,
    ) -> (m: Message)
        ensures
            m.holds(
                Header {
                    length: 36,
                    message_type: MessageType::RetrReq,
                    receiver,
                    sender,
                    sequence_number,
                    confirmed_sequence_number,
                    timestamp,
                    confirmed_timestamp,
                },
                Seq::<u8>::empty(),
            ),
    {
        let data: [u8; 0] = [];
        assert(data@ =~= Seq::<u8>::empty());
        Message::assemble(
            Header {
                length: MIN_LENGTH,
                message_type: MessageType::RetrReq,
                receiver,
                sender,
                sequence_number,
                confirmed_sequence_number,
                timestamp,
                confirmed_timestamp,
            },
            data.as_slice(),
        )
    }

    /// A retransmission response: 36 bytes, no data.
    pub fn retransmission_response(
        receiver: RastaId,
        sender: RastaId,
        sequence_number: u32,
        confirmed_sequence_number: u32,
        timestamp: u32,
        confirmed_timestamp: u32,
    ) -> (m: Message)
        ensures
            m.holds(
                Header {
                    length: 36,
                    message_type: MessageType::RetrResp,
                    receiver,
                    sender,
                    sequence_number,
                    confirmed_sequence_number,
                    timestamp,
                    confirmed_timestamp,
                },
                Seq::<u8>::empty(),
            ),
    {
        let data: [u8; 0] = [];
        assert(data@ =~= Seq::<u8>::empty());
        Message::assemble(
            Header {
                length: MIN_LENGTH,
                message_type: MessageType::RetrResp,
                receiver,
                sender,
                sequence_number,
                confirmed_sequence_number,
                timestamp,
                confirmed_timestamp,
            },
            data.as_slice(),
        )
    }

    /// A heartbeat: 36 bytes, no data.
    pub fn heartbeat(
        receiver: RastaId,
        sender: RastaId,
        sequence_number: u32,
        confirmed_sequence_number: u32,
        timestamp: u32,
        confirmed_timestamp: u32,
    ) -> (m: Message)
        ensures
            m.holds(
                Header {
                    length: 36,
                    message_type: MessageType::HB,
                    receiver,
                    sender,
                    sequence_number,
                    confirmed_sequence_number,
                    timestamp,
                    confirmed_timestamp,
                },
                Seq::<u8>::empty(),
            ),
    {
        let data: [u8; 0] = [];
        assert(data@ =~= Seq::<u8>::empty());
        Message::assemble(
            Header {
                length: MIN_LENGTH,
                message_type: MessageType::HB,
                receiver,
                sender,
                sequence_number,
                confirmed_sequence_number,
                timestamp,
                confirmed_timestamp,
            },
            data.as_slice(),
        )
    }

    /// A disconnection request: 40 bytes, no data.
    pub fn disconnection_request(
        receiver: RastaId,
        sender: RastaId,
        sequence_number: u32,
        confirmed_sequence_number: u32,
        timestamp: u32,
        confirmed_timestamp: u32,
    ) -> (m: Message)
        ensures
            m.holds(
                Header {
                    length: 40,
                    message_type: MessageType::DiscReq,
                    receiver,
                    sender,
                    sequence_number,
                    confirmed_sequence_number,
                    timestamp,
                    confirmed_timestamp,
                },
                Seq::<u8>::empty(),
            ),
    {
        let data: [u8; 0] = [];
        assert(data@ =~= Seq::<u8>::empty());
        Message::assemble(
            Header {
                length: DISCONNECTION_LENGTH,
                message_type: MessageType::DiscReq,
                receiver,
                sender,
                sequence_number,
                confirmed_sequence_number,
                timestamp,
                confirmed_timestamp,
            },
            data.as_slice(),
        )
    }

    /// A data message: the data and 36 bytes more.
    pub fn data_message(
        receiver: RastaId,
        sender: RastaId,
        sequence_number: u32,
        confirmed_sequence_number: u32,
        timestamp: u32,
        confirmed_timestamp: u32,
        data: &[u8],
    ) -> (m: Message)
        requires
            data.len() <= MAX_DATA_LEN,
        ensures
            m.holds(
                Header {
                    length: (36 + data@.len()) as u16,
                    message_type: MessageType::Data,
                    receiver,
                    sender,
                    sequence_number,
                    confirmed_sequence_number,
                    timestamp,
                    confirmed_timestamp,
                },
                data@,
            ),
    {
        Message::assemble(
            Header {
                length: (MIN_LENGTH as usize + data.len()) as u16,
                message_type: MessageType::Data,
                receiver,
                sender,
                sequence_number,
                confirmed_sequence_number,
                timestamp,
                confirmed_timestamp,
            },
            data,
        )
    }

    /// A retransmitted data message: the data and 36 bytes more.
    pub fn retransmitted_data_message(
        receiver: RastaId,
        sender: RastaId,
        sequence_number: u32,
        confirmed_sequence_number: u32,
        timestamp: u32,
        confirmed_timestamp: u32,
        data: &[u8],
    ) -> (m: Message)
        requires
            data.len() <= MAX_DATA_LEN,
        ensures
            m.holds(
                Header {
                    length: (36 + data@.len()) as u16,
                    message_type: MessageType::RetrData,
                    receiver,
                    sender,
                    sequence_number,
                    confirmed_sequence_number,
                    timestamp,
                    confirmed_timestamp,
                },
                data@,
            ),
    {
        Message::assemble(
            Header {
                length: (MIN_LENGTH as usize + data.len()) as u16,
                message_type: MessageType::RetrData,
                receiver,
                sender,
                sequence_number,
                confirmed_sequence_number,
                timestamp,
                confirmed_timestamp,
            },
            data,
        )
    }
}

} // verus!
