//! SCI telegrams and their encoding.
//!
//! | Offset | Size | Field |
//! |---|---|---|
//! | 0 | 1 | protocol type |
//! | 1 | 2 | message type, little-endian |
//! | 3 | 20 | sender name |
//! | 23 | 20 | receiver name |
//! | 43 | up to 85 | payload |
//!
//! A name takes exactly twenty bytes: a shorter one is filled up with
//! underscores on the right, and of a longer one the first twenty bytes
//! are kept.

use super::{
    defined_under, ProtocolType, SCICloseReason, SCIMessageType, SCIVersionCheckResult, SciError,
};
use super::{
    PDI_CLOSE, PDI_INITIALISATION_COMPLETED, PDI_INITIALISATION_REQUEST,
    PDI_INITIALISATION_RESPONSE, PDI_RELEASE_FOR_MAINTENANCE, PDI_VERSION_CHECK,
    PDI_VERSION_RESPONSE, SCI_TIMEOUT,
};
use crate::wire::{get_u16, u16_at, u16_byte};
use vstd::prelude::*;
use vstd::slice::{slice_subrange, slice_to_vec};
use vstd::string::StringSliceAdditionalSpecFns;
use vstd::utf8::{decode_utf8, encode_utf8, is_ascii_chars, valid_utf8};

verus! {

/// Length of a name in a telegram.
pub const NAME_LEN: usize = 20;

/// Offset of the payload in a telegram: the length of its fixed part.
pub const PAYLOAD_OFFSET: usize = 43;

/// The most bytes a payload can hold.
pub const PAYLOAD_CAPACITY: usize = 85;

/// The byte that fills up a short name: an underscore.
pub const NAME_PADDING: u8 = 0x5F;

/// The twenty bytes that stand for a name with the given bytes.
pub open spec fn sci_name(name: Seq<u8>) -> Seq<u8> {
    Seq::new(
        20,
        |i: int|
            if i < name.len() {
                name[i]
            } else {
                NAME_PADDING
            },
    )
}

/// The twenty bytes that stand for `name` in a telegram.
pub fn str_to_sci_name(name: &str) -> (bytes: Vec<u8>)
    ensures
        bytes@ == sci_name(name.spec_bytes()),
{
    let raw = name.as_bytes();
    let mut bytes: Vec<u8> = vec![NAME_PADDING; NAME_LEN];
    let n: usize = if raw.len() < NAME_LEN {
        raw.len()
    } else {
        NAME_LEN
    };
    let mut i: usize = 0;
    while i < n
        invariant
            i <= n <= 20,
            n <= raw@.len(),
            bytes@.len() == 20,
            n == raw@.len() || n == 20,
            forall|k: int|
                0 <= k < 20 ==> bytes@[k] == if k < i {
                    raw@[k]
                } else {
                    NAME_PADDING
                },
        decreases n - i,
    {
        bytes[i] = raw[i];
        i += 1;
    }
    assert(bytes@ =~= sci_name(name.spec_bytes()));
    bytes
}

/// The payload of an [`SCITelegram`]: a buffer of 85 bytes, of which the
/// first `used` count. A `used` beyond 85 counts as 85.
#[derive(Debug, Clone, Copy)]
pub struct SCIPayload {
    pub data: [u8; 85],
    pub used: usize,
}

impl View for SCIPayload {
    type V = Seq<u8>;

    /// The bytes that count.
    open spec fn view(&self) -> Seq<u8> {
        self.data@.subrange(
            0,
            if self.used <= 85 {
                self.used as int
            } else {
                85
            },
        )
    }
}

impl Default for SCIPayload {
    fn default() -> (p: SCIPayload)
        ensures
            p@ == Seq::<u8>::empty(),
            p.used == 0,
    {
        SCIPayload { data: [0; 85], used: 0 }
    }
}

impl SCIPayload {
    /// The payload that holds `data`. The rest of the buffer is zero.
    pub fn from_slice(data: &[u8]) -> (p: SCIPayload)
        requires
            data.len() <= 85,
        ensures
            p@ == data@,
            p.used == data.len(),
            forall|i: int| data.len() <= i < 85 ==> p.data@[i] == 0,
    {
        let mut buffer = [0u8; 85];
        let mut i: usize = 0;
        while i < data.len()
            invariant
                i <= data.len() <= 85,
                forall|k: int| 0 <= k < i ==> buffer@[k] == data@[k],
                forall|k: int| i <= k < 85 ==> buffer@[k] == 0,
            decreases data.len() - i,
        {
            buffer[i] = data[i];
            i += 1;
        }
        let p = SCIPayload { data: buffer, used: data.len() };
        assert(p@ =~= data@);
        p
    }

    /// How many bytes count.
    pub fn len(&self) -> (n: usize)
        ensures
            n == self@.len(),
            n <= 85,
    {
        if self.used <= PAYLOAD_CAPACITY {
            self.used
        } else {
            PAYLOAD_CAPACITY
        }
    }

    /// The bytes that count.
    pub fn as_slice(&self) -> (bytes: &[u8])
        ensures
            bytes@ == self@,
    {
        slice_subrange(self.data.as_slice(), 0, self.len())
    }
}

/// An SCI telegram. The constructors of this type and of the protocol
/// modules fill in protocol and message type.
#[derive(Debug, Clone)]
pub struct SCITelegram {
    pub protocol_type: ProtocolType,
    pub message_type: SCIMessageType,
    pub sender: String,
    pub receiver: String,
    pub payload: SCIPayload,
}

/// What a telegram says: its fields, with the names as text and the
/// payload as the bytes that count.
pub struct TelegramView {
    pub protocol_type: ProtocolType,
    pub message_type: SCIMessageType,
    pub sender: Seq<char>,
    pub receiver: Seq<char>,
    pub payload: Seq<u8>,
}

impl View for SCITelegram {
    type V = TelegramView;

    open spec fn view(&self) -> TelegramView {
        TelegramView {
            protocol_type: self.protocol_type,
            message_type: self.message_type,
            sender: self.sender@,
            receiver: self.receiver@,
            payload: self.payload@,
        }
    }
}

/// The text that `String::from_utf8_lossy` makes of a byte sequence.
pub uninterp spec fn utf8_lossy(bytes: Seq<u8>) -> Seq<char>;

/// Calls `String::from_utf8_lossy` and hands the text back as an owned
/// `String`. The text is a function of the bytes alone. Valid UTF-8 comes
/// back as the text that it encodes. Invalid parts come back as
/// replacement characters, of which nothing is said here.
#[verifier::external_body]
fn string_from_utf8_lossy(bytes: &[u8]) -> (text: String)
    ensures
        text@ == utf8_lossy(bytes@),
        valid_utf8(bytes@) ==> text@ == decode_utf8(bytes@),
{
    String::from_utf8_lossy(bytes).into_owned()
}

/// The text that a name field is read as: what it encodes if it is valid
/// UTF-8, and what `String::from_utf8_lossy` makes of it if not.
pub open spec fn name_text(bytes: Seq<u8>) -> Seq<char> {
    if valid_utf8(bytes) {
        decode_utf8(bytes)
    } else {
        utf8_lossy(bytes)
    }
}

/// The bytes of a telegram.
pub open spec fn encode_telegram(t: TelegramView) -> Seq<u8> {
    seq![t.protocol_type.spec_code(), u16_byte(t.message_type.0, 0), u16_byte(t.message_type.0, 1)]
        + sci_name(encode_utf8(t.sender)) + sci_name(encode_utf8(t.receiver)) + t.payload
}

/// What a byte sequence says as a telegram. It is [`SciError::Malformed`]
/// if it is shorter than 43 bytes or longer than 128; else it has an
/// [`SciError::UnknownProtocol`] if its first byte is no protocol, or an
/// [`SciError::UnknownMessageType`] if the protocol does not define the
/// message type.
pub open spec fn decode_telegram(bytes: Seq<u8>) -> Result<TelegramView, SciError> {
    if bytes.len() < 43 || bytes.len() > 128 {
        Err(SciError::Malformed)
    } else {
        match ProtocolType::from_code(bytes[0]) {
            None => Err(SciError::UnknownProtocol(bytes[0])),
            Some(protocol_type) => if defined_under(protocol_type, u16_at(bytes, 1)) {
                Ok(
                    TelegramView {
                        protocol_type,
                        message_type: SCIMessageType(u16_at(bytes, 1)),
                        sender: name_text(bytes.subrange(3, 23)),
                        receiver: name_text(bytes.subrange(23, 43)),
                        payload: bytes.subrange(43, bytes.len() as int),
                    },
                )
            } else {
                Err(SciError::UnknownMessageType(u16_at(bytes, 1)))
            },
        }
    }
}

impl SCITelegram {
    /// The telegram with the given fields. The payload must fit the buffer
    /// of 85 bytes.
    pub fn assemble(
        protocol_type: ProtocolType,
        message_type: SCIMessageType,
        sender: &str,
        receiver: &str,
        payload: &[u8],
    ) -> (t: SCITelegram)
        requires
            payload.len() <= 85,
        ensures
            t@ == (TelegramView {
                protocol_type,
                message_type,
                sender: sender@,
                receiver: receiver@,
                payload: payload@,
            }),
            t.payload.used == payload.len(),
            forall|i: int| payload.len() <= i < 85 ==> t.payload.data@[i] == 0,
    {
        SCITelegram {
            protocol_type,
            message_type,
            sender: sender.to_string(),
            receiver: receiver.to_string(),
            payload: SCIPayload::from_slice(payload),
        }
    }

    /// The bytes of the telegram: protocol type, message type, both names
    /// and the payload bytes that count.
    pub fn encode(&self) -> (bytes: Vec<u8>)
        ensures
            bytes@ == encode_telegram(self@),
            bytes@.len() == 43 + self.payload@.len(),
    {
        let mut bytes: Vec<u8> = Vec::new();
        bytes.push(self.protocol_type.code());
        let code = self.message_type.value();
        bytes.push((code % 256) as u8);
        bytes.push((code / 256) as u8);
        let mut sender = str_to_sci_name(self.sender.as_str());
        let mut receiver = str_to_sci_name(self.receiver.as_str());
        bytes.append(&mut sender);
        bytes.append(&mut receiver);
        let mut payload = slice_to_vec(self.payload.as_slice());
        bytes.append(&mut payload);
        assert(bytes@ =~= encode_telegram(self@));
        bytes
    }

    /// Reads a telegram. Succeeds exactly where [`decode_telegram`] does,
    /// with the telegram or the error that it gives. The payload counts
    /// every byte behind the names, and the rest of its buffer is zero.
    pub fn try_from(value: &[u8]) -> (r: Result<SCITelegram, SciError>)
        ensures
            match r {
                Ok(t) => {
                    &&& decode_telegram(value@) == Ok::<TelegramView, SciError>(t@)
                    &&& t.payload.used == value.len() - 43
                    &&& forall|i: int| value.len() - 43 <= i < 85 ==> t.payload.data@[i] == 0
                },
                Err(e) => decode_telegram(value@) == Err::<TelegramView, SciError>(e),
            },
    {
        if value.len() < PAYLOAD_OFFSET || value.len() > PAYLOAD_OFFSET + PAYLOAD_CAPACITY {
            return Err(SciError::Malformed);
        }
        let protocol_type = ProtocolType::try_from(value[0])?;
        let message_type = SCIMessageType::resolve(protocol_type, get_u16(value, 1))?;
        let sender = string_from_utf8_lossy(slice_subrange(value, 3, 23));
        let receiver = string_from_utf8_lossy(slice_subrange(value, 23, PAYLOAD_OFFSET));
        Ok(
            SCITelegram::assemble(
                protocol_type,
                message_type,
                sender.as_str(),
                receiver.as_str(),
                slice_subrange(value, PAYLOAD_OFFSET, value.len()),
            ),
        )
    }
}

/// The twenty characters that a name of plain ASCII text comes back as:
/// its first twenty characters, filled up with underscores.
pub open spec fn padded_name(name: Seq<char>) -> Seq<char> {
    Seq::new(
        20,
        |i: int|
            if i < name.len() {
                name[i]
            } else {
                '_'
            },
    )
}

/// The name field of an ASCII name is the encoding of the padded name.
pub proof fn lemma_name_field_of_ascii(name: Seq<char>)
    requires
        is_ascii_chars(name),
    ensures
        is_ascii_chars(padded_name(name)),
        sci_name(encode_utf8(name)) == encode_utf8(padded_name(name)),
        valid_utf8(sci_name(encode_utf8(name))),
{
    let padded = padded_name(name);
    assert(is_ascii_chars(padded)) by {
        assert forall|i: int| 0 <= i < padded.len() implies '\0' <= #[trigger] padded[i]
            <= '\u{7f}' by {
            if i < name.len() {
                assert(padded[i] == name[i]);
            }
        }
    }
    vstd::utf8::is_ascii_chars_encode_utf8(name);
    vstd::utf8::is_ascii_chars_encode_utf8(padded);
    let field = sci_name(encode_utf8(name));
    let bytes = encode_utf8(padded);
    assert(field.len() == bytes.len());
    assert forall|i: int| 0 <= i < 20 implies field[i] == bytes[i] by {
        assert(bytes[i] == padded[i] as u8);
        if i < name.len() {
            assert(encode_utf8(name)[i] == name[i] as u8);
        }
    }
    assert(field =~= bytes);
    vstd::utf8::encode_utf8_valid_utf8(padded);
}

/// A name field that is valid UTF-8 is read back as the text that it
/// encodes.
pub proof fn lemma_name_read_back(text: Seq<char>)
    ensures
        name_text(encode_utf8(text)) == text,
{
    vstd::utf8::encode_utf8_valid_utf8(text);
    vstd::utf8::encode_utf8_decode_utf8(text);
}

/// Round trip: a telegram whose message type its protocol defines, whose
/// names are ASCII text and whose payload fits is read back from its
/// encoding as it was, with each name filled up or cut to twenty
/// characters.
pub proof fn lemma_telegram_round_trip(t: TelegramView)
    requires
        defined_under(t.protocol_type, t.message_type.0),
        is_ascii_chars(t.sender),
        is_ascii_chars(t.receiver),
        t.payload.len() <= 85,
    ensures
        decode_telegram(encode_telegram(t)) == Ok::<TelegramView, SciError>(
            TelegramView {
                sender: padded_name(t.sender),
                receiver: padded_name(t.receiver),
                ..t
            },
        ),
{
    let bytes = encode_telegram(t);
    t.protocol_type.lemma_code_round_trip();
    lemma_name_field_of_ascii(t.sender);
    lemma_name_field_of_ascii(t.receiver);
    lemma_name_read_back(padded_name(t.sender));
    lemma_name_read_back(padded_name(t.receiver));
    assert(bytes.len() == 43 + t.payload.len());
    assert(bytes[0] == t.protocol_type.spec_code());
    crate::wire::lemma_u16_read_back(bytes, 1, t.message_type.0);
    assert(bytes.subrange(3, 23) =~= sci_name(encode_utf8(t.sender)));
    assert(bytes.subrange(23, 43) =~= sci_name(encode_utf8(t.receiver)));
    assert(bytes.subrange(43, bytes.len() as int) =~= t.payload);
}

/// Round trip, byte for byte: where both name fields of an encoded
/// telegram are valid UTF-8, the telegram is read back with its protocol,
/// message type and payload as they were, and each name is read back as
/// the text of its field: the bytes of the name, filled up with
/// underscores or cut to twenty.
pub proof fn lemma_telegram_round_trip_utf8(t: TelegramView)
    requires
        defined_under(t.protocol_type, t.message_type.0),
        valid_utf8(sci_name(encode_utf8(t.sender))),
        valid_utf8(sci_name(encode_utf8(t.receiver))),
        t.payload.len() <= 85,
    ensures
        decode_telegram(encode_telegram(t)) == Ok::<TelegramView, SciError>(
            TelegramView {
                sender: decode_utf8(sci_name(encode_utf8(t.sender))),
                receiver: decode_utf8(sci_name(encode_utf8(t.receiver))),
                ..t
            },
        ),
        encode_utf8(decode_utf8(sci_name(encode_utf8(t.sender)))) == sci_name(
            encode_utf8(t.sender),
        ),
        encode_utf8(decode_utf8(sci_name(encode_utf8(t.receiver)))) == sci_name(
            encode_utf8(t.receiver),
        ),
{
    let bytes = encode_telegram(t);
    t.protocol_type.lemma_code_round_trip();
    vstd::utf8::decode_utf8_encode_utf8(sci_name(encode_utf8(t.sender)));
    vstd::utf8::decode_utf8_encode_utf8(sci_name(encode_utf8(t.receiver)));
    assert(bytes.len() == 43 + t.payload.len());
    assert(bytes[0] == t.protocol_type.spec_code());
    crate::wire::lemma_u16_read_back(bytes, 1, t.message_type.0);
    assert(bytes.subrange(3, 23) =~= sci_name(encode_utf8(t.sender)));
    assert(bytes.subrange(23, 43) =~= sci_name(encode_utf8(t.receiver)));
    assert(bytes.subrange(43, bytes.len() as int) =~= t.payload);
}

/// Name padding: in an encoded telegram each name field holds the bytes of
/// the name, as far as they fit, and underscores behind them.
pub proof fn lemma_name_padding(t: TelegramView, i: int)
    requires
        0 <= i < 20,
    ensures
        encode_telegram(t)[3 + i] == if i < encode_utf8(t.sender).len() {
            encode_utf8(t.sender)[i]
        } else {
            NAME_PADDING
        },
        encode_telegram(t)[23 + i] == if i < encode_utf8(t.receiver).len() {
            encode_utf8(t.receiver)[i]
        } else {
            NAME_PADDING
        },
{
}

/// Name padding: if no byte of a name is a control character, that is
/// below `0x20`, then no byte of its field is one.
pub proof fn lemma_name_fields_printable(t: TelegramView, i: int)
    requires
        3 <= i < 43,
        forall|k: int| 0 <= k < encode_utf8(t.sender).len() ==> encode_utf8(t.sender)[k] >= 0x20,
        forall|k: int|
            0 <= k < encode_utf8(t.receiver).len() ==> encode_utf8(t.receiver)[k] >= 0x20,
    ensures
        encode_telegram(t)[i] >= 0x20,
{
    if i < 23 {
        lemma_name_padding(t, i - 3);
    } else {
        lemma_name_padding(t, i - 23);
    }
}

impl SCITelegram {
    /// Asks the peer to check the protocol version. The payload is the one
    /// byte of the version.
    pub fn version_check(protocol_type: ProtocolType, sender: &str, receiver: &str, version: u8) -> (t:
        SCITelegram)
        ensures
            t@ == (TelegramView {
                protocol_type,
                message_type: SCIMessageType(PDI_VERSION_CHECK),
                sender: sender@,
                receiver: receiver@,
                payload: seq![version],
            }),
    {
        let payload = [version];
        assert(payload@ =~= seq![version]);
        SCITelegram::assemble(
            protocol_type,
            SCIMessageType::pdi_version_check(),
            sender,
            receiver,
            payload.as_slice(),
        )
    }

    /// The same telegram as [`SCITelegram::version_check`], under the name
    /// that the message type resolves to.
    pub fn version_request(protocol_type: ProtocolType, sender: &str, receiver: &str, version: u8) -> (t:
        SCITelegram)
        ensures
            t@ == (TelegramView {
                protocol_type,
                message_type: SCIMessageType(PDI_VERSION_CHECK),
                sender: sender@,
                receiver: receiver@,
                payload: seq![version],
            }),
    {
        let payload = [version];
        assert(payload@ =~= seq![version]);
        SCITelegram::assemble(
            protocol_type,
            SCIMessageType::sci_version_request(),
            sender,
            receiver,
            payload.as_slice(),
        )
    }

    /// Answers a version check. The payload is the result, the version, the
    /// length of the checksum and the checksum. The checksum can have at
    /// most 82 bytes, for the payload to fit.
    pub fn version_response(
        protocol_type: ProtocolType,
        sender: &str,
        receiver: &str,
        version: u8,
        version_check_result: SCIVersionCheckResult,
        checksum: &[u8],
    ) -> (t: SCITelegram)
        requires
            checksum.len() <= 82,
        ensures
            t@ == (TelegramView {
                protocol_type,
                message_type: SCIMessageType(PDI_VERSION_RESPONSE),
                sender: sender@,
                receiver: receiver@,
                payload: seq![version_check_result.spec_code(), version, checksum.len() as u8]
                    + checksum@,
            }),
    {
        let mut payload: Vec<u8> = Vec::new();
        payload.push(version_check_result.code());
        payload.push(version);
        payload.push(checksum.len() as u8);
        let mut rest = slice_to_vec(checksum);
        payload.append(&mut rest);
        assert(payload@ =~= seq![version_check_result.spec_code(), version, checksum.len() as u8]
            + checksum@);
        SCITelegram::assemble(
            protocol_type,
            SCIMessageType::pdi_version_response(),
            sender,
            receiver,
            payload.as_slice(),
        )
    }

    /// Asks the peer for its status. No payload.
    pub fn initialisation_request(protocol_type: ProtocolType, sender: &str, receiver: &str) -> (t:
        SCITelegram)
        ensures
            t@ == (TelegramView {
                protocol_type,
                message_type: SCIMessageType(PDI_INITIALISATION_REQUEST),
                sender: sender@,
                receiver: receiver@,
                payload: Seq::<u8>::empty(),
            }),
    {
        let payload: [u8; 0] = [];
        assert(payload@ =~= Seq::<u8>::empty());
        SCITelegram::assemble(
            protocol_type,
            SCIMessageType::pdi_initialisation_request(),
            sender,
            receiver,
            payload.as_slice(),
        )
    }

    /// Announces that the status report begins. No payload.
    pub fn initialisation_response(protocol_type: ProtocolType, sender: &str, receiver: &str) -> (t:
        SCITelegram)
        ensures
            t@ == (TelegramView {
                protocol_type,
                message_type: SCIMessageType(PDI_INITIALISATION_RESPONSE),
                sender: sender@,
                receiver: receiver@,
                payload: Seq::<u8>::empty(),
            }),
    {
        let payload: [u8; 0] = [];
        assert(payload@ =~= Seq::<u8>::empty());
        SCITelegram::assemble(
            protocol_type,
            SCIMessageType::pdi_initialisation_response(),
            sender,
            receiver,
            payload.as_slice(),
        )
    }

    /// Announces that the status report is complete. No payload.
    pub fn initialisation_completed(protocol_type: ProtocolType, sender: &str, receiver: &str) -> (t:
        SCITelegram)
        ensures
            t@ == (TelegramView {
                protocol_type,
                message_type: SCIMessageType(PDI_INITIALISATION_COMPLETED),
                sender: sender@,
                receiver: receiver@,
                payload: Seq::<u8>::empty(),
            }),
    {
        let payload: [u8; 0] = [];
        assert(payload@ =~= Seq::<u8>::empty());
        SCITelegram::assemble(
            protocol_type,
            SCIMessageType::pdi_initialisation_completed(),
            sender,
            receiver,
            payload.as_slice(),
        )
    }

    /// The same telegram as [`SCITelegram::initialisation_request`], under the
    /// name that the message type resolves to.
    pub fn status_request(protocol_type: ProtocolType, sender: &str, receiver: &str) -> (t:
        SCITelegram)
        ensures
            t@ == (TelegramView {
                protocol_type,
                message_type: SCIMessageType(PDI_INITIALISATION_REQUEST),
                sender: sender@,
                receiver: receiver@,
                payload: Seq::<u8>::empty(),
            }),
    {
        let payload: [u8; 0] = [];
        assert(payload@ =~= Seq::<u8>::empty());
        SCITelegram::assemble(
            protocol_type,
            SCIMessageType::sci_status_request(),
            sender,
            receiver,
            payload.as_slice(),
        )
    }

    /// The same telegram as [`SCITelegram::initialisation_response`], under
    /// the name that the message type resolves to.
    pub fn status_begin(protocol_type: ProtocolType, sender: &str, receiver: &str) -> (t:
        SCITelegram)
        ensures
            t@ == (TelegramView {
                protocol_type,
                message_type: SCIMessageType(PDI_INITIALISATION_RESPONSE),
                sender: sender@,
                receiver: receiver@,
                payload: Seq::<u8>::empty(),
            }),
    {
        let payload: [u8; 0] = [];
        assert(payload@ =~= Seq::<u8>::empty());
        SCITelegram::assemble(
            protocol_type,
            SCIMessageType::sci_status_begin(),
            sender,
            receiver,
            payload.as_slice(),
        )
    }

    /// The same telegram as [`SCITelegram::initialisation_completed`], under
    /// the name that the message type resolves to.
    pub fn status_finish(protocol_type: ProtocolType, sender: &str, receiver: &str) -> (t:
        SCITelegram)
        ensures
            t@ == (TelegramView {
                protocol_type,
                message_type: SCIMessageType(PDI_INITIALISATION_COMPLETED),
                sender: sender@,
                receiver: receiver@,
                payload: Seq::<u8>::empty(),
            }),
    {
        let payload: [u8; 0] = [];
        assert(payload@ =~= Seq::<u8>::empty());
        SCITelegram::assemble(
            protocol_type,
            SCIMessageType::sci_status_finish(),
            sender,
            receiver,
            payload.as_slice(),
        )
    }

    /// Closes the SCI connection. The payload is the one byte of the
    /// reason.
    pub fn close(
        protocol_type: ProtocolType,
        sender: &str,
        receiver: &str,
        close_reason: SCICloseReason,
    ) -> (t: SCITelegram)
        ensures
            t@ == (TelegramView {
                protocol_type,
                message_type: SCIMessageType(PDI_CLOSE),
                sender: sender@,
                receiver: receiver@,
                payload: seq![close_reason.spec_code()],
            }),
    {
        let payload = [close_reason.code()];
        assert(payload@ =~= seq![close_reason.spec_code()]);
        SCITelegram::assemble(
            protocol_type,
            SCIMessageType::pdi_close(),
            sender,
            receiver,
            payload.as_slice(),
        )
    }

    /// Releases the element for maintenance. No payload.
    pub fn release_for_maintenance(protocol_type: ProtocolType, sender: &str, receiver: &str) -> (t:
        SCITelegram)
        ensures
            t@ == (TelegramView {
                protocol_type,
                message_type: SCIMessageType(PDI_RELEASE_FOR_MAINTENANCE),
                sender: sender@,
                receiver: receiver@,
                payload: Seq::<u8>::empty(),
            }),
    {
        let payload: [u8; 0] = [];
        assert(payload@ =~= Seq::<u8>::empty());
        SCITelegram::assemble(
            protocol_type,
            SCIMessageType::pdi_release_for_maintenance(),
            sender,
            receiver,
            payload.as_slice(),
        )
    }

    /// Reports a timeout. No payload.
    pub fn timeout(protocol_type: ProtocolType, sender: &str, receiver: &str) -> (t:
        SCITelegram)
        ensures
            t@ == (TelegramView {
                protocol_type,
                message_type: SCIMessageType(SCI_TIMEOUT),
                sender: sender@,
                receiver: receiver@,
                payload: Seq::<u8>::empty(),
            }),
    {
        let payload: [u8; 0] = [];
        assert(payload@ =~= Seq::<u8>::empty());
        SCITelegram::assemble(
            protocol_type,
            SCIMessageType::sci_timeout(),
            sender,
            receiver,
            payload.as_slice(),
        )
    }
}

} // verus!
