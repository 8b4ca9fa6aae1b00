//! Messages that clients and targets pass to one another, and their wire form.

use crate::error::Error;
use crate::std_specs::into_boxed_slice;
use vstd::prelude::*;
use vstd::slice::slice_to_vec;
use vstd::utf8::{decode_utf8, encode_utf8, valid_utf8};

verus! {

/// Size of the serialized message header in bytes: one for the opcode, two for
/// the length. This is the size on the wire, not the in-memory size of
/// [`MessageHeader`].
pub const HEADER_SIZE: u16 = 3;

/// Max message length, header length and payload length combined.
pub const MAX_MESSAGE_LENGTH: usize = 65535;

/// Maximum length of a message payload.
pub const MAX_MESSAGE_PAYLOAD_LENGTH: u16 = 65532;

/// The different message opcode constants.
///
/// The discriminant of a variant is the byte that stands for it on the wire
/// (see [`OpCode::repr`]); these bytes stay stable between minor versions.
#[allow(missing_docs)]
#[derive(Clone, Copy, Debug, PartialEq, Eq, Structural)]
pub enum OpCode {
    StartMessage,
}

impl OpCode {
    /// The byte that stands for this opcode on the wire.
    pub open spec fn spec_repr(self) -> u8 {
        match self {
            OpCode::StartMessage => 0u8,
        }
    }

    /// The opcode that a wire byte stands for, if any.
    pub open spec fn spec_from_repr(byte: u8) -> Option<OpCode> {
        if byte == 0u8 {
            Some(OpCode::StartMessage)
        } else {
            None
        }
    }

    /// The byte that stands for this opcode on the wire.
    #[verifier::when_used_as_spec(spec_repr)]
    pub fn repr(self) -> (byte: u8)
        ensures
            byte == self.spec_repr(),
    {
        match self {
            OpCode::StartMessage => 0u8,
        }
    }

    /// Reads an opcode from its wire byte. Bytes outside the defined set give
    /// `None`; they are never mapped to some default opcode.
    #[verifier::when_used_as_spec(spec_from_repr)]
    pub fn from_repr(byte: u8) -> (opcode: Option<OpCode>)
        ensures
            opcode == OpCode::spec_from_repr(byte),
    {
        if byte == 0u8 {
            Some(OpCode::StartMessage)
        } else {
            None
        }
    }
}

/// The header of a message: the control fields that precede the payload.
///
/// The serialized header is [`HEADER_SIZE`] bytes long, whatever the in-memory
/// size of this struct is.
#[allow(missing_docs)]
#[derive(Clone, Copy, Debug, PartialEq, Eq, Structural)]
pub struct MessageHeader {
    pub opcode: OpCode,
    pub length: u16,
}

impl MessageHeader {
    /// A header is valid when the payload it announces fits into one frame.
    /// Headers that [`Message::create_header`] makes and headers that
    /// [`MessageHeader::deserialize`] reads are valid.
    pub open spec fn is_valid(self) -> bool {
        self.length <= MAX_MESSAGE_PAYLOAD_LENGTH
    }

    /// The wire form of a header: the opcode byte, then the length as a
    /// big-endian 16-bit integer.
    pub open spec fn bytes(self) -> Seq<u8> {
        seq![self.opcode.spec_repr(), (self.length / 256) as u8, (self.length % 256) as u8]
    }

    /// What a buffer decodes to. Only the first [`HEADER_SIZE`] bytes are read.
    ///
    /// A buffer that is too short for a header is a framing error. So is a
    /// header that announces more payload than a frame can carry; but a first
    /// byte that is no opcode is reported as such before the length is looked
    /// at.
    pub open spec fn parse(buf: Seq<u8>) -> Result<MessageHeader, Error> {
        if buf.len() < HEADER_SIZE {
            Err(Error::FramingError)
        } else {
            match OpCode::spec_from_repr(buf[0]) {
                None => Err(Error::UnknownOpcode),
                Some(opcode) => {
                    let header = MessageHeader { opcode, length: (buf[1] * 256 + buf[2]) as u16 };
                    if header.is_valid() {
                        Ok(header)
                    } else {
                        Err(Error::FramingError)
                    }
                },
            }
        }
    }

    /// Serialize the message header into bytes.
    pub fn serialize(&self) -> (buf: [u8; 3])
        ensures
            buf@ == self.bytes(),
    {
        let high: u8 = (self.length / 256) as u8;
        let low: u8 = (self.length % 256) as u8;
        let buf: [u8; 3] = [self.opcode.repr(), high, low];
        assert(buf@ =~= self.bytes());
        buf
    }

    /// Parse the header from a provided buffer.
    ///
    /// A buffer shorter than a header is a framing error; a first byte that
    /// is no defined opcode is an unknown opcode; a length that no frame can
    /// carry is a framing error again. Bytes after the header are not looked
    /// at. A header that comes out of here is valid.
    pub fn deserialize(buf: &[u8]) -> (res: Result<MessageHeader, Error>)
        ensures
            res == MessageHeader::parse(buf@),
            buf@.len() < HEADER_SIZE ==> res == Err::<MessageHeader, Error>(Error::FramingError),
            buf@.len() >= HEADER_SIZE && OpCode::spec_from_repr(buf@[0]) is None
                ==> res == Err::<MessageHeader, Error>(Error::UnknownOpcode),
            res matches Ok(header) ==> header.is_valid(),
    {
        if buf.len() < HEADER_SIZE as usize {
            return Err(Error::FramingError);
        }
        match OpCode::from_repr(buf[0]) {
            None => Err(Error::UnknownOpcode),
            Some(opcode) => {
                let high: u16 = buf[1] as u16;
                let low: u16 = buf[2] as u16;
                let length: u16 = high * 256 + low;
                if length > MAX_MESSAGE_PAYLOAD_LENGTH {
                    return Err(Error::FramingError);
                }
                Ok(MessageHeader { opcode, length })
            },
        }
    }
}

/// A message to be sent or received over a connection.
#[derive(Debug)]
pub enum Message {
    /// A message indicating a container should be started.
    StartMessage {
        /// Name/ID of the container to be started.
        resource_name: String,
    },
}

/// The mathematical value of a [`Message`].
pub enum MessageView {
    /// See [`Message::StartMessage`].
    StartMessage { resource_name: Seq<char> },
}

impl View for Message {
    type V = MessageView;

    open spec fn view(&self) -> MessageView {
        match self {
            Message::StartMessage { resource_name } => MessageView::StartMessage {
                resource_name: resource_name@,
            },
        }
    }
}

impl MessageView {
    /// The opcode under which this message travels.
    pub open spec fn opcode(self) -> OpCode {
        match self {
            MessageView::StartMessage { .. } => OpCode::StartMessage,
        }
    }

    /// The payload of this message: for a start message, the UTF-8 bytes of
    /// the resource name, with no length prefix of their own.
    pub open spec fn payload(self) -> Seq<u8> {
        match self {
            MessageView::StartMessage { resource_name } => encode_utf8(resource_name),
        }
    }

    /// Whether the payload fits into one frame.
    pub open spec fn fits(self) -> bool {
        self.payload().len() <= MAX_MESSAGE_PAYLOAD_LENGTH
    }

    /// The header that announces this message.
    pub open spec fn header(self) -> MessageHeader
        recommends
            self.fits(),
    {
        MessageHeader { opcode: self.opcode(), length: self.payload().len() as u16 }
    }

    /// The whole frame as it travels: the header, then the payload.
    pub open spec fn frame(self) -> Seq<u8>
        recommends
            self.fits(),
    {
        self.header().bytes() + self.payload()
    }
}

impl Message {
    /// What a payload decodes to under a given header.
    pub open spec fn parse(header: MessageHeader, payload: Seq<u8>) -> Result<MessageView, Error> {
        if payload.len() > MAX_MESSAGE_PAYLOAD_LENGTH {
            Err(Error::MessageTooBig)
        } else {
            match header.opcode {
                OpCode::StartMessage => if valid_utf8(payload) {
                    Ok(MessageView::StartMessage { resource_name: decode_utf8(payload) })
                } else {
                    Err(Error::InvalidEncoding)
                },
            }
        }
    }

    /// Create a header from the current message.
    ///
    /// Fails with [`Error::MessageTooBig`] when the payload would not fit into
    /// a frame, and only then.
    pub fn create_header(&self) -> (res: Result<MessageHeader, Error>)
        ensures
            self@.fits() ==> res == Ok::<MessageHeader, Error>(self@.header()),
            !self@.fits() ==> res == Err::<MessageHeader, Error>(Error::MessageTooBig),
            res matches Ok(header) ==> header.is_valid(),
    {
        match self {
            Message::StartMessage { resource_name } => {
                let len: usize = resource_name.as_str().as_bytes().len();
                if len > MAX_MESSAGE_PAYLOAD_LENGTH as usize {
                    return Err(Error::MessageTooBig);
                }
                Ok(MessageHeader { opcode: OpCode::StartMessage, length: len as u16 })
            },
        }
    }

    /// Serialize the payload data into bytes. This doesn't include the header;
    /// you have to construct the header separately.
    ///
    /// The length is checked before anything is copied: a message that is too
    /// big yields [`Error::MessageTooBig`] and no bytes at all.
    pub fn serialize_payload(&self) -> (res: Result<Box<[u8]>, Error>)
        ensures
            match res {
                Ok(bytes) => self@.fits() && bytes@ == self@.payload(),
                Err(e) => !self@.fits() && e == Error::MessageTooBig,
            },
    {
        match self {
            Message::StartMessage { resource_name } => {
                let payload: &[u8] = resource_name.as_str().as_bytes();
                if payload.len() > MAX_MESSAGE_PAYLOAD_LENGTH as usize {
                    return Err(Error::MessageTooBig);
                }
                Ok(into_boxed_slice(slice_to_vec(payload)))
            },
        }
    }

    /// Deserialize a message from the payload that followed `header`.
    ///
    /// The caller has read exactly `header.length` bytes into `payload_buf`.
    pub fn deserialize(header: &MessageHeader, payload_buf: &[u8]) -> (res: Result<Message, Error>)
        requires
            payload_buf@.len() <= MAX_MESSAGE_PAYLOAD_LENGTH
                ==> payload_buf@.len() == header.length,
        ensures
            match res {
                Ok(message) => Message::parse(*header, payload_buf@)
                    == Ok::<MessageView, Error>(message@),
                Err(e) => Message::parse(*header, payload_buf@) == Err::<MessageView, Error>(e),
            },
    {
        if payload_buf.len() > MAX_MESSAGE_PAYLOAD_LENGTH as usize {
            return Err(Error::MessageTooBig);
        }
        match header.opcode {
            OpCode::StartMessage => {
                match core::str::from_utf8(payload_buf) {
                    Ok(name) => {
                        proof {
                            vstd::utf8::encode_utf8_decode_utf8(name@);
                        }
                        Ok(Message::StartMessage { resource_name: name.to_owned() })
                    },
                    Err(_) => Err(Error::InvalidEncoding),
                }
            },
        }
    }
}

/// Every opcode is read back from its own wire byte, and from no other byte:
/// a byte reads as no opcode at all exactly when no opcode has it as its wire
/// byte.
pub proof fn lemma_opcode_round_trip(opcode: OpCode, byte: u8)
    ensures
        OpCode::spec_from_repr(opcode.spec_repr()) == Some(opcode),
        OpCode::spec_from_repr(byte) == Some(opcode) <==> byte == opcode.spec_repr(),
        OpCode::spec_from_repr(byte) is None <==> forall|other: OpCode|
            #[trigger] other.spec_repr() != byte,
{
    if let Some(found) = OpCode::spec_from_repr(byte) {
        assert(found.spec_repr() == byte);
    }
}

/// Header fidelity: the wire form of a header is exactly [`HEADER_SIZE`]
/// bytes long, and that of a valid header decodes to the header it was made
/// from.
pub proof fn lemma_header_round_trip(header: MessageHeader)
    requires
        header.is_valid(),
    ensures
        header.bytes().len() == HEADER_SIZE,
        MessageHeader::parse(header.bytes()) == Ok::<MessageHeader, Error>(header),
{
}

/// Decoding a header inverts encoding it: a buffer decodes to `header` if and
/// only if `header` is valid and the buffer begins with its wire form.
pub proof fn lemma_header_parse_inverts_bytes(buf: Seq<u8>, header: MessageHeader)
    ensures
        MessageHeader::parse(buf) == Ok::<MessageHeader, Error>(header) <==> (header.is_valid()
            && buf.len() >= HEADER_SIZE && buf.subrange(0, HEADER_SIZE as int) == header.bytes()),
{
    if buf.len() >= HEADER_SIZE {
        let head = buf.subrange(0, HEADER_SIZE as int);
        if head == header.bytes() {
            assert(head[0] == header.bytes()[0]);
            assert(head[1] == header.bytes()[1]);
            assert(head[2] == header.bytes()[2]);
        }
        if MessageHeader::parse(buf) == Ok::<MessageHeader, Error>(header) {
            assert(head =~= header.bytes());
        }
    }
}

/// Round trip: a message whose payload fits into a frame has a valid header,
/// and its payload decodes under that header to the message itself.
pub proof fn lemma_message_round_trip(message: MessageView)
    requires
        message.fits(),
    ensures
        message.header().is_valid(),
        message.header().length == message.payload().len(),
        Message::parse(message.header(), message.payload()) == Ok::<MessageView, Error>(message),
{
    broadcast use vstd::utf8::encode_utf8_valid_utf8, vstd::utf8::encode_utf8_decode_utf8;

}

/// Decoding a payload inverts encoding it: a payload decodes under `header`
/// to `message` if and only if it fits into a frame, `header` carries the
/// opcode of `message`, and the payload is the one of `message`.
pub proof fn lemma_message_parse_inverts_payload(
    header: MessageHeader,
    payload: Seq<u8>,
    message: MessageView,
)
    ensures
        Message::parse(header, payload) == Ok::<MessageView, Error>(message) <==> (payload.len()
            <= MAX_MESSAGE_PAYLOAD_LENGTH && header.opcode == message.opcode() && payload
            == message.payload()),
{
    broadcast use
        vstd::utf8::encode_utf8_valid_utf8,
        vstd::utf8::encode_utf8_decode_utf8,
        vstd::utf8::decode_utf8_encode_utf8,
    ;

}

} // verus!
