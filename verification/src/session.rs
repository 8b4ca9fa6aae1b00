//! What a session does with messages: how a message becomes one frame on the
//! stream, and how a frame is taken off the stream again.
//!
//! Nothing here touches a stream. Sending is one buffer to write in full;
//! receiving is a small state machine that says how many bytes to read next
//! and what the bytes read amount to. Whoever owns the stream does the reads
//! and writes.

use crate::error::Error;
use crate::message::{
    lemma_header_parse_inverts_bytes, lemma_message_round_trip, Message, MessageHeader,
    MessageView, HEADER_SIZE, MAX_MESSAGE_LENGTH,
};
use vstd::prelude::*;

verus! {

/// The end of a connection that acts as the initiator.
pub struct Client;

/// The end of a connection that acts as the acceptor.
pub struct Server;

/// The port on which a target listens unless it is told otherwise.
pub const DEFAULT_PORT: u16 = 9989;

/// Puts a message into one contiguous frame, the header first and the payload
/// right behind it, so that it can go out in a single write.
///
/// A message whose payload does not fit into a frame yields
/// [`Error::MessageTooBig`]; no part of a frame is produced for it.
pub fn encode_frame(message: &Message) -> (res: Result<Vec<u8>, Error>)
    ensures
        match res {
            Ok(frame) => message@.fits() && frame@ == message@.frame(),
            Err(e) => !message@.fits() && e == Error::MessageTooBig,
        },
        res matches Ok(frame) ==> frame@.len() <= MAX_MESSAGE_LENGTH,
{
    let header = match message.create_header() {
        Ok(header) => header,
        Err(e) => {
            return Err(e);
        },
    };
    let header_buf = header.serialize();
    let payload = match message.serialize_payload() {
        Ok(payload) => payload,
        Err(e) => {
            return Err(e);
        },
    };
    let mut frame: Vec<u8> = Vec::new();
    frame.extend_from_slice(header_buf.as_slice());
    frame.extend_from_slice(&payload);
    assert(frame@ =~= message@.frame());
    Ok(frame)
}

/// Where the reception of one frame stands.
#[derive(Clone, Copy, Debug, PartialEq, Eq, Structural)]
pub enum Receiver {
    /// Nothing of the frame has been read yet; the header comes next.
    AwaitingHeader,
    /// The header has been read and decoded; the payload it announces comes
    /// next.
    AwaitingPayload {
        /// The header of the frame under way.
        header: MessageHeader,
    },
}

/// How a blocking read of an exact number of bytes ended.
#[derive(Debug)]
pub enum ReadEvent<'a> {
    /// The read delivered every byte that was asked for.
    Filled(&'a [u8]),
    /// The read failed, or the stream ended before the last byte.
    Failed,
}

impl<'a> View for ReadEvent<'a> {
    type V = Option<Seq<u8>>;

    open spec fn view(&self) -> Option<Seq<u8>> {
        match self {
            ReadEvent::Filled(bytes) => Some(bytes@),
            ReadEvent::Failed => None,
        }
    }
}

/// What follows from one read.
#[derive(Debug)]
pub enum Step {
    /// The frame is not complete: read [`Receiver::wanted`] bytes in the new
    /// state and come back.
    Read(Receiver),
    /// The frame is complete and decodes to this message.
    Done(Message),
    /// The reception ends with this error. The connection is of no further
    /// use for messages.
    Failed(Error),
}

/// The mathematical value of a [`Step`].
pub enum StepView {
    /// See [`Step::Read`].
    Read(Receiver),
    /// See [`Step::Done`].
    Done(MessageView),
    /// See [`Step::Failed`].
    Failed(Error),
}

impl View for Step {
    type V = StepView;

    open spec fn view(&self) -> StepView {
        match self {
            Step::Read(next) => StepView::Read(*next),
            Step::Done(message) => StepView::Done(message@),
            Step::Failed(e) => StepView::Failed(*e),
        }
    }
}

impl Receiver {
    /// The number of bytes that the next read must deliver in full: the size
    /// of a header, or the payload length that the header announced.
    pub open spec fn spec_wanted(self) -> nat {
        match self {
            Receiver::AwaitingHeader => HEADER_SIZE as nat,
            Receiver::AwaitingPayload { header } => header.length as nat,
        }
    }

    /// Whether a read outcome may be handed to [`Receiver::advance`] in this
    /// state: a payload must have the very length that its header announced.
    pub open spec fn accepts(self, read: Option<Seq<u8>>) -> bool {
        match (self, read) {
            (Receiver::AwaitingPayload { header }, Some(bytes)) => bytes.len() == header.length,
            _ => true,
        }
    }

    /// What a read outcome leads to in this state.
    ///
    /// A failed read ends the reception with [`Error::IOFailure`], wherever in
    /// the frame it happens. Header bytes either fail to decode or lead on to
    /// the payload; payload bytes either fail to decode or complete the
    /// message.
    pub open spec fn spec_advance(self, read: Option<Seq<u8>>) -> StepView {
        match read {
            None => StepView::Failed(Error::IOFailure),
            Some(bytes) => match self {
                Receiver::AwaitingHeader => match MessageHeader::parse(bytes) {
                    Ok(header) => StepView::Read(Receiver::AwaitingPayload { header }),
                    Err(e) => StepView::Failed(e),
                },
                Receiver::AwaitingPayload { header } => match Message::parse(header, bytes) {
                    Ok(message) => StepView::Done(message),
                    Err(e) => StepView::Failed(e),
                },
            },
        }
    }

    /// The state in which the reception of a frame begins.
    pub fn new() -> (receiver: Receiver)
        ensures
            receiver == Receiver::AwaitingHeader,
    {
        Receiver::AwaitingHeader
    }

    /// The number of bytes to read next. The read must be a full one: fewer
    /// bytes are a failed read, never input for [`Receiver::advance`].
    pub fn wanted(&self) -> (count: usize)
        ensures
            count == self.spec_wanted(),
    {
        match self {
            Receiver::AwaitingHeader => HEADER_SIZE as usize,
            Receiver::AwaitingPayload { header } => header.length as usize,
        }
    }

    /// Takes the outcome of the read that [`Receiver::wanted`] asked for and
    /// says what follows from it.
    pub fn advance(self, event: ReadEvent<'_>) -> (step: Step)
        requires
            self.accepts(event@),
        ensures
            step@ == self.spec_advance(event@),
    {
        match event {
            ReadEvent::Failed => Step::Failed(Error::IOFailure),
            ReadEvent::Filled(bytes) => match self {
                Receiver::AwaitingHeader => match MessageHeader::deserialize(bytes) {
                    Ok(header) => Step::Read(Receiver::AwaitingPayload { header }),
                    Err(e) => Step::Failed(e),
                },
                Receiver::AwaitingPayload { header } => match Message::deserialize(&header, bytes) {
                    Ok(message) => Step::Done(message),
                    Err(e) => Step::Failed(e),
                },
            },
        }
    }
}

/// A full read of `count` bytes from a stream that still holds `stream` and
/// is closed behind it: the first `count` bytes, or a failure where fewer are
/// left.
pub open spec fn read_exact(stream: Seq<u8>, count: nat) -> Option<Seq<u8>> {
    if count <= stream.len() {
        Some(stream.subrange(0, count as int))
    } else {
        None
    }
}

/// What is received from a stream that holds `stream` and is closed behind
/// it: the message that the first frame decodes to, or the error that ends
/// the reception.
pub open spec fn receive_from(stream: Seq<u8>) -> Result<MessageView, Error> {
    if stream.len() < HEADER_SIZE {
        Err(Error::IOFailure)
    } else {
        match MessageHeader::parse(stream.subrange(0, HEADER_SIZE as int)) {
            Err(e) => Err(e),
            Ok(header) => if stream.len() < HEADER_SIZE + header.length {
                Err(Error::IOFailure)
            } else {
                Message::parse(
                    header,
                    stream.subrange(HEADER_SIZE as int, HEADER_SIZE + header.length),
                )
            },
        }
    }
}

/// The receiver, driven by full reads of the sizes it asks for, receives
/// [`receive_from`] of the stream: the header read either ends the reception
/// with that result or leads on to a payload read which the receiver accepts
/// and which ends it with that result.
pub proof fn lemma_receiver_receives(stream: Seq<u8>)
    ensures
        match Receiver::AwaitingHeader.spec_advance(read_exact(stream, HEADER_SIZE as nat)) {
            StepView::Failed(e) => receive_from(stream) == Err::<MessageView, Error>(e),
            StepView::Done(_) => false,
            StepView::Read(next) => {
                let rest = stream.skip(HEADER_SIZE as int);
                let read = read_exact(rest, next.spec_wanted());
                &&& next.accepts(read)
                &&& match next.spec_advance(read) {
                    StepView::Failed(e) => receive_from(stream) == Err::<MessageView, Error>(e),
                    StepView::Done(message) => receive_from(stream)
                        == Ok::<MessageView, Error>(message),
                    StepView::Read(_) => false,
                }
            },
        },
{
    if stream.len() >= HEADER_SIZE {
        let head = stream.subrange(0, HEADER_SIZE as int);
        if let Ok(header) = MessageHeader::parse(head) {
            let rest = stream.skip(HEADER_SIZE as int);
            if header.length <= rest.len() {
                assert(rest.subrange(0, header.length as int) =~= stream.subrange(
                    HEADER_SIZE as int,
                    HEADER_SIZE + header.length,
                ));
            }
        }
    }
}

/// What was sent is received: a stream that begins with the frame of a
/// message yields that message, whatever follows the frame.
pub proof fn lemma_sent_frame_is_received(message: MessageView, rest: Seq<u8>)
    requires
        message.fits(),
    ensures
        message.frame().len() == HEADER_SIZE + message.payload().len(),
        message.frame().len() <= MAX_MESSAGE_LENGTH,
        receive_from(message.frame() + rest) == Ok::<MessageView, Error>(message),
{
    let header = message.header();
    let stream = message.frame() + rest;
    lemma_message_round_trip(message);
    assert(stream.subrange(0, HEADER_SIZE as int) =~= header.bytes());
    lemma_header_parse_inverts_bytes(stream.subrange(0, HEADER_SIZE as int), header);
    assert(stream.subrange(HEADER_SIZE as int, HEADER_SIZE + header.length)
        =~= message.payload());
}

/// A stream that is closed inside a frame yields [`Error::IOFailure`], be it
/// closed inside the header or, behind the valid header `header`, inside the
/// payload that `header` announces.
pub proof fn lemma_truncated_frame_is_io_failure(stream: Seq<u8>, header: MessageHeader)
    requires
        stream.len() < HEADER_SIZE || (header.is_valid() && stream.subrange(
            0,
            HEADER_SIZE as int,
        ) == header.bytes() && stream.len() < HEADER_SIZE + header.length),
    ensures
        receive_from(stream) == Err::<MessageView, Error>(Error::IOFailure),
{
    if stream.len() >= HEADER_SIZE {
        lemma_header_parse_inverts_bytes(stream.subrange(0, HEADER_SIZE as int), header);
    }
}

/// No two messages share a frame: the frame determines the message.
pub proof fn lemma_frame_determines_message(first: MessageView, second: MessageView)
    requires
        first.fits(),
        second.fits(),
        first.frame() == second.frame(),
    ensures
        first == second,
{
    lemma_sent_frame_is_received(first, Seq::empty());
    lemma_sent_frame_is_received(second, Seq::empty());
}

} // verus!
