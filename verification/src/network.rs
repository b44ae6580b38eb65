use crate::config::{MAX_UNIVERSES, UNIVERSE_SIZE};
use artnet_protocol::ArtCommand;
use crossbeam_channel::{Receiver, Sender};
use vstd::prelude::*;

verus! {

/// Size of the buffer a datagram is received into; longer datagrams are cut.
pub const MAX_DATAGRAM_SIZE: usize = 1024;

/// Number of frames the hand-off queue holds before a sender has to wait.
pub const FRAME_QUEUE_CAPACITY: usize = 10;

/// The mathematical content of a frame: a universe number and its channel
/// values.
pub struct Frame {
    pub universe: u16,
    pub channels: Seq<u8>,
}

impl Frame {
    /// A frame is accepted when its universe has a row in the image and it
    /// carries exactly one value per channel.
    pub open spec fn is_valid(self) -> bool {
        &&& self.universe < MAX_UNIVERSES
        &&& self.channels.len() == UNIVERSE_SIZE
    }
}

/// The channel values received for one universe.
#[derive(Debug, Clone, PartialEq, Eq)]
pub struct DmxData {
    pub universe: u16,
    pub data: Vec<u8>,
}

impl View for DmxData {
    type V = Frame;

    open spec fn view(&self) -> Frame {
        Frame { universe: self.universe, channels: self.data@ }
    }
}

impl DmxData {
    pub fn new(universe: u16, data: Vec<u8>) -> (frame: DmxData)
        ensures
            frame.universe == universe,
            frame.data == data,
    {
        DmxData { universe, data }
    }

    /// Whether the frame may be written into the image.
    pub fn is_valid(&self) -> (valid: bool)
        ensures
            valid == self@.is_valid(),
    {
        (self.universe as usize) < MAX_UNIVERSES && self.data.len() == UNIVERSE_SIZE
    }
}

/// The fields of an ArtNet output command that the listener reads.
#[derive(Debug, Clone, PartialEq, Eq)]
pub struct OutputCommand {
    /// The port address the data is destined for, used as universe number.
    pub port_address: u16,
    /// The payload length the sender declared.
    pub length: u16,
    /// The payload that was actually received.
    pub data: Vec<u8>,
}

/// The mathematical content of an [`OutputCommand`].
pub struct OutputFields {
    pub port_address: u16,
    pub length: u16,
    pub data: Seq<u8>,
}

impl View for OutputCommand {
    type V = OutputFields;

    open spec fn view(&self) -> OutputFields {
        OutputFields { port_address: self.port_address, length: self.length, data: self.data@ }
    }
}

/// Why a datagram produced no frame.
#[derive(Debug, Clone, Copy, PartialEq, Eq)]
pub enum Dropped {
    /// The bytes are not an ArtNet command.
    Malformed,
    /// The bytes are an ArtNet command other than an output command.
    Ignored,
    /// The output command addresses a universe the image has no row for.
    UniverseOutOfRange { universe: u16 },
    /// The declared or the received payload length is not one universe.
    WrongLength { declared: u16, received: usize },
}

impl Dropped {
    /// Whether the drop is worth a warning: everything but a command the
    /// listener has no use for.
    pub open spec fn is_reported(self) -> bool {
        self != Dropped::Ignored
    }

    /// Whether the listener should warn about this drop.
    pub fn warrants_warning(&self) -> (reported: bool)
        ensures
            reported == self.is_reported(),
    {
        match self {
            Dropped::Ignored => false,
            Dropped::Malformed => true,
            Dropped::UniverseOutOfRange { .. } => true,
            Dropped::WrongLength { .. } => true,
        }
    }
}

/// `artnet_protocol::Error`, the decoder's reason for rejecting a datagram.
/// Nothing is read from it.
#[verifier::external_type_specification]
#[verifier::external_body]
pub struct ExArtnetError(artnet_protocol::Error);

/// `crossbeam_channel::Sender`, the sending end of a channel. It is only
/// handed on to the listener.
#[verifier::external_type_specification]
#[verifier::external_body]
#[verifier::reject_recursive_types(T)]
pub struct ExSender<T>(crossbeam_channel::Sender<T>);

/// `crossbeam_channel::Receiver`, the receiving end of a channel.
#[verifier::external_type_specification]
#[verifier::external_body]
#[verifier::reject_recursive_types(T)]
pub struct ExReceiver<T>(crossbeam_channel::Receiver<T>);

/// The receiving end of the frame queue.
pub struct StreamReceiver(pub Receiver<DmxData>);

/// The eight bytes every ArtNet datagram starts with: `Art-Net` and a zero.
pub open spec fn artnet_header() -> Seq<u8> {
    seq![65u8, 114u8, 116u8, 45u8, 78u8, 101u8, 116u8, 0u8]
}

/// Whether the bytes are long enough to hold an opcode and start with the
/// ArtNet header.
pub open spec fn has_artnet_header(bytes: Seq<u8>) -> bool {
    &&& bytes.len() >= 14
    &&& bytes.subrange(0, 8) == artnet_header()
}

/// Whether the bytes are an ArtNet output command: the header, the opcode
/// `0x5000` in little-endian order, the eight bytes that come before the
/// payload, and among them a port address of at most 15 bits.
pub open spec fn is_output_datagram(bytes: Seq<u8>) -> bool {
    &&& has_artnet_header(bytes)
    &&& bytes.len() >= 18
    &&& bytes[8] == 0x00
    &&& bytes[9] == 0x50
    &&& bytes[15] < 0x80
}

/// The fields of an output command as they lie in its bytes: the port
/// address in little-endian order at offset 14, the declared length in
/// big-endian order at offset 16, and the payload from offset 18 to the end.
pub open spec fn output_fields(bytes: Seq<u8>) -> OutputFields {
    OutputFields {
        port_address: (bytes[14] + 256 * bytes[15]) as u16,
        length: (256 * bytes[16] + bytes[17]) as u16,
        data: bytes.subrange(18, bytes.len() as int),
    }
}

/// Whether the ArtNet decoder accepts the bytes as a command of any kind.
pub uninterp spec fn is_artnet_command(bytes: Seq<u8>) -> bool;

/// Decodes a datagram with `artnet_protocol::ArtCommand::from_buffer`.
///
/// Trusted: the decoder's verdict depends on the bytes alone; it turns
/// exactly the output datagrams into an output command whose fields are the
/// ones laid out in the bytes; and it rejects whatever is shorter than 14
/// bytes or lacks the header. Any other command it accepts comes back as
/// `None`.
#[verifier::external_body]
fn decode_command(bytes: &[u8]) -> (decoded: Result<Option<OutputCommand>, artnet_protocol::Error>)
    ensures
        decoded.is_ok() == is_artnet_command(bytes@),
        is_output_datagram(bytes@) ==> decoded.is_ok() && decoded.unwrap().is_some()
            && decoded.unwrap().unwrap()@ == output_fields(bytes@),
        !is_output_datagram(bytes@) ==> decoded.is_err() || decoded.unwrap().is_none(),
        !has_artnet_header(bytes@) ==> decoded.is_err(),
{
    match ArtCommand::from_buffer(bytes) {
        Ok(ArtCommand::Output(output)) => Ok(Some(OutputCommand {
            port_address: output.port_address.into(),
            length: *output.length,
            data: output.data.as_ref().to_vec(),
        })),
        Ok(_) => Ok(None),
        Err(error) => Err(error),
    }
}

/// What validation makes of an output command: the universe is checked
/// first, then both lengths.
pub open spec fn validated(command: OutputFields) -> Result<Frame, Dropped> {
    if command.port_address >= MAX_UNIVERSES {
        Err(Dropped::UniverseOutOfRange { universe: command.port_address })
    } else if command.length != UNIVERSE_SIZE || command.data.len() != UNIVERSE_SIZE {
        Err(Dropped::WrongLength { declared: command.length, received: command.data.len() as usize })
    } else {
        Ok(Frame { universe: command.port_address, channels: command.data })
    }
}

/// What the listener makes of a datagram: an output datagram is validated,
/// any other command the decoder knows is ignored, and the rest, among it
/// whatever lacks the header, is malformed.
pub open spec fn accepted(bytes: Seq<u8>) -> Result<Frame, Dropped> {
    if is_output_datagram(bytes) {
        validated(output_fields(bytes))
    } else if has_artnet_header(bytes) && is_artnet_command(bytes) {
        Err(Dropped::Ignored)
    } else {
        Err(Dropped::Malformed)
    }
}

/// Validation lets through nothing but valid frames, and it lets a command
/// through exactly when its universe has a row and both its declared and its
/// received length are one universe.
pub proof fn lemma_validated_frames_are_valid(command: OutputFields)
    ensures
        validated(command) is Ok <==> (command.port_address < MAX_UNIVERSES && command.length
            == UNIVERSE_SIZE && command.data.len() == UNIVERSE_SIZE),
        validated(command) is Ok ==> validated(command)->Ok_0.is_valid() && validated(
            command,
        )->Ok_0.universe == command.port_address && validated(command)->Ok_0.channels
            == command.data,
{
}

/// A command for a universe without a row yields no frame, whatever else
/// it holds.
pub proof fn lemma_universe_out_of_range(command: OutputFields)
    requires
        command.port_address >= MAX_UNIVERSES,
    ensures
        validated(command) == Err::<Frame, Dropped>(
            Dropped::UniverseOutOfRange { universe: command.port_address },
        ),
{
}

/// A command whose payload is not one universe long yields no frame.
pub proof fn lemma_wrong_length(command: OutputFields)
    requires
        command.data.len() != UNIVERSE_SIZE || command.length != UNIVERSE_SIZE,
    ensures
        validated(command) is Err,
{
}

/// A datagram yields a frame exactly when it is an output datagram of 530
/// bytes for a universe of the image that declares one universe of payload.
/// The frame is then valid and carries the datagram's universe and payload.
/// Whatever lacks the header is malformed.
pub proof fn lemma_accepted_datagrams(bytes: Seq<u8>)
    ensures
        accepted(bytes) is Ok <==> (is_output_datagram(bytes) && output_fields(bytes).port_address
            < MAX_UNIVERSES && output_fields(bytes).length == UNIVERSE_SIZE && bytes.len() == 18
            + UNIVERSE_SIZE),
        accepted(bytes) is Ok ==> accepted(bytes)->Ok_0.is_valid() && accepted(bytes)->Ok_0
            == (Frame {
            universe: output_fields(bytes).port_address,
            channels: bytes.subrange(18, bytes.len() as int),
        }),
        !has_artnet_header(bytes) ==> accepted(bytes) == Err::<Frame, Dropped>(Dropped::Malformed),
{
}

/// Whether an executable outcome is the one the model gives.
pub open spec fn outcome_is(outcome: Result<DmxData, Dropped>, model: Result<Frame, Dropped>) -> bool {
    match outcome {
        Ok(frame) => model == Ok::<Frame, Dropped>(frame@),
        Err(reason) => model == Err::<Frame, Dropped>(reason),
    }
}

/// Turns an output command into a frame, or says why it is dropped.
pub fn validate(command: OutputCommand) -> (outcome: Result<DmxData, Dropped>)
    ensures
        outcome_is(outcome, validated(command@)),
{
    if command.port_address as usize >= MAX_UNIVERSES {
        return Err(Dropped::UniverseOutOfRange { universe: command.port_address });
    }
    if command.length as usize != UNIVERSE_SIZE || command.data.len() != UNIVERSE_SIZE {
        return Err(
            Dropped::WrongLength { declared: command.length, received: command.data.len() },
        );
    }
    Ok(DmxData::new(command.port_address, command.data))
}

/// Decodes and validates one datagram. Only a well-formed output command for
/// a universe of the image, with exactly one universe of payload, yields a
/// frame; everything else is dropped with its reason.
pub fn accept_datagram(bytes: &[u8]) -> (outcome: Result<DmxData, Dropped>)
    ensures
        outcome_is(outcome, accepted(bytes@)),
{
    match decode_command(bytes) {
        Ok(Some(command)) => validate(command),
        Ok(None) => Err(Dropped::Ignored),
        Err(_) => Err(Dropped::Malformed),
    }
}

/// What the listener does with a datagram it has received.
#[derive(Debug, Clone, PartialEq, Eq)]
pub enum ListenerAction {
    /// Push the frame into the frame queue.
    Forward(DmxData),
    /// Report why the datagram was dropped, and go on.
    Warn(Dropped),
    /// Go on without a word.
    Skip,
}

/// Whether an action is the one owed for the model's outcome: a frame is
/// forwarded, a drop is reported, and a command the listener has no use for
/// is passed over.
pub open spec fn action_is(action: ListenerAction, model: Result<Frame, Dropped>) -> bool {
    match action {
        ListenerAction::Forward(frame) => model == Ok::<Frame, Dropped>(frame@),
        ListenerAction::Warn(reason) => model == Err::<Frame, Dropped>(reason)
            && reason.is_reported(),
        ListenerAction::Skip => model == Err::<Frame, Dropped>(Dropped::Ignored),
    }
}

/// One step of the listener: what to do with the datagram just received.
/// No datagram stops the listener; the worst it earns is a warning.
pub fn on_datagram(bytes: &[u8]) -> (action: ListenerAction)
    ensures
        action_is(action, accepted(bytes@)),
{
    match accept_datagram(bytes) {
        Ok(frame) => ListenerAction::Forward(frame),
        Err(reason) => {
            if reason.warrants_warning() {
                ListenerAction::Warn(reason)
            } else {
                ListenerAction::Skip
            }
        },
    }
}

/// The capacity a channel was made with, if it is bounded.
pub uninterp spec fn channel_capacity(receiver: Receiver<DmxData>) -> Option<usize>;

/// Makes a channel with `crossbeam_channel::bounded`.
///
/// Trusted: the receiving end reports the capacity the channel was made with.
#[verifier::external_body]
fn bounded_frames(capacity: usize) -> (ends: (Sender<DmxData>, Receiver<DmxData>))
    requires
        capacity <= 0xffff,
    ensures
        channel_capacity(ends.1) == Some(capacity),
{
    crossbeam_channel::bounded(capacity)
}

/// Asks a receiver for its capacity with `crossbeam_channel::Receiver::capacity`.
///
/// Trusted: the answer is the capacity the channel was made with.
#[verifier::external_body]
fn capacity_of(receiver: &Receiver<DmxData>) -> (capacity: Option<usize>)
    ensures
        capacity == channel_capacity(*receiver),
{
    receiver.capacity()
}

/// Takes whatever is queued right now with `crossbeam_channel::Receiver::try_iter`,
/// in the order of arrival and without waiting.
///
/// Nothing is claimed of what comes back: it depends on what the sending
/// side has done so far.
#[verifier::external_body]
pub(crate) fn pending_frames(receiver: &Receiver<DmxData>) -> (frames: Vec<DmxData>) {
    receiver.try_iter().collect()
}

impl StreamReceiver {
    /// The number of frames the queue holds before a sender has to wait.
    pub fn capacity(&self) -> (capacity: Option<usize>)
        ensures
            capacity == channel_capacity(self.0),
    {
        capacity_of(&self.0)
    }
}

/// Makes the frame queue: the sending end for the listener and the receiving
/// end for the consumer, bounded at [`FRAME_QUEUE_CAPACITY`] frames.
pub fn setup_network() -> (ends: (Sender<DmxData>, StreamReceiver))
    ensures
        channel_capacity(ends.1.0) == Some(FRAME_QUEUE_CAPACITY),
{
    let (sender, receiver) = bounded_frames(FRAME_QUEUE_CAPACITY);
    (sender, StreamReceiver(receiver))
}

} // verus!
