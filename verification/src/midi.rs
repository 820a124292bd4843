//! MIDI channel voice messages: the status codes, and the decoding of a raw
//! three-byte message.

use vstd::prelude::*;

verus! {

/// The kinds of channel voice message. Each is bound to one four-bit status
/// code, from 0x8 to 0xE; no other code names a kind.
#[derive(Debug, Clone, Copy, PartialEq, Eq, Structural)]
pub enum MidiMessageTypes {
    NoteOff,
    NoteOn,
    PolyphonicPressure,
    ControlChange,
    ProgramChange,
    ChannelPressure,
    PitchBend,
}

impl MidiMessageTypes {
    /// The status code of this kind.
    pub open spec fn spec_code(self) -> u8 {
        match self {
            MidiMessageTypes::NoteOff => 0x8,
            MidiMessageTypes::NoteOn => 0x9,
            MidiMessageTypes::PolyphonicPressure => 0xA,
            MidiMessageTypes::ControlChange => 0xB,
            MidiMessageTypes::ProgramChange => 0xC,
            MidiMessageTypes::ChannelPressure => 0xD,
            MidiMessageTypes::PitchBend => 0xE,
        }
    }

    /// The status code of this kind.
    #[verifier::when_used_as_spec(spec_code)]
    pub fn code(self) -> (code: u8)
        ensures
            code == self.spec_code(),
            kind_of_code(code) == Some(self),
    {
        match self {
            MidiMessageTypes::NoteOff => 0x8,
            MidiMessageTypes::NoteOn => 0x9,
            MidiMessageTypes::PolyphonicPressure => 0xA,
            MidiMessageTypes::ControlChange => 0xB,
            MidiMessageTypes::ProgramChange => 0xC,
            MidiMessageTypes::ChannelPressure => 0xD,
            MidiMessageTypes::PitchBend => 0xE,
        }
    }
}

/// The kind that a four-bit status code names, if any.
pub open spec fn kind_of_code(code: u8) -> Option<MidiMessageTypes> {
    if code == 0x8 {
        Some(MidiMessageTypes::NoteOff)
    } else if code == 0x9 {
        Some(MidiMessageTypes::NoteOn)
    } else if code == 0xA {
        Some(MidiMessageTypes::PolyphonicPressure)
    } else if code == 0xB {
        Some(MidiMessageTypes::ControlChange)
    } else if code == 0xC {
        Some(MidiMessageTypes::ProgramChange)
    } else if code == 0xD {
        Some(MidiMessageTypes::ChannelPressure)
    } else if code == 0xE {
        Some(MidiMessageTypes::PitchBend)
    } else {
        None
    }
}

/// The codes and the kinds stand one to one: a code names a kind exactly
/// when that kind has it as its code, and so each kind is the one that its
/// own code names. Exactly the codes from 0x8 to 0xE name a kind.
pub proof fn lemma_codes_and_kinds(code: u8, kind: MidiMessageTypes)
    ensures
        kind_of_code(code) == Some(kind) <==> kind.spec_code() == code,
        kind_of_code(kind.spec_code()) == Some(kind),
        kind_of_code(code) is Some <==> 0x8 <= code <= 0xE,
{
}

impl TryFrom<u8> for MidiMessageTypes {
    type Error = ();

    /// The kind that `value` is the status code of; an error for every other
    /// value. What it returns is stated by `try_from_spec` below.
    fn try_from(value: u8) -> (ret: Result<Self, Self::Error>) {
        match value {
            0x8 => Ok(MidiMessageTypes::NoteOff),
            0x9 => Ok(MidiMessageTypes::NoteOn),
            0xA => Ok(MidiMessageTypes::PolyphonicPressure),
            0xB => Ok(MidiMessageTypes::ControlChange),
            0xC => Ok(MidiMessageTypes::ProgramChange),
            0xD => Ok(MidiMessageTypes::ChannelPressure),
            0xE => Ok(MidiMessageTypes::PitchBend),
            _ => Err(()),
        }
    }
}

impl vstd::std_specs::convert::TryFromSpecImpl<u8> for MidiMessageTypes {
    open spec fn obeys_try_from_spec() -> bool {
        true
    }

    /// The result of `try_from`: the kind that the code names, and the error
    /// where it names none.
    open spec fn try_from_spec(v: u8) -> Result<Self, Self::Error> {
        match kind_of_code(v) {
            Some(kind) => Ok(kind),
            None => Err(()),
        }
    }
}

/// Why the MIDI input could not be set up, or a message not decoded.
#[derive(Debug, Clone, Copy, PartialEq, Eq, Structural)]
pub enum MidiError {
    /// No MIDI input port is available.
    NoInputPort,
    /// Several ports are available and the position asked for names none of
    /// them.
    InvalidPortSelected,
    /// The high nibble of the first byte is not the status code of a channel
    /// voice message.
    IncorrectMessageType,
    /// The message has fewer than three bytes.
    MessageTooShort,
}

impl MidiError {
    /// A short description of the error.
    pub fn message(&self) -> (text: &'static str)
        ensures
            text@ == match *self {
                MidiError::NoInputPort => "no input port found"@,
                MidiError::InvalidPortSelected => "invalid MIDI input port selected"@,
                MidiError::IncorrectMessageType => "Incorrect MidiMessageType"@,
                MidiError::MessageTooShort => "MIDI message shorter than three bytes"@,
            },
    {
        match self {
            MidiError::NoInputPort => "no input port found",
            MidiError::InvalidPortSelected => "invalid MIDI input port selected",
            MidiError::IncorrectMessageType => "Incorrect MidiMessageType",
            MidiError::MessageTooShort => "MIDI message shorter than three bytes",
        }
    }
}

/// A decoded channel voice message.
///
/// A raw message has three bytes. The high nibble of the first is the status
/// code and its low nibble the channel; the other two are data bytes, whose
/// meaning depends on the kind:
///
/// | kind               | code | data byte 1       | data byte 2        |
/// |--------------------|------|-------------------|--------------------|
/// | NoteOff            | 8    | key number        | note off velocity  |
/// | NoteOn             | 9    | key number        | note on velocity   |
/// | PolyphonicPressure | A    | key number        | amount of pressure |
/// | ControlChange      | B    | controller number | controller value   |
/// | ProgramChange      | C    | program number    | none               |
/// | ChannelPressure    | D    | pressure value    | none               |
/// | PitchBend          | E    | MSB               | LSB                |
#[derive(Debug, Clone, Copy, PartialEq, Eq, Structural)]
pub struct MidiMessageData {
    pub channel: u8,
    pub status_byte: MidiMessageTypes,
    pub data_byte1: u8,
    pub data_byte2: u8,
}

/// The upper four bits of a byte.
pub open spec fn high_nibble(byte: u8) -> u8 {
    (byte / 16) as u8
}

/// The lower four bits of a byte.
pub open spec fn low_nibble(byte: u8) -> u8 {
    (byte % 16) as u8
}

/// What three raw bytes decode to: nothing where the high nibble of the first
/// names no kind. The data bytes are taken as they are.
pub open spec fn decoded(byte0: u8, byte1: u8, byte2: u8) -> Option<MidiMessageData> {
    match kind_of_code(high_nibble(byte0)) {
        Some(kind) => Some(
            MidiMessageData {
                channel: low_nibble(byte0),
                status_byte: kind,
                data_byte1: byte1,
                data_byte2: byte2,
            },
        ),
        None => None,
    }
}

impl MidiMessageData {
    /// Decodes three raw bytes.
    ///
    /// Succeeds exactly when the high nibble of `byte0` is one of the seven
    /// status codes, that is when `byte0` lies between 0x80 and 0xEF. The
    /// message then has the kind of that code and the low nibble of `byte0`
    /// as its channel.
    pub fn new(byte0: u8, byte1: u8, byte2: u8) -> (result: Result<MidiMessageData, MidiError>)
        ensures
            result == match decoded(byte0, byte1, byte2) {
                Some(data) => Ok::<MidiMessageData, MidiError>(data),
                None => Err(MidiError::IncorrectMessageType),
            },
            result is Ok <==> 0x8 <= byte0 >> 4 <= 0xE,
            result is Ok <==> 0x80 <= byte0 <= 0xEF,
            result matches Ok(data) ==> {
                &&& data.channel == byte0 & 0x0F
                &&& data.status_byte.code() == byte0 >> 4
                &&& data.data_byte1 == byte1
                &&& data.data_byte2 == byte2
            },
    {
        let code: u8 = byte0 >> 4;
        let channel: u8 = byte0 & 0x0F;
        proof {
            lemma_nibbles(byte0);
        }
        match MidiMessageTypes::try_from(code) {
            Ok(kind) => Ok(
                MidiMessageData { channel, status_byte: kind, data_byte1: byte1, data_byte2: byte2 },
            ),
            Err(_) => Err(MidiError::IncorrectMessageType),
        }
    }
}

/// How many times a NoteOn event is forwarded by default. One splice is not
/// always enough for the console to see the hit, so each event is offered to
/// consecutive input reports.
pub const NOTE_REPEAT: usize = 2;

/// What a raw message of any length decodes to: its first three bytes are
/// decoded, and a message of fewer bytes does not decode.
pub open spec fn decoded_message(message: Seq<u8>) -> Result<MidiMessageData, MidiError> {
    if message.len() < 3 {
        Err(MidiError::MessageTooShort)
    } else {
        match decoded(message[0], message[1], message[2]) {
            Some(data) => Ok(data),
            None => Err(MidiError::IncorrectMessageType),
        }
    }
}

/// The events that the input callback forwards for one raw message: a NoteOn
/// event `repeat` times over, and nothing for a message of another kind. A
/// message that does not decode gives the error, and forwards nothing.
pub open spec fn forwarded(message: Seq<u8>, repeat: nat) -> Result<Seq<MidiMessageData>, MidiError> {
    match decoded_message(message) {
        Ok(data) => Ok(
            if data.status_byte == MidiMessageTypes::NoteOn {
                Seq::new(repeat, |i: int| data)
            } else {
                Seq::empty()
            },
        ),
        Err(error) => Err(error),
    }
}

/// The events to push onto the MIDI queue for one raw message, in order.
///
/// A NoteOn is forwarded `repeat` times and every other kind of message is
/// dropped. A message that does not decode is to be dropped too: the error
/// says why, for the caller to report before it goes on with the next
/// message.
pub fn note_events(message: &[u8], repeat: usize) -> (result: Result<
    Vec<MidiMessageData>,
    MidiError,
>)
    ensures
        match forwarded(message@, repeat as nat) {
            Ok(events) => result matches Ok(given) && given@ == events,
            Err(error) => result == Err::<Vec<MidiMessageData>, MidiError>(error),
        },
        result is Ok <==> message@.len() >= 3 && 0x80 <= message@[0] <= 0xEF,
{
    if message.len() < 3 {
        return Err(MidiError::MessageTooShort);
    }
    let data = match MidiMessageData::new(message[0], message[1], message[2]) {
        Ok(data) => data,
        Err(error) => {
            return Err(error);
        },
    };
    let mut events: Vec<MidiMessageData> = Vec::new();
    if data.status_byte == MidiMessageTypes::NoteOn {
        let mut sent: usize = 0;
        while sent < repeat
            invariant
                sent <= repeat,
                events@ == Seq::new(sent as nat, |i: int| data),
            decreases repeat - sent,
        {
            events.push(data);
            sent = sent + 1;
        }
    }
    Ok(events)
}

/// The port that the input connects to, among `available` ports: none where
/// there is no port, the only one where there is one, and otherwise the one at
/// `position`, which must name a port.
pub open spec fn selected_port(available: nat, position: nat) -> Result<nat, MidiError> {
    if available == 0 {
        Err(MidiError::NoInputPort)
    } else if available == 1 {
        Ok(0)
    } else if position < available {
        Ok(position)
    } else {
        Err(MidiError::InvalidPortSelected)
    }
}

/// Chooses the input port to connect to, by its index among the `available`
/// ports. With a single port `position` is not looked at.
pub fn select_port(available: usize, position: usize) -> (result: Result<usize, MidiError>)
    ensures
        match selected_port(available as nat, position as nat) {
            Ok(index) => result == Ok::<usize, MidiError>(index as usize),
            Err(error) => result == Err::<usize, MidiError>(error),
        },
        result matches Ok(index) ==> index < available,
{
    if available == 0 {
        Err(MidiError::NoInputPort)
    } else if available == 1 {
        Ok(0)
    } else if position < available {
        Ok(position)
    } else {
        Err(MidiError::InvalidPortSelected)
    }
}

/// Shifting and masking a byte give its two nibbles.
pub proof fn lemma_nibbles(byte: u8)
    ensures
        byte >> 4 == high_nibble(byte),
        byte & 0x0F == low_nibble(byte),
        high_nibble(byte) < 16,
        low_nibble(byte) < 16,
        byte == high_nibble(byte) * 16 + low_nibble(byte),
{
    assert(byte >> 4 == byte / 16) by (bit_vector);
    assert(byte & 0x0F == byte % 16) by (bit_vector);
}

} // verus!
