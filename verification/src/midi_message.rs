//! A codec for MIDI channel-voice messages.
//!
//! One complete, already-framed message buffer is decoded into a structured
//! [`MidiMessage`] (status byte -> channel and action nibble, then the
//! action's data bytes), and a structured message is encoded back into its
//! wire bytes. Both directions are pure; framing, device discovery and the
//! receive loop are the transport's business, not the codec's.

use std::time::{SystemTime, UNIX_EPOCH};
use vstd::prelude::*;

verus! {

/// Action nibble (bits 7-4 of the status byte) of each channel-voice kind.
pub const NOTE_OFF: u8 = 0b1000;
pub const NOTE_ON: u8 = 0b1001;
pub const POLYPHONIC_KEY_PRESSURE: u8 = 0b1010;
pub const CONTROL_CHANGE: u8 = 0b1011;
pub const PROGRAM_CHANGE: u8 = 0b1100;
pub const CHANNEL_PRESSURE: u8 = 0b1101;
pub const PITCH_BEND_CHANGE: u8 = 0b1110;

/// One decoded MIDI channel-voice event.
#[derive(Debug, Clone, Copy, PartialEq, Eq, Structural)]
pub struct MidiMessage {
    /// Logical MIDI channel, the low 4 bits of the status byte.
    pub channel: u8,
    /// The event-specific payload, tagged by the action nibble.
    pub message_type: MidiMessageType,
    /// Milliseconds; either supplied by the caller or wall-clock time at
    /// construction.
    pub timestamp: u64,
}

/// The payload of a channel-voice event, one variant per action nibble.
#[derive(Debug, Clone, Copy, PartialEq, Eq, Structural)]
#[allow(inconsistent_fields)]
pub enum MidiMessageType {
    NoteOff { key: u8, velocity: u8 },
    NoteOn { key: u8, velocity: u8 },
    PolyphonicKeyPressure { key: u8, pressure: u8 },
    ControlChange { controller: u8, value: u8 },
    ProgramChange { program: u8 },
    ChannelPressure { pressure: u8 },
    PitchBendChange { value: i16 },
}

impl MidiMessageType {
    /// The action nibble that selects this kind on the wire.
    pub open spec fn action_nibble(self) -> u8 {
        match self {
            MidiMessageType::NoteOff { .. } => NOTE_OFF,
            MidiMessageType::NoteOn { .. } => NOTE_ON,
            MidiMessageType::PolyphonicKeyPressure { .. } => POLYPHONIC_KEY_PRESSURE,
            MidiMessageType::ControlChange { .. } => CONTROL_CHANGE,
            MidiMessageType::ProgramChange { .. } => PROGRAM_CHANGE,
            MidiMessageType::ChannelPressure { .. } => CHANNEL_PRESSURE,
            MidiMessageType::PitchBendChange { .. } => PITCH_BEND_CHANGE,
        }
    }

    /// A pitch-bend value is zero-centered and 14 bits wide on the wire, so
    /// its logical range is [-8192, 8191]. Other kinds carry no pitch value
    /// and satisfy this trivially.
    pub open spec fn pitch_in_range(self) -> bool {
        self matches MidiMessageType::PitchBendChange { value } ==> -8192 <= value <= 8191
    }

    /// Every payload field as the wire format constrains it: data bytes are
    /// 7-bit, the pitch-bend value is in the signed 14-bit range.
    pub open spec fn wf(self) -> bool {
        match self {
            MidiMessageType::NoteOff { key, velocity } => key <= 127 && velocity <= 127,
            MidiMessageType::NoteOn { key, velocity } => key <= 127 && velocity <= 127,
            MidiMessageType::PolyphonicKeyPressure { key, pressure } => key <= 127 && pressure
                <= 127,
            MidiMessageType::ControlChange { controller, value } => controller <= 127 && value
                <= 127,
            MidiMessageType::ProgramChange { program } => program <= 127,
            MidiMessageType::ChannelPressure { pressure } => pressure <= 127,
            MidiMessageType::PitchBendChange { value } => -8192 <= value <= 8191,
        }
    }
}

impl MidiMessage {
    /// The invariant of the wire format: channel fits in 4 bits and the
    /// payload fields are in range.
    pub open spec fn wf(self) -> bool {
        self.channel <= 15 && self.message_type.wf()
    }
}

/// The status byte an encoded message starts with: action nibble in the high
/// 4 bits, channel (reduced to 4 bits) in the low 4.
pub open spec fn spec_status_byte(m: MidiMessage) -> u8 {
    (m.message_type.action_nibble() * 16 + m.channel % 16) as u8
}

/// The wire bytes of a message: the status byte, then the kind's data bytes
/// in the order decoding expects them. A pitch-bend value is offset by +8192
/// and split into two 7-bit groups, least significant first.
pub open spec fn spec_encode(m: MidiMessage) -> Seq<u8>
    recommends
        m.message_type.pitch_in_range(),
{
    let status = spec_status_byte(m);
    match m.message_type {
        MidiMessageType::NoteOff { key, velocity } => seq![status, key, velocity],
        MidiMessageType::NoteOn { key, velocity } => seq![status, key, velocity],
        MidiMessageType::PolyphonicKeyPressure { key, pressure } => seq![status, key, pressure],
        MidiMessageType::ControlChange { controller, value } => seq![status, controller, value],
        MidiMessageType::ProgramChange { program } => seq![status, program],
        MidiMessageType::ChannelPressure { pressure } => seq![status, pressure],
        MidiMessageType::PitchBendChange { value } => seq![
            status,
            (((value + 8192) % 128) as u8),
            (((value + 8192) / 128) as u8),
        ],
    }
}

/// What decoding a framed buffer yields: `None` on an empty buffer, an
/// unrecognized action nibble, or a buffer shorter than the action's data
/// byte count; otherwise the message read from the status byte and data
/// bytes. Data bytes pass through unclamped, except that a pitch-bend
/// payload is read as two 7-bit groups, least significant first, and
/// re-centered by -8192 (the inverse of the encoding).
pub open spec fn spec_decode(bytes: Seq<u8>, timestamp: u64) -> Option<MidiMessage> {
    if bytes.len() == 0 {
        None
    } else {
        let channel = (bytes[0] % 16) as u8;
        let action = bytes[0] / 16;
        if action == NOTE_OFF {
            if bytes.len() < 3 {
                None
            } else {
                Some(
                    MidiMessage {
                        channel,
                        message_type: MidiMessageType::NoteOff {
                            key: bytes[1],
                            velocity: bytes[2],
                        },
                        timestamp,
                    },
                )
            }
        } else if action == NOTE_ON {
            if bytes.len() < 3 {
                None
            } else {
                Some(
                    MidiMessage {
                        channel,
                        message_type: MidiMessageType::NoteOn { key: bytes[1], velocity: bytes[2] },
                        timestamp,
                    },
                )
            }
        } else if action == POLYPHONIC_KEY_PRESSURE {
            if bytes.len() < 3 {
                None
            } else {
                Some(
                    MidiMessage {
                        channel,
                        message_type: MidiMessageType::PolyphonicKeyPressure {
                            key: bytes[1],
                            pressure: bytes[2],
                        },
                        timestamp,
                    },
                )
            }
        } else if action == CONTROL_CHANGE {
            if bytes.len() < 3 {
                None
            } else {
                Some(
                    MidiMessage {
                        channel,
                        message_type: MidiMessageType::ControlChange {
                            controller: bytes[1],
                            value: bytes[2],
                        },
                        timestamp,
                    },
                )
            }
        } else if action == PROGRAM_CHANGE {
            if bytes.len() < 2 {
                None
            } else {
                Some(
                    MidiMessage {
                        channel,
                        message_type: MidiMessageType::ProgramChange { program: bytes[1] },
                        timestamp,
                    },
                )
            }
        } else if action == CHANNEL_PRESSURE {
            if bytes.len() < 2 {
                None
            } else {
                Some(
                    MidiMessage {
                        channel,
                        message_type: MidiMessageType::ChannelPressure { pressure: bytes[1] },
                        timestamp,
                    },
                )
            }
        } else if action == PITCH_BEND_CHANGE {
            if bytes.len() < 3 {
                None
            } else {
                Some(
                    MidiMessage {
                        channel,
                        message_type: MidiMessageType::PitchBendChange {
                            value: ((bytes[1] % 128) + 128 * (bytes[2] % 128) - 8192) as i16,
                        },
                        timestamp,
                    },
                )
            }
        } else {
            None
        }
    }
}

/// Law: encoding a message and decoding the bytes with the same timestamp
/// yields the message back, for every message whose channel fits in 4 bits
/// and whose payload fields are in the wire format's range — payload bytes
/// in [0, 127] and, for a pitch-bend change, the value in [-8192, 8191],
/// whose +8192/7-bit-split encoding the decoder inverts exactly.
pub proof fn lemma_encode_decode_round_trip(m: MidiMessage)
    requires
        m.wf(),
    ensures
        spec_decode(spec_encode(m), m.timestamp) == Some(m),
{
    let a = m.message_type.action_nibble();
    let c = m.channel;
    assert((a * 16 + c) / 16 == a && (a * 16 + c) % 16 == c) by (bit_vector)
        requires
            8 <= a <= 14 && c <= 15,
    ;
    if let MidiMessageType::PitchBendChange { value } = m.message_type {
        vstd::arithmetic::div_mod::lemma_fundamental_div_mod(value + 8192, 128);
    }
}

/// Relies on std::time: `SystemTime::now` read against `UNIX_EPOCH`, taken
/// as whole milliseconds. Nothing is promised of the value, which depends on
/// the host's clock. Aborts if the clock reports a time before the epoch: a
/// host-environment failure, not a codec error.
#[verifier::external_body]
fn now_millis() -> u64 {
    SystemTime::now().duration_since(UNIX_EPOCH).expect("Time went backwards").as_millis() as u64
}

impl MidiMessage {
    /// Builds a message from its parts; without an explicit timestamp the
    /// current wall-clock time in milliseconds is captured.
    pub fn new(channel: u8, message_type: MidiMessageType, stamp: Option<u64>) -> (r: Self)
        ensures
            r.channel == channel,
            r.message_type == message_type,
            stamp matches Some(t) ==> r.timestamp == t,
    {
        let timestamp = match stamp {
            Some(t) => t,
            None => now_millis(),
        };
        Self { channel, message_type, timestamp }
    }

    /// Decodes one complete, framed message buffer, pairing the result with
    /// the given timestamp. Returns `None` exactly when the buffer is empty,
    /// the action nibble is unrecognized, or the buffer is shorter than the
    /// action's data-byte count.
    pub fn from_raw_message(message: &[u8], timestamp: u64) -> (r: Option<Self>)
        ensures
            r == spec_decode(message@, timestamp),
    {
        if message.len() == 0 {
            return None;
        }
        let status_byte = message[0];
        let channel = status_byte & 0b0000_1111;
        let action = status_byte >> 4;
        proof {
            assert(status_byte & 0b0000_1111 == status_byte % 16) by (bit_vector);
            assert(status_byte >> 4 == status_byte / 16) by (bit_vector);
        }
        let message_type = if action == NOTE_OFF {
            if message.len() < 3 {
                return None;
            }
            MidiMessageType::NoteOff { key: message[1], velocity: message[2] }
        } else if action == NOTE_ON {
            if message.len() < 3 {
                return None;
            }
            MidiMessageType::NoteOn { key: message[1], velocity: message[2] }
        } else if action == POLYPHONIC_KEY_PRESSURE {
            if message.len() < 3 {
                return None;
            }
            MidiMessageType::PolyphonicKeyPressure { key: message[1], pressure: message[2] }
        } else if action == CONTROL_CHANGE {
            if message.len() < 3 {
                return None;
            }
            MidiMessageType::ControlChange { controller: message[1], value: message[2] }
        } else if action == PROGRAM_CHANGE {
            if message.len() < 2 {
                return None;
            }
            MidiMessageType::ProgramChange { program: message[1] }
        } else if action == CHANNEL_PRESSURE {
            if message.len() < 2 {
                return None;
            }
            MidiMessageType::ChannelPressure { pressure: message[1] }
        } else if action == PITCH_BEND_CHANGE {
            if message.len() < 3 {
                return None;
            }
            let lsb = message[1];
            let msb = message[2];
            proof {
                assert(lsb & 0x7F == lsb % 128) by (bit_vector);
                assert(msb & 0x7F == msb % 128) by (bit_vector);
            }
            let low = (lsb & 0x7F) as i16;
            let high = (msb & 0x7F) as i16;
            MidiMessageType::PitchBendChange { value: low + 128 * high - 8192 }
        } else {
            return None;
        };
        Some(MidiMessage { channel, message_type, timestamp })
    }

    /// Encodes the message into its wire bytes: the status byte rebuilt from
    /// the kind's action nibble and the channel's low 4 bits, then the
    /// kind's data bytes in the order decoding expects.
    pub fn to_raw_message(&self) -> (r: Vec<u8>)
        requires
            self.message_type.pitch_in_range(),
        ensures
            r@ == spec_encode(*self),
    {
        let action: u8 = match self.message_type {
            MidiMessageType::NoteOff { .. } => NOTE_OFF,
            MidiMessageType::NoteOn { .. } => NOTE_ON,
            MidiMessageType::PolyphonicKeyPressure { .. } => POLYPHONIC_KEY_PRESSURE,
            MidiMessageType::ControlChange { .. } => CONTROL_CHANGE,
            MidiMessageType::ProgramChange { .. } => PROGRAM_CHANGE,
            MidiMessageType::ChannelPressure { .. } => CHANNEL_PRESSURE,
            MidiMessageType::PitchBendChange { .. } => PITCH_BEND_CHANGE,
        };
        let channel = self.channel;
        let status_byte = (action << 4) | (channel & 0b0000_1111);
        proof {
            assert((action << 4) | (channel & 0b0000_1111) == action * 16 + channel % 16)
                by (bit_vector)
                requires
                    action <= 14,
            ;
        }
        let mut message: Vec<u8> = Vec::new();
        message.push(status_byte);
        match self.message_type {
            MidiMessageType::NoteOff { key, velocity } => {
                message.push(key);
                message.push(velocity);
            },
            MidiMessageType::NoteOn { key, velocity } => {
                message.push(key);
                message.push(velocity);
            },
            MidiMessageType::PolyphonicKeyPressure { key, pressure } => {
                message.push(key);
                message.push(pressure);
            },
            MidiMessageType::ControlChange { controller, value } => {
                message.push(controller);
                message.push(value);
            },
            MidiMessageType::ProgramChange { program } => {
                message.push(program);
            },
            MidiMessageType::ChannelPressure { pressure } => {
                message.push(pressure);
            },
            MidiMessageType::PitchBendChange { value } => {
                // Center the signed value at 0x2000 and split it into two
                // 7-bit groups, least significant first.
                let offset = (value + 8192) as u16;
                proof {
                    assert(offset & 0x7F == offset % 128 && (offset >> 7) & 0x7F == offset / 128)
                        by (bit_vector)
                        requires
                            offset < 16384,
                    ;
                }
                message.push((offset & 0x7F) as u8);
                message.push(((offset >> 7) & 0x7F) as u8);
            },
        }
        proof {
            assert(message@ =~= spec_encode(*self));
        }
        message
    }
}

} // verus!
