use vstd::prelude::*;

verus! {

/// Number of bytes in every frame read from the channel.
pub const FRAME_SIZE: usize = 32;

/// Offset of the first byte of the tick counter, the same in every variant.
pub const TICK_OFFSET: usize = 27;

/// The unsigned value of four bytes read in little-endian order.
pub open spec fn le_value(b0: u8, b1: u8, b2: u8, b3: u8) -> int {
    b0 as int + 256 * (b1 as int) + 65536 * (b2 as int) + 16777216 * (b3 as int)
}

/// The little-endian 32-bit value of the four bytes of `s` that start at `off`.
pub open spec fn le_u32_at(s: Seq<u8>, off: int) -> int {
    le_value(s[off], s[off + 1], s[off + 2], s[off + 3])
}

/// Interprets four bytes, lowest first, as an unsigned 32-bit integer.
fn u32_from_le(bytes: [u8; 4]) -> (r: u32)
    ensures
        r as int == le_value(bytes@[0], bytes@[1], bytes@[2], bytes@[3]),
{
    (bytes[0] as u32) + (bytes[1] as u32) * 256 + (bytes[2] as u32) * 65536 + (bytes[3] as u32)
        * 16777216
}

/// Reads the tick counter, which sits at a fixed place near the end of the frame
/// whatever the variant and however many bytes were received.
pub fn extract_tick_count(buffer: &[u8; FRAME_SIZE]) -> (r: u32)
    ensures
        r as int == le_u32_at(buffer@, TICK_OFFSET as int),
{
    let tick: [u8; 4] = [
        buffer[FRAME_SIZE - 5],
        buffer[FRAME_SIZE - 4],
        buffer[FRAME_SIZE - 3],
        buffer[FRAME_SIZE - 2],
    ];
    u32_from_le(tick)
}

/// The four bytes of `x`, lowest first.
pub open spec fn le_bytes(x: u32) -> Seq<u8> {
    seq![
        (x % 256) as u8,
        ((x / 256) % 256) as u8,
        ((x / 65536) % 256) as u8,
        (x / 16777216) as u8,
    ]
}

/// Reading back the little-endian bytes of a 32-bit value gives that value.
pub proof fn lemma_le_bytes_value(x: u32)
    ensures
        le_value(le_bytes(x)[0], le_bytes(x)[1], le_bytes(x)[2], le_bytes(x)[3]) == x as int,
{
    assert(x == (x % 256) + 256 * ((x / 256) % 256) + 65536 * ((x / 65536) % 256) + 16777216 * (x
        / 16777216)) by (bit_vector);
}

/// Tag byte of an environment frame.
pub const ENVIRONMENT_TAG: u8 = 0x00;

/// Tag byte of a ballast frame.
pub const BALLAST_TAG: u8 = 0x01;

/// Tag byte of a system frame.
pub const SYSTEM_TAG: u8 = 0x0F;

/// Readings of the enclosure's environment.
#[derive(Debug, Clone, Copy, PartialEq, Eq, Structural)]
pub struct EnvironmentTelemetry {
    pub internal_temperature_c: u8,
    pub internal_humidity_percent: u8,
    pub is_stale: bool,
}

/// Scheduler timing of the sending system.
#[derive(Debug, Clone, Copy, PartialEq, Eq, Structural)]
pub struct SystemTelemetry {
    pub tick_delta: u32,
    pub tick_idle_time: u32,
    pub total_tick_time: u32,
}

/// State of the ballast control.
#[derive(Debug, Clone, Copy, PartialEq, Eq, Structural)]
pub struct BallastTelemetry {
    pub current_state: u8,
    pub target_state: u8,
}

/// The environment record that a frame holds: bytes 0 and 1 verbatim, stale
/// exactly when byte 2 is zero.
pub open spec fn environment_of(s: Seq<u8>) -> EnvironmentTelemetry {
    EnvironmentTelemetry {
        internal_temperature_c: s[0],
        internal_humidity_percent: s[1],
        is_stale: s[2] == 0,
    }
}

/// The system record that a frame holds: three little-endian words at 0, 4 and 8.
pub open spec fn system_of(s: Seq<u8>) -> SystemTelemetry {
    SystemTelemetry {
        tick_delta: le_u32_at(s, 0) as u32,
        tick_idle_time: le_u32_at(s, 4) as u32,
        total_tick_time: le_u32_at(s, 8) as u32,
    }
}

/// The ballast record that a frame holds: bytes 0 and 1 verbatim.
pub open spec fn ballast_of(s: Seq<u8>) -> BallastTelemetry {
    BallastTelemetry { current_state: s[0], target_state: s[1] }
}

impl EnvironmentTelemetry {
    /// Decodes the environment record from the fixed offsets of a frame.
    pub fn deserialize(buffer: &[u8; FRAME_SIZE]) -> (r: Self)
        ensures
            r == environment_of(buffer@),
    {
        Self {
            internal_temperature_c: buffer[0],
            internal_humidity_percent: buffer[1],
            is_stale: buffer[2] < 1,
        }
    }
}

impl SystemTelemetry {
    /// Decodes the system record from the fixed offsets of a frame.
    pub fn deserialize(buffer: &[u8; FRAME_SIZE]) -> (r: Self)
        ensures
            r == system_of(buffer@),
    {
        let mut delta: [u8; 4] = [0; 4];
        let mut idle: [u8; 4] = [0; 4];
        let mut total: [u8; 4] = [0; 4];

        delta[0] = buffer[0];
        delta[1] = buffer[1];
        delta[2] = buffer[2];
        delta[3] = buffer[3];

        idle[0] = buffer[4];
        idle[1] = buffer[5];
        idle[2] = buffer[6];
        idle[3] = buffer[7];

        total[0] = buffer[8];
        total[1] = buffer[9];
        total[2] = buffer[10];
        total[3] = buffer[11];

        Self {
            tick_delta: u32_from_le(delta),
            tick_idle_time: u32_from_le(idle),
            total_tick_time: u32_from_le(total),
        }
    }
}

impl BallastTelemetry {
    /// Decodes the ballast record from the fixed offsets of a frame.
    pub fn deserialize(buffer: &[u8; FRAME_SIZE]) -> (r: Self)
        ensures
            r == ballast_of(buffer@),
    {
        Self { current_state: buffer[0], target_state: buffer[1] }
    }
}

/// The record that a frame's tag selects.
#[derive(Debug, Clone, Copy, PartialEq, Eq, Structural)]
pub enum Telemetry {
    Environment(EnvironmentTelemetry),
    Ballast(BallastTelemetry),
    System(SystemTelemetry),
}

/// A decoded frame: its record and the tick counter that every frame carries.
#[derive(Debug, Clone, Copy, PartialEq, Eq, Structural)]
pub struct DecodedFrame {
    pub telemetry: Telemetry,
    pub tick_count: u32,
}

/// Why a frame yields no record.
#[derive(Debug, Clone, Copy, PartialEq, Eq, Structural)]
pub enum DecodeError {
    /// No byte was received, so there is no tag to read.
    ShortFrame,
    /// The tag byte names no known variant; it is carried as received.
    UnrecognizedTag(u8),
}

/// The tick counter of a frame.
pub open spec fn tick_of(s: Seq<u8>) -> u32 {
    le_u32_at(s, TICK_OFFSET as int) as u32
}

/// What a frame decodes to when `n` of its bytes were received. The tag is the
/// last received byte, while every field is read at its fixed offset in the
/// whole frame, received or not.
pub open spec fn frame_decoding(s: Seq<u8>, n: int) -> Result<DecodedFrame, DecodeError> {
    if n == 0 {
        Err(DecodeError::ShortFrame)
    } else {
        let tag = s[n - 1];
        if tag == ENVIRONMENT_TAG {
            Ok(DecodedFrame { telemetry: Telemetry::Environment(environment_of(s)), tick_count: tick_of(s) })
        } else if tag == BALLAST_TAG {
            Ok(DecodedFrame { telemetry: Telemetry::Ballast(ballast_of(s)), tick_count: tick_of(s) })
        } else if tag == SYSTEM_TAG {
            Ok(DecodedFrame { telemetry: Telemetry::System(system_of(s)), tick_count: tick_of(s) })
        } else {
            Err(DecodeError::UnrecognizedTag(tag))
        }
    }
}

/// Decodes a frame of which the first `received_length` bytes were received.
/// With nothing received no record is decoded and `ShortFrame` comes back.
pub fn decode_frame(buffer: &[u8; FRAME_SIZE], received_length: usize) -> (r: Result<
    DecodedFrame,
    DecodeError,
>)
    requires
        received_length <= FRAME_SIZE,
    ensures
        r == frame_decoding(buffer@, received_length as int),
        received_length == 0 ==> r == Err::<DecodedFrame, DecodeError>(DecodeError::ShortFrame),
        received_length > 0 ==> match r {
            Ok(f) => f.tick_count as int == le_u32_at(buffer@, TICK_OFFSET as int),
            Err(e) => e == DecodeError::UnrecognizedTag(buffer@[received_length - 1]),
        },
{
    if received_length < 1 {
        return Err(DecodeError::ShortFrame);
    }
    let tick_count = extract_tick_count(buffer);
    let tag = buffer[received_length - 1];
    if tag == ENVIRONMENT_TAG {
        Ok(DecodedFrame { telemetry: Telemetry::Environment(EnvironmentTelemetry::deserialize(buffer)), tick_count })
    } else if tag == BALLAST_TAG {
        Ok(DecodedFrame { telemetry: Telemetry::Ballast(BallastTelemetry::deserialize(buffer)), tick_count })
    } else if tag == SYSTEM_TAG {
        Ok(DecodedFrame { telemetry: Telemetry::System(SystemTelemetry::deserialize(buffer)), tick_count })
    } else {
        Err(DecodeError::UnrecognizedTag(tag))
    }
}

/// Three words written little-endian at offsets 0, 4 and 8 of a frame come back
/// from the system record as they were written.
pub proof fn lemma_system_round_trip(s: Seq<u8>, d: u32, i: u32, t: u32)
    requires
        s.len() == FRAME_SIZE,
        s.subrange(0, 4) == le_bytes(d),
        s.subrange(4, 8) == le_bytes(i),
        s.subrange(8, 12) == le_bytes(t),
    ensures
        system_of(s) == (SystemTelemetry { tick_delta: d, tick_idle_time: i, total_tick_time: t }),
{
    lemma_le_bytes_value(d);
    lemma_le_bytes_value(i);
    lemma_le_bytes_value(t);
    assert(s.subrange(0, 4)[1] == s[1]);
    assert(s.subrange(4, 8)[1] == s[5]);
    assert(s.subrange(8, 12)[1] == s[9]);
}

/// A value written little-endian into the tick counter's four bytes is read back
/// unchanged, whatever the tag and however many bytes were received.
pub proof fn lemma_tick_round_trip(s: Seq<u8>, x: u32, n: int)
    requires
        s.len() == FRAME_SIZE,
        s.subrange(TICK_OFFSET as int, TICK_OFFSET + 4) == le_bytes(x),
        0 < n <= FRAME_SIZE,
    ensures
        tick_of(s) == x,
        frame_decoding(s, n) matches Ok(f) ==> f.tick_count == x,
{
    lemma_le_bytes_value(x);
    assert(s.subrange(TICK_OFFSET as int, TICK_OFFSET + 4)[1] == s[TICK_OFFSET + 1]);
}

/// Decoding depends on the received bytes and their count alone: two frames with
/// the same contents and the same count decode to equal results.
pub proof fn lemma_decoding_deterministic(a: [u8; FRAME_SIZE], b: [u8; FRAME_SIZE], n: int)
    requires
        a@ == b@,
        0 <= n <= FRAME_SIZE,
    ensures
        frame_decoding(a@, n) == frame_decoding(b@, n),
{
}

} // verus!
