//! Decoding of fixed-size binary telemetry frames into typed records.

pub mod codec;

pub use codec::{
    decode_frame, extract_tick_count, BallastTelemetry, DecodeError, DecodedFrame,
    EnvironmentTelemetry, SystemTelemetry, Telemetry, FRAME_SIZE,
};
