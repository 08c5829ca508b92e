//! The parameters with which the bridge is set up.

use vstd::prelude::*;
use crate::fault::SinkPolicy;

verus! {

/// The baud rate of a MIDI line.
pub const MIDI_BAUD_RATE: u32 = 31250;

/// How long a serial read waits for a frame, in milliseconds, unless
/// configured otherwise.
pub const DEFAULT_READ_TIMEOUT_MS: u64 = 10;

/// The time stamp handed to the MIDI-out sink with every message: zero, which
/// the sink takes as "now".
pub const SINK_TIMESTAMP_NOW: u64 = 0;

/// Everything the dispatch loop needs to know before it starts.
#[derive(Debug)]
pub struct BridgeConfig {
    /// The serial device to open.
    pub port_name: String,
    /// The baud rate of the serial line.
    pub baud_rate: u32,
    /// How long a read waits for a frame, in milliseconds.
    pub read_timeout_ms: u64,
    /// What to do when the MIDI-out sink rejects a message.
    pub sink_policy: SinkPolicy,
}

impl BridgeConfig {
    /// The configuration for a MIDI line on the named device: 31250 baud, a
    /// read timeout of 10 ms, and a rejected message ends the process.
    pub fn new(port_name: String) -> (config: BridgeConfig)
        ensures
            config.port_name == port_name,
            config.baud_rate == MIDI_BAUD_RATE,
            config.read_timeout_ms == DEFAULT_READ_TIMEOUT_MS,
            config.sink_policy == SinkPolicy::Abort,
    {
        BridgeConfig {
            port_name,
            baud_rate: MIDI_BAUD_RATE,
            read_timeout_ms: DEFAULT_READ_TIMEOUT_MS,
            sink_policy: SinkPolicy::default_policy(),
        }
    }

    /// The same configuration with another read timeout.
    pub fn with_read_timeout(self, milliseconds: u64) -> (config: BridgeConfig)
        ensures
            config.read_timeout_ms == milliseconds,
            config.port_name == self.port_name,
            config.baud_rate == self.baud_rate,
            config.sink_policy == self.sink_policy,
    {
        BridgeConfig {
            port_name: self.port_name,
            baud_rate: self.baud_rate,
            read_timeout_ms: milliseconds,
            sink_policy: self.sink_policy,
        }
    }

    /// The same configuration with another policy for a rejected message.
    pub fn with_sink_policy(self, policy: SinkPolicy) -> (config: BridgeConfig)
        ensures
            config.sink_policy == policy,
            config.port_name == self.port_name,
            config.baud_rate == self.baud_rate,
            config.read_timeout_ms == self.read_timeout_ms,
    {
        BridgeConfig {
            port_name: self.port_name,
            baud_rate: self.baud_rate,
            read_timeout_ms: self.read_timeout_ms,
            sink_policy: policy,
        }
    }
}

} // verus!
