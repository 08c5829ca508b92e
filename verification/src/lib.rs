//! A bridge between a serial line that carries three-byte MIDI frames and a
//! virtual MIDI endpoint of the host.
//!
//! Frames read from the serial line are classified into Note On, Note Off and
//! Control Change messages, masked into their valid ranges and handed to the
//! MIDI-out sink. Bytes that the host delivers to the virtual input travel
//! through a first-in-first-out queue and are written to the serial line in
//! the order in which they arrived.

pub mod config;
pub mod dispatcher;
pub mod fault;
pub mod frame;
pub mod message;
pub mod port;
pub mod queue;
pub mod relay;
pub mod report;
