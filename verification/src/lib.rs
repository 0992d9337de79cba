//! Control of the LED ring of a Beacn microphone over its raw USB command
//! channel: the parameter catalog, the codec of 4-byte wire values, the
//! framing and validation of the command protocol, and the device actor as
//! a state machine that an I/O shell drives.

pub mod channel;
pub mod device;
pub mod messages;
pub mod state;
pub mod style;
