//! Client-side protocol stack for MDR headphones, in three layers.
//!
//! - [`frame`] and [`scanner`]: the frame codec. Bytes on the link are
//!   escaped, checksummed and delimited; the scanner cuts a byte stream into
//!   frames and drops what is malformed. [`frame_laws`] holds what is proved
//!   of the codec as a whole.
//! - [`mdr`] and [`opcodes`]: the packet codec. The content of a frame is
//!   decoded into one of a closed set of typed packets, and the packets that
//!   are sent are encoded into bytes.
//! - [`connection`] and [`properties`]: the session with one device. It
//!   names the frames that open a session, acknowledges every inbound frame
//!   and keeps the snapshot of what the device has reported. [`packet_laws`]
//!   holds what is proved of packets and sessions.
//!
//! [`bytes`], [`hex`], [`platforms`], [`guid`] and [`query`] hold what the
//! layers and their callers share: big-endian integers, hexadecimal text,
//! device addresses, service identifiers and optimistic values.

pub mod bytes;
pub mod connection;
pub mod frame;
pub mod frame_laws;
pub mod guid;
pub mod hex;
pub mod mdr;
pub mod opcodes;
pub mod packet_laws;
pub mod platforms;
pub mod properties;
pub mod query;
pub mod scanner;
