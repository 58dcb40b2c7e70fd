//! A protocol engine for INSTEON home-automation devices attached through a
//! PowerLinc Modem.
//!
//! The engine has four parts, leaves first:
//!
//! - the frame codec ([`codec`], with [`frame`], [`address`] and [`flags`]):
//!   which bytes make which frame, and back, on a stream that arrives piece
//!   by piece;
//! - the messages and commands that frames carry ([`message`]);
//! - the link broker ([`broker`]): one call at a time on the connection, and
//!   every other frame to the listeners;
//! - the modem orchestrator ([`modem`]): retries, timeouts, acknowledgements
//!   and the linking of devices.
//!
//! The engine neither reads nor writes nor waits. The broker and the modem
//! decide what is to be done next and are told what came of it; the caller
//! owns the connection and the clock.
//!
//! Every function is verified against its contract. What is taken on trust
//! is the byte buffer of the codec, in [`buffer`], and the kind of an I/O
//! error, which [`error`] only carries.

pub mod address;
pub mod broker;
pub mod buffer;
pub mod codec;
pub mod constants;
pub mod error;
pub mod flags;
pub mod frame;
pub mod message;
pub mod modem;
pub mod streaming;

pub use address::Address;
pub use broker::{Broker, BrokerAction, BrokerEvent, BrokerMessage};
pub use codec::FrameCodec;
pub use error::Error;
pub use flags::{AllLinkFlags, MessageFlags};
pub use frame::{AllLinkComplete, AllLinkMode, AllLinkRecord, Frame, ModemInfo};
pub use message::{Command, Message};
pub use modem::{Listener, Modem, ModemAction, ModemEvent, Outcome, DEFAULT_TIMEOUT_MILLIS};
