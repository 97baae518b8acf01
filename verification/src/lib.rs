//! whisper-sync: an ambient whisper protocol between fleet agents, carried over
//! PLATO rooms. This crate holds the protocol's logic: whispers and their
//! expiry, tags and relevance, the PLATO tile and URL shapes, the inbox's
//! polling state, and the parsing of whisper content given on the command line.

pub mod clock;
pub mod numfmt;
pub mod whisper;
pub mod filter;
pub mod plato_transport;
pub mod delivery;
pub mod inbox;
pub mod content;

pub use clock::Timestamp;
pub use whisper::{Whisper, WhisperType};
pub use filter::WhisperFilter;
pub use plato_transport::PlatoTransport;
pub use delivery::DeliveryMode;
pub use inbox::Inbox;
pub use content::parse_whisper_type;
