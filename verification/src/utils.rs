//! What the bot remembers between interactions, and the choices its commands offer.

pub mod handler;
pub mod search_type;
