//! A chat relay core: the conversation transcript, the filter that hides
//! in-band tool markup from viewers, the extractor that turns that markup
//! into tool invocations, the turn state machine and the broadcast hub.

pub mod events;
pub mod extract;
pub mod hub;
pub mod json;
pub mod launcher;
pub mod markup;
pub mod prompt;
pub mod registry;
pub mod store;
pub mod stream;
pub mod text;
pub mod tools;
pub mod trace;
pub mod transcript;
pub mod turn;
