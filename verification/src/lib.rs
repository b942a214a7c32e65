//! Workflow engine of an emoji lottery bot: the rules of a season, the
//! request router, the key-value store client and the chat notifiers,
//! written without I/O so that a host can drive them.
//!
//! The host hands the engine one [`Event`] at a time and carries out the
//! [`Action`] that comes back, until that action is [`Action::Respond`].

pub mod calendar;
pub mod discord;
pub mod emoji;
pub mod engine;
pub mod error;
pub mod http;
pub mod kv;
pub mod route;
pub mod slack;
pub mod text;
pub mod time;

pub use crate::engine::bot_step;
pub use crate::engine::events;
pub use crate::engine::interactive_bot;
pub use crate::engine::unhandled;
pub use crate::engine::Action;
pub use crate::engine::ActionView;
pub use crate::engine::BodyKind;
pub use crate::engine::BotConfig;
pub use crate::engine::Event;
pub use crate::engine::Inbound;
pub use crate::engine::Reply;
pub use crate::engine::ReplyView;
pub use crate::engine::State;
pub use crate::engine::Step;
pub use crate::slack::MessageEvent;
