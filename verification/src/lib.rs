//! The state and the rules of an assistant panel: a chat with a language model that can search the
//! codebase and call tools.
//!
//! The library draws nothing, waits for nothing and sends nothing. A [`chat::AssistantChat`] is
//! plain data. What it wants of its window it asks for in a [`context::ViewContext`], and a
//! request to the model moves on over one event at a time
//! ([`chat::AssistantChat::request_completion`]), each of which yields what is to be done next.
//!
//! Every type has a mathematical value, its deep view, over which the contracts speak. What holds
//! of the library as a whole stands under [`laws`].

pub mod chat;
pub mod codebase;
pub mod completion;
pub mod context;
pub mod conversation;
pub mod delta;
pub mod laws;
pub mod message;
pub mod panel;
pub mod render;
pub mod request;
pub mod round;
pub mod search;
pub mod validity;
