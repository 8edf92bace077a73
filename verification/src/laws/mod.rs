//! What holds of the library as a whole.

pub mod chat;
pub mod codebase;
pub mod conversation;
pub mod list;
pub mod moves;
pub mod render;
pub mod request;
pub mod rounds;
pub mod stream;
pub mod views;
