//! A terminal chat client's verified core: the session state machine that mediates
//! between key presses, the chat store and the conversation service, the projection of
//! its state onto the screen, and the text handling around them.

pub mod console;
pub mod message;
pub mod screen;
pub mod session;
pub mod store;
pub mod text;
