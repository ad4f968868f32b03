//! A chat pipeline of two backends, with its accounting.
//!
//! A request is answered in two calls, one after the other. The reasoning
//! backend continues the conversation; its whole answer, put between two
//! marks, joins the conversation as an assistant turn; and the answering
//! backend continues that. An answer is given whole (`batched`) or as a
//! stream of events (`session`, `stream`, `streamed`); `dispatch` is the one
//! entry to both. `usage` counts tokens and prices them, `credentials` reads
//! the upstream credential, and `laws` holds what is proved of all of it.
//!
//! The library calls no backend and sends no event. It is handed what a
//! backend answered and says what follows from it.

pub mod backend;
pub mod batched;
pub mod clock;
pub mod config;
pub mod credentials;
pub mod dispatch;
pub mod error;
pub mod event;
pub mod laws;
pub mod message;
pub mod request;
pub mod response;
pub mod session;
pub mod stream;
pub mod streamed;
pub mod text;
pub mod usage;
