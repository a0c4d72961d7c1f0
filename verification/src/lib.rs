//! The request pipeline of a data service's command endpoint.
//!
//! A request is taken in under a size limit, its output format is negotiated,
//! its body is read as text, its session is checked, and only then is it
//! handed to the datastore or to the authentication service; what comes back
//! is written in the negotiated format. Every stage can fail, and every
//! failure has one class and one status.
//!
//! The pipeline does no I/O of its own. `pipeline::Pipeline` is a machine
//! that is fed events and answers with the next thing to do; `laws` states
//! what holds of every run of it.

pub mod body;
pub mod codec;
pub mod credentials;
pub mod error;
pub mod laws;
pub mod outcome;
pub mod pipeline;
pub mod response;
pub mod route;
pub mod session;
pub mod text;

pub use outcome::Success;
