//! Health probes that run shell commands on independent schedules and
//! report failures to a chat webhook, together with the pieces of the
//! relay that forwards externally submitted events to the same webhook.
pub mod larkbot;
pub mod probe;
pub mod relay;
pub mod scheduler;
pub mod text;
pub mod time;
pub mod unsafer;
