pub mod calendar;
pub mod compositor;
pub mod error;
pub mod laws;
pub mod models;
pub mod protocol;
pub mod reply;
pub mod session;
pub mod status;
pub mod streaming;
pub mod text;
pub mod think;
