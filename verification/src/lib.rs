pub mod auth;
pub mod config;
pub mod connector;
pub mod error;
pub mod recognizer;
pub mod synthesizer;
pub mod text;
pub mod translator;
pub mod utils;

pub use auth::Auth;
pub use connector::{Data, Message, RequestId};
pub use error::Error;
