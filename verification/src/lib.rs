pub mod cli;
pub mod command;
pub mod consts;
pub mod error;
pub mod models;
pub mod naming;
pub mod operation;
pub mod pipeline;
pub mod request;
pub mod runs;
pub mod strings;
pub mod transcript;

pub use cli::{process_input, Cli};
pub use command::Commander;
pub use error::Error;
pub use models::{CompletionChoice, DataItem, ImageResponse, MessageItem, TextResponse};
pub use operation::Operation;
