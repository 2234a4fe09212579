//! A command framework for Discord applications: reply construction,
//! command lookup and mention formatting, registration bookkeeping and
//! the per-event dispatch protocol, each stated and proved with Verus.
pub mod dispatch;
pub mod error;
pub mod flags;
pub mod framework;
pub mod reply;
pub mod response;
pub mod text;

pub use dispatch::{
    classify_event, event_name_or_unknown, is_registered_command, Action, CheckOutcome, Dispatch,
    EventKind, Feedback, Stage,
};
pub use error::{AuroraError, AuroraResult};
pub use flags::{ClearFlags, MessageFlags};
pub use framework::{Command, CommandFramework, CommandInfo, RegisteredCommand};
pub use reply::{CreateReply, FieldEdit, ReplyUpdate, ResponseData};
pub use response::{route_for, ResponseFlag, ResponseRoute};
