//! Client logic for running Luau scripts through the Open Cloud execution API:
//! request URLs, submission payloads, the credential header, reply handling,
//! the polling policy and log extraction, each with a verified contract.

pub mod config;
pub mod digits;
pub mod endpoints;
pub mod error;
pub mod model;
pub mod poll;
pub mod reply;
pub mod transport;
pub mod upload;

pub use config::{Config, Theme};
pub use endpoints::{
    create_task_url, exchange_report, is_success_status, task_logs_url, task_query_url, LogView,
};
pub use error::Error;
pub use model::{
    FullOpenCloudExecutionTask, MessageType, OpenCloudError, OpenCloudExecutionTask, OpenCloudLog,
    OpenCloudLogs, OpenCloudOutput, OpenCloudState, StructuredMessage,
};
pub use poll::{PollAction, PollOutcome, Poller};
pub use reply::{settle_reply, ReplyBody};
pub use transport::api_header;
pub use upload::OpenCloudTaskUpload;
