use vstd::prelude::*;

verus! {

/// Declared so that task outputs can carry the JSON values the script returned.
#[verifier::external_type_specification]
#[verifier::external_body]
pub struct ExJsonValue(serde_json::Value);

/// The lifecycle state of a remote execution task.
#[derive(Debug, Clone, Copy, PartialEq, Eq)]
pub enum OpenCloudState {
    StateUnspecified,
    Queued,
    Processing,
    Cancelled,
    Complete,
    Failed,
}

impl OpenCloudState {
    /// Terminal states are those from which the server makes no further transition.
    /// An unspecified state is not taken for a terminal one.
    pub open spec fn spec_is_terminal(self) -> bool {
        self is Cancelled || self is Complete || self is Failed
    }

    pub fn is_terminal(&self) -> (r: bool)
        ensures
            r == self.spec_is_terminal(),
    {
        match self {
            OpenCloudState::Cancelled | OpenCloudState::Complete | OpenCloudState::Failed => true,
            OpenCloudState::StateUnspecified
            | OpenCloudState::Queued
            | OpenCloudState::Processing => false,
        }
    }
}

/// A submitted task as returned by the submission endpoint.
#[derive(Debug, Clone)]
pub struct OpenCloudExecutionTask {
    /// Resource path of the task; also the key under which it is polled.
    pub path: String,
    pub user: String,
    pub state: OpenCloudState,
    pub script: String,
}

/// What a successful task returned.
#[derive(Debug, Clone)]
pub struct OpenCloudOutput {
    pub results: Vec<serde_json::Value>,
}

/// The error body of a failed request, or the failure of a task.
#[derive(Debug, Clone, PartialEq, Eq)]
pub struct OpenCloudError {
    pub code: String,
    pub message: String,
}

/// A task as returned by the query endpoint. Timestamps are passed through as given.
#[derive(Debug, Clone)]
pub struct FullOpenCloudExecutionTask {
    pub base_task: OpenCloudExecutionTask,
    pub create_time: String,
    pub update_time: String,
    pub output: Option<OpenCloudOutput>,
    pub error: Option<OpenCloudError>,
}

/// The category of a structured log message.
#[derive(Debug, Clone, Copy, PartialEq, Eq)]
pub enum MessageType {
    Info,
    Output,
    Warning,
    Error,
}

/// One log message with its time and category.
#[derive(Debug, Clone, PartialEq, Eq)]
pub struct StructuredMessage {
    pub message: String,
    pub create_time: String,
    pub message_type: MessageType,
}

/// The logs that a task produced.
#[derive(Debug, Clone, PartialEq, Eq)]
pub struct OpenCloudLog {
    pub path: String,
    pub messages: Vec<String>,
    pub structured_messages: Option<Vec<StructuredMessage>>,
}

/// One page of the logs endpoint's reply.
#[derive(Debug, Clone, PartialEq, Eq)]
pub struct OpenCloudLogs {
    pub task_logs: Vec<OpenCloudLog>,
    pub next_page_token: String,
}

impl OpenCloudLogs {
    /// The plain messages of the first log collection, or none if there is none.
    pub open spec fn spec_flat_messages(self) -> Seq<String> {
        if self.task_logs@.len() == 0 {
            Seq::empty()
        } else {
            self.task_logs@[0].messages@
        }
    }

    /// The structured messages of the first log collection, or none if it has none.
    pub open spec fn spec_structured_messages(self) -> Seq<StructuredMessage> {
        if self.task_logs@.len() == 0 {
            Seq::empty()
        } else {
            match self.task_logs@[0].structured_messages {
                Some(m) => m@,
                None => Seq::empty(),
            }
        }
    }

    /// The collection that the current page holds. Only one page is fetched;
    /// a paged reader would walk `next_page_token` from here.
    fn first_log(self) -> (r: Option<OpenCloudLog>)
        ensures
            self.task_logs@.len() == 0 ==> r is None,
            self.task_logs@.len() > 0 ==> r == Some(self.task_logs@[0]),
    {
        let mut logs = self.task_logs;
        if logs.len() == 0 {
            None
        } else {
            Some(logs.remove(0))
        }
    }

    pub fn into_flat_messages(self) -> (r: Vec<String>)
        ensures
            r@ == self.spec_flat_messages(),
    {
        match self.first_log() {
            Some(log) => log.messages,
            None => Vec::new(),
        }
    }

    pub fn into_structured_messages(self) -> (r: Vec<StructuredMessage>)
        ensures
            r@ == self.spec_structured_messages(),
    {
        match self.first_log() {
            Some(log) => match log.structured_messages {
                Some(m) => m,
                None => Vec::new(),
            },
            None => Vec::new(),
        }
    }
}

} // verus!
