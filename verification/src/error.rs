//! The errors DevFlow reports, each with the text it is shown as.
use vstd::prelude::*;
use crate::text::concat_str;

verus! {

/// An error of DevFlow, with what went wrong.
#[derive(Debug)]
pub enum DevflowError {
    Io(String),
    Config(String),
    ProjectDetection(String),
    Device(String),
    Build(String),
    Install(String),
    Launch(String),
    Reload(String),
    Session(String),
    Ipc(String),
    ToolExecution(String),
    UnknownFramework(String),
    UnknownPlatform(String),
    Serialization(String),
}

/// The text an error is shown as: its kind, then what went wrong.
pub open spec fn error_text(e: DevflowError) -> Seq<char> {
    match e {
        DevflowError::Io(m) => "I/O error: "@ + m@,
        DevflowError::Config(m) => "Config error: "@ + m@,
        DevflowError::ProjectDetection(m) => "Project detection error: "@ + m@,
        DevflowError::Device(m) => "Device error: "@ + m@,
        DevflowError::Build(m) => "Build error: "@ + m@,
        DevflowError::Install(m) => "Install error: "@ + m@,
        DevflowError::Launch(m) => "Launch error: "@ + m@,
        DevflowError::Reload(m) => "Reload error: "@ + m@,
        DevflowError::Session(m) => "Session error: "@ + m@,
        DevflowError::Ipc(m) => "IPC error: "@ + m@,
        DevflowError::ToolExecution(m) => "Tool execution failed: "@ + m@,
        DevflowError::UnknownFramework(m) => "Unknown framework: "@ + m@,
        DevflowError::UnknownPlatform(m) => "Unknown platform: "@ + m@,
        DevflowError::Serialization(m) => "Serialization error: "@ + m@,
    }
}

impl DevflowError {
    /// The text the error is shown as (see `error_text`).
    pub fn message(&self) -> (r: String)
        ensures
            r@ == error_text(*self),
    {
        match self {
            DevflowError::Io(m) => concat_str("I/O error: ", m.as_str()),
            DevflowError::Config(m) => concat_str("Config error: ", m.as_str()),
            DevflowError::ProjectDetection(m) => concat_str("Project detection error: ", m.as_str()),
            DevflowError::Device(m) => concat_str("Device error: ", m.as_str()),
            DevflowError::Build(m) => concat_str("Build error: ", m.as_str()),
            DevflowError::Install(m) => concat_str("Install error: ", m.as_str()),
            DevflowError::Launch(m) => concat_str("Launch error: ", m.as_str()),
            DevflowError::Reload(m) => concat_str("Reload error: ", m.as_str()),
            DevflowError::Session(m) => concat_str("Session error: ", m.as_str()),
            DevflowError::Ipc(m) => concat_str("IPC error: ", m.as_str()),
            DevflowError::ToolExecution(m) => concat_str("Tool execution failed: ", m.as_str()),
            DevflowError::UnknownFramework(m) => concat_str("Unknown framework: ", m.as_str()),
            DevflowError::UnknownPlatform(m) => concat_str("Unknown platform: ", m.as_str()),
            DevflowError::Serialization(m) => concat_str("Serialization error: ", m.as_str()),
        }
    }
}

} // verus!
