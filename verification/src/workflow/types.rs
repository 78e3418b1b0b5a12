//! Type definitions for the workflow system
use vstd::prelude::*;
use crate::text;

verus! {

#[verifier::external_type_specification]
#[verifier::external_body]
pub struct ExYamlValue(serde_yaml::Value);

/// A complete workflow definition
pub struct Workflow {
    /// Name of the workflow
    pub name: String,
    /// Optional description of the workflow
    pub description: Option<String>,
    /// Optional version of the workflow
    pub version: Option<String>,
    /// Optional author of the workflow
    pub author: Option<String>,
    /// Parameters that can be passed to the workflow
    pub parameters: Vec<Parameter>,
    /// Optional default query template (can be overridden at runtime)
    pub query_template: Option<String>,
    /// Steps to execute in sequence
    pub steps: Vec<Step>,
}

/// A parameter for a workflow
pub struct Parameter {
    /// Name of the parameter
    pub name: String,
    /// Optional description of the parameter
    pub description: Option<String>,
    /// Type of the parameter (string, integer, etc.)
    pub type_: String,
    /// Whether the parameter is required
    pub required: bool,
    /// Optional default value for the parameter, as YAML read it
    pub default: Option<serde_yaml::Value>,
}

/// A step in a workflow using a field-based approach
#[derive(Debug, Clone)]
pub struct Step {
    /// Common fields
    pub description: Option<String>,
    /// Step type identifier of a shell step
    pub shell_id: Option<String>,
    /// Step type identifier of an agent step
    pub agent_id: Option<String>,
    /// Shell step fields
    pub command: Option<String>,
    pub store_output: Option<String>,
    pub fail_on_error: Option<bool>,
    /// Agent step fields
    pub kind: Option<String>,
    pub prompt: Option<String>,
    pub into: Option<String>,
    /// Fields of message, file, output and wait steps, read and kept
    pub message_id: Option<String>,
    pub file_id: Option<String>,
    pub output_id: Option<String>,
    pub wait_id: Option<String>,
    pub content: Option<String>,
    pub store_response: Option<String>,
    pub action: Option<FileAction>,
    pub path: Option<String>,
    pub wait_message: Option<String>,
}

/// The type of a workflow step
#[derive(Debug, Clone, Copy, PartialEq, Eq, Structural)]
pub enum StepType {
    /// A shell command
    Shell,
    /// Agent step that creates a new agent
    Agent,
    /// Unknown step type
    Unknown,
}

impl StepType {
    /// The name of the step type, as it is displayed
    pub fn as_str(&self) -> (r: &'static str)
        ensures
            r@ == match *self {
                StepType::Shell => "shell"@,
                StepType::Agent => "agent"@,
                StepType::Unknown => "unknown"@,
            },
    {
        match self {
            StepType::Shell => "shell",
            StepType::Agent => "agent",
            StepType::Unknown => "unknown",
        }
    }
}

impl Step {
    /// Get the type of this step: a shell step if it has a shell identifier,
    /// else an agent step if it has an agent identifier
    pub fn get_type(&self) -> (r: StepType)
        ensures
            r == if self.shell_id is Some {
                StepType::Shell
            } else if self.agent_id is Some {
                StepType::Agent
            } else {
                StepType::Unknown
            },
    {
        if self.shell_id.is_some() {
            StepType::Shell
        } else if self.agent_id.is_some() {
            StepType::Agent
        } else {
            StepType::Unknown
        }
    }

    /// Get the ID of this step regardless of type
    pub fn get_id(&self) -> (r: String)
        ensures
            r@ == match self.shell_id {
                Some(id) => id@,
                None => match self.agent_id {
                    Some(id) => id@,
                    None => "unknown"@,
                },
            },
    {
        match &self.shell_id {
            Some(id) => text::chars_to_string(&text::str_chars(id.as_str())),
            None => match &self.agent_id {
                Some(id) => text::chars_to_string(&text::str_chars(id.as_str())),
                None => text::chars_to_string(&text::str_chars("unknown")),
            },
        }
    }
}

/// The action to perform on a file
#[derive(Debug, Clone, Copy, PartialEq, Eq, Structural)]
pub enum FileAction {
    /// Read a file
    Read,
    /// Write to a file
    Write,
    /// Append to a file
    Append,
}

} // verus!
