//! Summaries of code by a local language model: the errors of that service,
//! the prompts, and the contexts that summaries are asked for.
use vstd::prelude::*;
use crate::text::{cat, cat3};

pub mod prompts;
pub mod client;

verus! {

/// Errors of the language model service.
#[derive(Debug, Clone)]
pub enum LlmError {
    Connection(String),
    Model(String),
    Generation(String),
    Timeout(String),
    InvalidInput(String),
}

pub type LlmResult<T> = core::result::Result<T, LlmError>;

impl LlmError {
    /// The text that `Display` shows for this error.
    pub open spec fn text(&self) -> Seq<char> {
        match self {
            LlmError::Connection(m) => "Connection error: "@ + m@,
            LlmError::Model(m) => "Model error: "@ + m@,
            LlmError::Generation(m) => "Generation error: "@ + m@,
            LlmError::Timeout(m) => "Timeout error: "@ + m@,
            LlmError::InvalidInput(m) => "Invalid input: "@ + m@,
        }
    }

    /// The user-facing message: a heading, the error's own message, and
    /// troubleshooting steps.
    pub open spec fn user_text(&self) -> Seq<char> {
        match self {
            LlmError::Connection(m) => "LLM connection error: "@ + m@
                + "\n\nTroubleshooting:\n- Ensure Ollama is running (ollama serve)\n- Check Ollama is accessible at http://localhost:11434\n- Verify network connectivity"@,
            LlmError::Model(m) => "LLM model error: "@ + m@
                + "\n\nTroubleshooting:\n- Install required model: ollama pull llama3.2:3b\n- Check available models: ollama list\n- Ensure sufficient disk space"@,
            LlmError::Generation(m) => "Summary generation error: "@ + m@
                + "\n\nTroubleshooting:\n- Check model is loaded correctly\n- Reduce context size if input is too large\n- Retry the operation"@,
            LlmError::Timeout(m) => "LLM timeout: "@ + m@
                + "\n\nTroubleshooting:\n- Model may be loading (first run takes longer)\n- Check system resources (CPU/RAM)\n- Increase timeout if processing large inputs"@,
            LlmError::InvalidInput(m) => "Invalid LLM input: "@ + m@
                + "\n\nTroubleshooting:\n- Check input format\n- Ensure context is not empty\n- Verify encoding"@,
        }
    }

    /// `error.to_string()`.
    pub fn message(&self) -> (res: String)
        ensures
            res@ == self.text(),
    {
        match self {
            LlmError::Connection(m) => cat("Connection error: ", m),
            LlmError::Model(m) => cat("Model error: ", m),
            LlmError::Generation(m) => cat("Generation error: ", m),
            LlmError::Timeout(m) => cat("Timeout error: ", m),
            LlmError::InvalidInput(m) => cat("Invalid input: ", m),
        }
    }

    /// The error with troubleshooting steps.
    pub fn to_user_message(&self) -> (res: String)
        ensures
            res@ == self.user_text(),
    {
        match self {
            LlmError::Connection(m) => cat3(
                "LLM connection error: ",
                m,
                "\n\nTroubleshooting:\n- Ensure Ollama is running (ollama serve)\n- Check Ollama is accessible at http://localhost:11434\n- Verify network connectivity",
            ),
            LlmError::Model(m) => cat3(
                "LLM model error: ",
                m,
                "\n\nTroubleshooting:\n- Install required model: ollama pull llama3.2:3b\n- Check available models: ollama list\n- Ensure sufficient disk space",
            ),
            LlmError::Generation(m) => cat3(
                "Summary generation error: ",
                m,
                "\n\nTroubleshooting:\n- Check model is loaded correctly\n- Reduce context size if input is too large\n- Retry the operation",
            ),
            LlmError::Timeout(m) => cat3(
                "LLM timeout: ",
                m,
                "\n\nTroubleshooting:\n- Model may be loading (first run takes longer)\n- Check system resources (CPU/RAM)\n- Increase timeout if processing large inputs",
            ),
            LlmError::InvalidInput(m) => cat3(
                "Invalid LLM input: ",
                m,
                "\n\nTroubleshooting:\n- Check input format\n- Ensure context is not empty\n- Verify encoding",
            ),
        }
    }
}

} // verus!
