//! The ONNX strategy, which is not available yet: every use of it fails
//! with the same explanation.
use vstd::prelude::*;
use crate::config::Config;
use crate::error::{Error, Result};

verus! {

/// What every use of the ONNX strategy answers.
pub open spec fn not_ready_message() -> Seq<char> {
    "ONNX tokenizer not yet refactored. This will be implemented in Phase 4."@
}

/// The ONNX tokenization strategy.
#[derive(Debug, Clone, Copy)]
pub struct OnnxTokenizer;

impl OnnxTokenizer {
    /// Sets the strategy up; it is not available yet, so this always fails.
    pub fn new(config: &Config) -> (res: Result<OnnxTokenizer>)
        ensures
            res matches Err(Error::Embedding(m)) && m@ == not_ready_message(),
    {
        Err(Error::Embedding(String::from_str("ONNX tokenizer not yet refactored. This will be implemented in Phase 4.")))
    }

    /// The strategy is ready once it exists.
    pub fn validate(&self) -> (res: Result<()>)
        ensures
            res is Ok,
    {
        Ok(())
    }

    /// The strategy's name.
    pub fn name(&self) -> (res: &'static str)
        ensures
            res@ == "onnx"@,
    {
        "onnx"
    }
}

} // verus!
