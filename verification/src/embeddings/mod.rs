//! Embedding strategies: which one a configuration chooses, and the
//! integer part of the offline fallback strategy (tokens and hashed
//! features).  The floating-point projection and normalisation are the
//! program's.
use vstd::prelude::*;
use crate::error::{Error, Result};
use crate::text::str_eq;

pub mod fallback;
pub mod onnx;

verus! {

/// The length of every embedding vector.
pub const EMBEDDING_DIMENSION: usize = 384;

/// The tokenization strategies.
#[derive(Debug, Clone, Copy, PartialEq, Eq, Structural)]
pub enum StrategyKind {
    /// Sentence-transformers model run with ONNX
    Onnx,
    /// Feature hashing and random projection, offline
    Fallback,
}

impl StrategyKind {
    /// The name of the strategy (`onnx` or `fallback`).
    pub open spec fn label(self) -> Seq<char> {
        match self {
            StrategyKind::Onnx => "onnx"@,
            StrategyKind::Fallback => "fallback"@,
        }
    }

    /// The name of the strategy, for logging.
    pub fn name(&self) -> (res: &'static str)
        ensures
            res@ == self.label(),
    {
        match self {
            StrategyKind::Onnx => "onnx",
            StrategyKind::Fallback => "fallback",
        }
    }
}

/// The strategy that a configuration names: `onnx` or `fallback`; any other
/// name is an `InvalidTokenizerStrategy` error.
pub fn strategy_from_name(name: &str) -> (res: Result<StrategyKind>)
    ensures
        name@ == "onnx"@ ==> res == Ok::<StrategyKind, Error>(StrategyKind::Onnx),
        name@ == "fallback"@ ==> res == Ok::<StrategyKind, Error>(StrategyKind::Fallback),
        name@ != "onnx"@ && name@ != "fallback"@ ==> (res matches Err(Error::InvalidTokenizerStrategy(m))
            && m@ == name@),
{
    proof {
        reveal_strlit("onnx");
        reveal_strlit("fallback");
        assert("onnx"@.len() != "fallback"@.len());
    }
    if str_eq(name, "onnx") {
        Ok(StrategyKind::Onnx)
    } else if str_eq(name, "fallback") {
        Ok(StrategyKind::Fallback)
    } else {
        Err(Error::InvalidTokenizerStrategy(String::from_str(name)))
    }
}

} // verus!
