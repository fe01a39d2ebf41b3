use vstd::prelude::*;

pub mod arsenal;
pub mod assets;
pub mod cargo;
pub mod codegen;
pub mod error;
pub mod matching;
pub mod notice;
pub mod release;
pub mod state;
pub mod text;

verus! {
} // verus!
