//! Helpers of the interactive prompts.

pub mod utils;
