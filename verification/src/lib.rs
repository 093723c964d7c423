//! The text side of a code-analysis service that talks to a language model.
//!
//! Two things happen to text on its way to the model and back. On the way out, the code to be
//! analysed is set into a fixed instruction that tells the model which three forms its answer
//! may take ([`analysis_prompt`]). On the way back, the answer is cut to a bounded number of
//! characters ([`clamp_response`]). Both are plain functions of their input; the call to the
//! model itself is made by whoever uses this crate.

pub mod clamp;
pub mod prompt;
pub mod text;

pub use clamp::{clamp_response, leading_chars, MAX_RESPONSE_CHARS};
pub use prompt::{analysis_prompt, CORRECT_ANSWER, IMPROVEMENT_PREFIX, SYNTAX_ERROR_PREFIX};
