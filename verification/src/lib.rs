//! Build-configuration and orchestration layer for an external,
//! Makefile-driven OpenBLAS build.
//!
//! A typed [`BuildOption`] is translated into build-tool argument tokens,
//! the source tree is staged into a fresh output directory, and the
//! outcome of the external build process is classified into the error
//! taxonomy of [`Error`].

use vstd::prelude::*;

mod error;
mod options;
mod staging;
mod supervisor;
mod target;

pub use error::spec_decimal;
pub use error::spec_digit;
pub use error::spec_exit_rendering;
pub use error::spec_udecimal;
pub use error::Error;
pub use options::arg_views;
pub use options::cond_token;
pub use options::count_token;
pub use options::lemma_flag_token_counts;
pub use options::lemma_interface_token_count;
pub use options::lemma_no_options_no_args;
pub use options::lemma_target_token_count;
pub use options::lemma_token_counts;
pub use options::target_tokens;
pub use options::BuildOption;
pub use options::Interface;
pub use staging::check_source_marker;
pub use staging::join_path;
pub use staging::openblas_source_dir;
pub use staging::spec_joined;
pub use staging::stage;
pub use staging::staging_step_result;
pub use supervisor::classify_outcome;
pub use supervisor::spec_command_line;
pub use supervisor::BuildCommand;
pub use supervisor::Detail;
pub use supervisor::ProcessOutcome;
pub use target::Target;

verus! {

} // verus!
