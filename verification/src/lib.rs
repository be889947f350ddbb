//! Orchestration core of an MQTT trigger: configuration resolution with
//! template substitution, the per-route listener state machine, message
//! dispatch classification, and the trigger lifecycle policy.

use vstd::prelude::*;

pub mod config;
pub mod dispatch;
pub mod errors;
pub mod lifecycle;
pub mod listener;
pub mod parse;
pub mod template;

verus! {

/// Command-line surface of the trigger: a single flag selecting one-shot
/// test mode over long-lived listening.
pub struct CliArgs {
    /// If true, run each component once against a synthetic payload and exit.
    pub test: bool,
}

/// Build information line of the hosting process: `version (sha date)`.
pub fn build_info(version: &str, commit_sha: &str, commit_date: &str) -> (r: String)
    ensures
        r@ == version@ + " ("@ + commit_sha@ + " "@ + commit_date@ + ")"@,
{
    let mut out = String::from_str(version);
    out.append(" (");
    out.append(commit_sha);
    out.append(" ");
    out.append(commit_date);
    out.append(")");
    out
}

} // verus!
