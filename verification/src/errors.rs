//! Error taxonomy of the trigger: startup-fatal configuration faults,
//! task-fatal transport faults, and per-dispatch faults that the listener
//! isolates.

use vstd::prelude::*;

verus! {

/// A fault raised while substituting placeholders in a configuration string.
#[derive(Debug)]
pub enum TemplateFault {
    /// A placeholder named a variable that the store does not define;
    /// carries the placeholder name.
    UndefinedVariable { name: String },
    /// A `{{` opened a placeholder that no `}}` closes.
    UnclosedPlaceholder,
}

/// A fault of the raw configuration's shape (strict schema: every field
/// must be a known one, present exactly once).
#[derive(Debug)]
pub enum ConfigFault {
    /// A field name outside the schema.
    UnknownField { name: String },
    /// A schema field that the raw configuration does not set.
    MissingField { name: String },
    /// A schema field set more than once.
    DuplicateField { name: String },
}

/// Errors surfaced by the trigger. Configuration, parse and template
/// errors are fatal at startup; connection and subscription errors are
/// fatal to the owning listener task (and, through first-exit-wins, to
/// the whole trigger); a closed stream is reported the same way.
#[derive(Debug)]
pub enum TriggerError {
    /// Malformed raw configuration (strict schema violation).
    Config(ConfigFault),
    /// A numeric configuration field did not parse; carries the field name.
    Parse { field: String },
    /// Template substitution failed.
    Template(TemplateFault),
    /// Transport-level connect failure; carries the broker address.
    Connection { address: String },
    /// Broker-side subscription rejection; carries the topic.
    Subscription { topic: String },
    /// The subscription stream closed or reported a receive error.
    StreamClosed,
}

/// Per-dispatch errors. The listener logs and discards both variants;
/// they differ only at logging granularity.
#[derive(Debug)]
pub enum DispatchError {
    /// The execution sandbox could not prepare an instance for the
    /// component; carries the sandbox's message.
    Instance { message: String },
    /// The component's handler reported a domain-level failure; carries
    /// the handler's message.
    Handler { message: String },
}

} // verus!
