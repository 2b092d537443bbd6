//! The pipeline configuration and its owned-style builder: a logical name
//! and a filter expression, each with a default, resolved into a pipeline
//! and installed into the process state.

use vstd::prelude::*;
use crate::install::{Error, ProcessState, install, install_result};
use crate::level::{Level, parse_level, parse_level_spec};
use crate::pipeline::Pipeline;

verus! {

/// Configuration of one observability pipeline: the logical process name
/// stamped on every output record, and the textual filter expression its
/// filter stage is built from.
pub struct Telemetrio {
    pub name: String,
    pub env_filter: String,
}

/// Owned-style builder for `Telemetrio`: each setter consumes and returns
/// the builder, and `build` fills the unset fields with their defaults.
pub struct TelemetrioBuilder {
    pub name: Option<String>,
    pub env_filter: Option<String>,
}

impl Default for TelemetrioBuilder {
    /// A builder with nothing set: `build` on it yields the defaults.
    fn default() -> (r: TelemetrioBuilder)
        ensures
            r.name is None,
            r.env_filter is None,
    {
        TelemetrioBuilder { name: None, env_filter: None }
    }
}

impl TelemetrioBuilder {
    /// Set the logical process name.
    pub fn name(self, name: String) -> (r: TelemetrioBuilder)
        ensures
            r.name == Some(name),
            r.env_filter == self.env_filter,
    {
        TelemetrioBuilder { name: Some(name), ..self }
    }

    /// Set the filter expression.
    pub fn env_filter(self, env_filter: String) -> (r: TelemetrioBuilder)
        ensures
            r.env_filter == Some(env_filter),
            r.name == self.name,
    {
        TelemetrioBuilder { env_filter: Some(env_filter), ..self }
    }

    /// Finish the configuration: an unset name defaults to this library's
    /// own name, an unset filter expression to `"info"`. This never fails.
    pub fn build(self) -> (r: Telemetrio)
        ensures
            self.name matches Some(n) ==> r.name == n,
            self.name is None ==> r.name@ == "telemetrio"@,
            self.env_filter matches Some(e) ==> r.env_filter == e,
            self.env_filter is None ==> r.env_filter@ == "info"@,
    {
        let name = match self.name {
            Some(n) => n,
            None => String::from_str("telemetrio"),
        };
        let env_filter = match self.env_filter {
            Some(e) => e,
            None => String::from_str("info"),
        };
        Telemetrio { name, env_filter }
    }
}

/// The view of an optional expression.
pub open spec fn opt_view(s: Option<&str>) -> Option<Seq<char>> {
    match s {
        Some(e) => Some(e@),
        None => None,
    }
}

/// The severity threshold the filter stage ends up with: an environment
/// override that is present and valid wins wholesale; otherwise a valid
/// configured expression; otherwise the lenient parser's own default, which
/// passes only the highest severity. Resolution never fails.
pub open spec fn effective_threshold(env: Option<Seq<char>>, configured: Seq<char>) -> Level {
    match env {
        Some(e) => match parse_level_spec(e) {
            Some(l) => l,
            None => configured_threshold(configured),
        },
        None => configured_threshold(configured),
    }
}

/// The threshold a configured expression alone denotes: its own level when
/// valid, else the lenient parser's default.
pub open spec fn configured_threshold(configured: Seq<char>) -> Level {
    match parse_level_spec(configured) {
        Some(l) => l,
        None => Level::Error,
    }
}

impl Telemetrio {
    /// Turn this configuration into the process's one active pipeline.
    ///
    /// The filter threshold is resolved first — `env_override` standing for
    /// the environment's own expression, which wins wholesale when present
    /// and valid, with fallback from an invalid configured expression to
    /// the default — then the pipeline is composed in its fixed stage
    /// order, the legacy bridge is redirected to it, and it is published
    /// into the write-once slot. Both failures are terminal and reported
    /// synchronously; the first installed pipeline always stands.
    pub fn init(self, env_override: Option<&str>, state: &mut ProcessState) -> (r: Result<
        (),
        Error,
    >)
        ensures
            ({
                let p = Pipeline {
                    name: self.name,
                    threshold: effective_threshold(opt_view(env_override), self.env_filter@),
                };
                (*final(state), r) == install_result(*old(state), p)
            }),
    {
        let threshold = match env_override {
            Some(expr) => match parse_level(expr) {
                Some(level) => level,
                None => self.threshold_from_configured(),
            },
            None => self.threshold_from_configured(),
        };
        let pipeline = Pipeline { name: self.name, threshold };
        install(state, pipeline)
    }

    /// The threshold the configured expression denotes, or the lenient
    /// parser's default when it is invalid.
    fn threshold_from_configured(&self) -> (r: Level)
        ensures
            parse_level_spec(self.env_filter@) matches Some(l) ==> r == l,
            parse_level_spec(self.env_filter@) is None ==> r == Level::Error,
    {
        match parse_level(self.env_filter.as_str()) {
            Some(level) => level,
            None => Level::Error,
        }
    }
}

} // verus!
