//! A structured-observability pipeline: ordered processing layers that turn
//! spans and events into filtered, formatted output records, a write-once
//! global installation point, and context-propagating dispatch of blocking
//! work.

mod backend;
mod builder;
mod context;
mod dispatch;
mod install;
mod level;
mod pipeline;
mod record;

pub use backend::install_global;
pub use backend::resolve_env_filter;
pub use builder::Telemetrio;
pub use builder::TelemetrioBuilder;
pub use builder::configured_threshold;
pub use builder::effective_threshold;
pub use builder::opt_view;
pub use dispatch::capture_current;
pub use dispatch::dispatch_blocking;
pub use dispatch::fields_like;
pub use dispatch::id_of;
pub use dispatch::span_like;

pub use context::ContextStack;
pub use context::StackOp;
pub use context::apply_op;
pub use context::apply_ops;
pub use context::lemma_stack_balance;
pub use context::lemma_well_nested_preserves_base;
pub use context::net_depth;
pub use context::well_nested;
pub use level::Level;
pub use level::parse_level;
pub use level::parse_level_spec;
pub use level::resolve_level;
pub use install::BridgeTarget;
pub use install::Error;
pub use install::ProcessState;
pub use install::bridge_once;
pub use install::install;
pub use install::install_result;
pub use install::lemma_install_once;
pub use pipeline::OutputRecord;
pub use pipeline::Pipeline;
pub use pipeline::chain_map;
pub use pipeline::lemma_merged_fields_visibility;
pub use pipeline::lemma_unshadowed_ancestor_value;
pub use pipeline::make_event;
pub use pipeline::merge_fields;
pub use pipeline::merged_map;
pub use pipeline::process_event;
pub use record::Event;
pub use record::Field;
pub use record::SpanData;
pub use record::field_map;
pub use record::keys_unique;
pub use record::set_field;
