//! An asynchronous log-shipping pipeline: structured diagnostic events are
//! turned into canonical JSON-shaped records on the caller's thread, queued
//! over a FIFO channel, and delivered to a remote ingestion endpoint by a
//! single background worker with bounded retry.

use vstd::prelude::*;

mod event;
mod fields;
mod queue;
mod strutil;
mod value;
mod visitor;
mod worker;

pub use event::LogEvent;
pub use queue::EventQueue;
pub use queue::lemma_enqueue_all;
pub use queue::lemma_fifo_order;
pub use queue::spec_enqueue_all;
pub use worker::DeliveryWorker;
pub use worker::MAX_RETRIES;
pub use worker::WorkerAction;
pub use worker::WorkerInput;
pub use worker::count_sends;
pub use worker::lemma_closed_terminates;
pub use worker::lemma_count_sends_last;
pub use worker::lemma_failures_keep_sending;
pub use worker::lemma_last_failure_drops;
pub use worker::lemma_retries_exhausted;
pub use worker::lemma_run_snoc;
pub use worker::lemma_run_snoc_failure;
pub use worker::lemma_success_on_attempt;
pub use worker::spec_run;
pub use worker::spec_step;

pub use visitor::JsonVisitor;
pub use visitor::VisitorView;
pub use visitor::attr_name_ok;
pub use visitor::fields_clean;
pub use visitor::lemma_field_value_kind;
pub use visitor::lemma_internal_namespace_dropped;
pub use visitor::lemma_keyword_escape;
pub use visitor::lemma_message_attribute;
pub use visitor::lemma_record_keeps_clean;
pub use visitor::lemma_visit_all_clean;
pub use visitor::lemma_visitor_pure;
pub use visitor::spec_key_allowed;
pub use visitor::escape_prefix;
pub use visitor::init_visitor;
pub use visitor::internal_prefix;
pub use visitor::message_key;
pub use visitor::spec_normalize_key;
pub use visitor::spec_record;
pub use visitor::spec_visit_all;
pub use visitor::target_key;

pub use fields::FieldMap;
pub use fields::lemma_insert_frame;
pub use fields::lemma_insert_get;
pub use fields::lemma_insert_keeps_unique;
pub use fields::spec_contains_key;
pub use fields::spec_get;
pub use fields::spec_insert;
pub use fields::spec_keys_unique;

pub use strutil::spec_starts_with;
pub use strutil::str_eq;
pub use strutil::str_starts_with;
pub use value::FieldValue;
pub use value::JsonKind;
pub use value::ValueView;
pub use value::json_kind_of;
pub use value::message_of;
pub use value::spec_message_of;
pub use value::spec_strip_quotes;
pub use value::strip_quotes;

verus! {

/// Configuration gathered once at pipeline construction: credentials and
/// dataset for the ingestion client, plus the static tags stamped on every
/// record the pipeline emits.
pub struct ConfigBuilder {
    pub token: String,
    pub org_id: String,
    pub dataset: String,
    pub application: String,
    pub environment: String,
}

} // verus!
