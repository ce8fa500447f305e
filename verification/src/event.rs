//! The canonical record: one immutable [`LogEvent`] per captured diagnostic
//! event, assembled from the visitor's output and the pipeline's static
//! tags, ready for serialization and delivery.

use vstd::prelude::*;

use crate::fields::FieldMap;
use crate::visitor::JsonVisitor;

verus! {

/// One canonical record, never mutated after construction.
#[derive(Debug)]
pub struct LogEvent {
    /// When the event was observed, in milliseconds since the Unix epoch.
    pub _time: i64,
    /// Static tag, identical on every record of a pipeline instance.
    pub application: String,
    /// Static tag, identical on every record of a pipeline instance.
    pub environment: String,
    /// Severity label, copied verbatim from the framework's metadata.
    pub level: String,
    /// Subsystem name: the framework's target unless overridden per event.
    pub target: String,
    /// Primary human-readable text; empty when no attribute supplied one.
    pub message: String,
    /// Every remaining attribute, reserved and internal keys excluded.
    pub fields: FieldMap,
}

impl LogEvent {
    /// The keys of `fields` are distinct.
    pub open spec fn wf(&self) -> bool {
        self.fields.wf()
    }

    /// The target the record must carry: the visitor's override when one
    /// was recorded, the framework-supplied default otherwise.
    pub open spec fn spec_target(
        over: Option<Seq<char>>,
        default_target: Seq<char>,
    ) -> Seq<char> {
        match over {
            Some(t) => t,
            None => default_target,
        }
    }

    /// The message the record must carry: the visitor's message when one
    /// was recorded, the empty string otherwise.
    pub open spec fn spec_message(msg: Option<Seq<char>>) -> Seq<char> {
        match msg {
            Some(m) => m,
            None => Seq::empty(),
        }
    }

    /// Assembles the record from the pipeline's static tags, the event's
    /// metadata, and the visitor's output.
    pub fn build(
        time_millis: i64,
        application: &str,
        environment: &str,
        level: String,
        default_target: &str,
        visitor: JsonVisitor,
    ) -> (r: LogEvent)
        requires
            visitor.wf(),
        ensures
            r.wf(),
            r._time == time_millis,
            r.application@ == application@,
            r.environment@ == environment@,
            r.level@ == level@,
            r.target@ == LogEvent::spec_target(visitor@.log_target, default_target@),
            r.message@ == LogEvent::spec_message(visitor@.message),
            r.fields@ == visitor@.fields,
    {
        let (log_target, message, fields) = visitor.into_parts();
        let target = match log_target {
            Some(t) => t,
            None => default_target.to_owned(),
        };
        let message = match message {
            Some(m) => m,
            None => String::new(),
        };
        LogEvent {
            _time: time_millis,
            application: application.to_owned(),
            environment: environment.to_owned(),
            level,
            target,
            message,
            fields,
        }
    }

    /// As [`LogEvent::build`], stamped with the wall-clock time of the
    /// call.
    pub fn build_now(
        application: &str,
        environment: &str,
        level: String,
        default_target: &str,
        visitor: JsonVisitor,
    ) -> (r: LogEvent)
        requires
            visitor.wf(),
        ensures
            r.wf(),
            r.application@ == application@,
            r.environment@ == environment@,
            r.level@ == level@,
            r.target@ == LogEvent::spec_target(visitor@.log_target, default_target@),
            r.message@ == LogEvent::spec_message(visitor@.message),
            r.fields@ == visitor@.fields,
    {
        let t = current_timestamp_millis();
        LogEvent::build(t, application, environment, level, default_target, visitor)
    }
}

/// Relies on chrono's `Utc::now` and `DateTime::timestamp_millis` for the
/// wall-clock time of the observation, in milliseconds since the Unix
/// epoch; the value depends on the clock, so nothing is promised of it.
#[verifier::external_body]
fn current_timestamp_millis() -> i64 {
    chrono::Utc::now().timestamp_millis()
}

} // verus!
