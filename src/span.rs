//! The records that a request produces: spans, the trace and the transaction.

use sentry::protocol::{SpanId, TraceId};
use vstd::prelude::*;
use vstd::string::StringExecFns;

use crate::sources::now_micros;

verus! {

/// Outcome recorded on a finished span or on the trace.
#[derive(Clone, Copy, Debug, PartialEq, Eq, Structural)]
pub enum Status {
    Success,
    Failure,
}

/// One step of a field's position in the response.
#[derive(Clone, Debug)]
pub enum PathSegment {
    Field(String),
    Index(usize),
}

/// A value in a span's data map.
#[derive(Clone, Debug)]
pub enum DataValue {
    Text(String),
    Path(Vec<PathSegment>),
}

/// What a failing stage reports: its message and the path where it arose.
#[derive(Clone, Debug)]
pub struct ErrorInfo {
    pub message: String,
    pub path: Vec<PathSegment>,
}

/// A timed record of one pipeline stage or one field resolution.
/// Times are microseconds since the Unix epoch; `timestamp` is the end time,
/// set once when the span is finished.
#[derive(Clone, Debug)]
pub struct SpanRecord {
    pub trace_id: TraceId,
    pub span_id: SpanId,
    pub parent_span_id: Option<SpanId>,
    pub op: String,
    pub description: Option<String>,
    pub start_timestamp: i64,
    pub timestamp: Option<i64>,
    pub status: Option<Status>,
    pub data: Vec<(String, DataValue)>,
}

/// The key under which a failure's message is kept in a span's data.
pub open spec fn error_data_key() -> Seq<char> {
    seq!['e', 'r', 'r', 'o', 'r']
}

/// The key under which a failure's path is kept in a span's data.
pub open spec fn path_data_key() -> Seq<char> {
    seq!['p', 'a', 't', 'h']
}

/// The data a failure leaves on a span: its message, then its path.
pub open spec fn holds_failure(data: Seq<(String, DataValue)>, e: ErrorInfo) -> bool {
    &&& data.len() == 2
    &&& data[0].0@ == error_data_key()
    &&& data[0].1 == DataValue::Text(e.message)
    &&& data[1].0@ == path_data_key()
    &&& data[1].1 == DataValue::Path(e.path)
}

impl SpanRecord {
    /// The same span, but for its end time, which has been set.
    pub open spec fn finished_from(&self, old: SpanRecord) -> bool {
        &&& self.timestamp is Some
        &&& self.trace_id == old.trace_id
        &&& self.span_id == old.span_id
        &&& self.parent_span_id == old.parent_span_id
        &&& self.op == old.op
        &&& self.description == old.description
        &&& self.start_timestamp == old.start_timestamp
        &&& self.status == old.status
        &&& self.data == old.data
    }

    /// The span after `settle`: finished, with the status and data that the
    /// outcome gives, the rest unchanged.
    pub open spec fn settled_from(&self, old: SpanRecord, failure: Option<ErrorInfo>) -> bool {
        &&& self.timestamp is Some
        &&& self.trace_id == old.trace_id
        &&& self.span_id == old.span_id
        &&& self.parent_span_id == old.parent_span_id
        &&& self.op == old.op
        &&& self.description == old.description
        &&& self.start_timestamp == old.start_timestamp
        &&& match failure {
            None => self.status == Some(Status::Success) && self.data@.len() == 0,
            Some(e) => self.status == Some(Status::Failure) && holds_failure(self.data@, e),
        }
    }

    /// Sets the end time to now.
    pub fn finish(&mut self)
        ensures
            final(self).finished_from(*old(self)),
    {
        self.timestamp = Some(now_micros());
    }

    /// Records how the stage ended and finishes the span: on success the status
    /// is `Success`; on failure it is `Failure` and the data holds the failure's
    /// message and path.
    pub fn settle(&mut self, failure: Option<ErrorInfo>)
        requires
            old(self).data@.len() == 0,
        ensures
            final(self).settled_from(*old(self), failure),
    {
        match failure {
            None => {
                self.status = Some(Status::Success);
            },
            Some(e) => {
                self.status = Some(Status::Failure);
                let error = String::from_str("error");
                let path = String::from_str("path");
                proof {
                    reveal_strlit("error");
                    reveal_strlit("path");
                }
                self.data.push((error, DataValue::Text(e.message)));
                self.data.push((path, DataValue::Path(e.path)));
                assert(self.data@[0].0@ == error_data_key());
                assert(self.data@[1].0@ == path_data_key());
                assert(self.data@[0].1 == DataValue::Text(e.message));
            },
        }
        self.finish();
    }
}

} // verus!
