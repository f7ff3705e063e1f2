//! The hooks that trace one request: each stage opens a span before the host
//! runs it and settles the span afterwards; the end of the request assembles
//! the transaction to send.

use sentry::protocol::{SpanId, TraceId};
use vstd::prelude::*;
use vstd::string::StringExecFns;

use crate::path::{join_path, parent_key, parent_key_of, path_key_of, segments};
use crate::sources::{fresh_span_id, fresh_trace_id, now_micros};
use crate::span::{DataValue, ErrorInfo, SpanRecord, Status};
use crate::store::{
    has_key, insert_all, inserted, lemma_insert, lemma_insert_all, lemma_remove, lookup, removed,
    spans_of, Entries, SpanStore,
};

verus! {

/// Name and version of the instrumentation, as reported to Sentry.
#[derive(Debug)]
pub struct SdkInfo {
    pub name: String,
    pub version: String,
}

impl SdkInfo {
    pub fn duplicate(&self) -> (r: SdkInfo)
        ensures
            r.name@ == self.name@,
            r.version@ == self.version@,
    {
        SdkInfo { name: self.name.clone(), version: self.version.clone() }
    }
}

/// The identity and outcome of the whole request. `data` receives the root
/// span's data when the request ends.
#[derive(Debug)]
pub struct TraceRecord {
    pub trace_id: TraceId,
    pub span_id: SpanId,
    pub op: Option<String>,
    pub status: Option<Status>,
    pub data: Vec<(String, DataValue)>,
}

impl TraceRecord {
    /// A trace with fresh identifiers and nothing recorded.
    pub fn new() -> (r: TraceRecord)
        ensures
            r.op is None,
            r.status is None,
            r.data@.len() == 0,
    {
        TraceRecord {
            trace_id: fresh_trace_id(),
            span_id: fresh_span_id(),
            op: None,
            status: None,
            data: Vec::new(),
        }
    }
}

/// The record sent for one request. Times are microseconds since the Unix
/// epoch.
#[derive(Debug)]
pub struct TransactionRecord {
    pub name: Option<String>,
    pub platform: String,
    pub sdk: Option<SdkInfo>,
    pub trace: Option<TraceRecord>,
    pub spans: Vec<SpanRecord>,
    pub start_timestamp: i64,
    pub timestamp: Option<i64>,
}

impl TransactionRecord {
    /// A transaction started now, with nothing recorded.
    pub fn new() -> (r: TransactionRecord)
        ensures
            r.name is None,
            r.platform@.len() == 0,
            r.sdk is None,
            r.trace is None,
            r.spans@.len() == 0,
            r.timestamp is None,
    {
        TransactionRecord {
            name: None,
            platform: String::new(),
            sdk: None,
            trace: None,
            spans: Vec::new(),
            start_timestamp: now_micros(),
            timestamp: None,
        }
    }
}

/// The key of the synthetic root span: the empty path.
pub open spec fn root_key() -> Seq<char> {
    Seq::empty()
}

/// The identifier of the span stored under `key`, or `fallback` if none is.
pub open spec fn parent_id(nodes: Entries, key: Seq<char>, fallback: SpanId) -> SpanId {
    match lookup(nodes, key) {
        Some(s) => s.span_id,
        None => fallback,
    }
}

/// The failure that an outcome carries, if any.
pub open spec fn failure_of<T, E>(outcome: Result<T, (E, ErrorInfo)>) -> Option<ErrorInfo> {
    match outcome {
        Ok(_) => None,
        Err((_, e)) => Some(e),
    }
}

/// The outcome as the host gave it, without what the span records of it.
pub open spec fn passed_on<T, E>(outcome: Result<T, (E, ErrorInfo)>) -> Result<T, E> {
    match outcome {
        Ok(v) => Ok(v),
        Err((e, _)) => Err(e),
    }
}

/// The key under which the root span keeps the query text.
pub open spec fn query_key() -> Seq<char> {
    seq!['q', 'u', 'e', 'r', 'y']
}

/// The trace's data once the request ends: what it held, then the root span's
/// data and the query text; only what it held when no root span was stored.
pub open spec fn folded_root_data(
    data: Seq<(String, DataValue)>,
    before: Seq<(String, DataValue)>,
    root: Option<SpanRecord>,
    query: String,
) -> bool {
    match root {
        None => data == before,
        Some(r) => {
            &&& data.len() == before.len() + r.data@.len() + 1
            &&& data.drop_last() == before + r.data@
            &&& data.last().0@ == query_key()
            &&& data.last().1 == DataValue::Text(query)
        },
    }
}

/// The status a request ends with.
pub open spec fn request_status(failed: bool) -> Status {
    if failed {
        Status::Failure
    } else {
        Status::Success
    }
}

/// Parts an outcome into what is passed on and what the span records.
fn split_outcome<T, E>(outcome: Result<T, (E, ErrorInfo)>) -> (r: (Result<T, E>, Option<ErrorInfo>))
    ensures
        r.0 == passed_on(outcome),
        r.1 == failure_of(outcome),
{
    match outcome {
        Ok(v) => (Ok(v), None),
        Err((e, info)) => (Err(e), Some(info)),
    }
}

/// A request that stores the root span and then resolves distinct field
/// paths hands out, by `finish_request`, the stages' spans followed by exactly
/// one span per field path: the root span is not among them but folds into
/// the trace, and every field's span is there.
pub proof fn lemma_field_spans(
    staged: Seq<SpanRecord>,
    root: SpanRecord,
    paths: Seq<Seq<char>>,
    spans: Seq<SpanRecord>,
)
    requires
        paths.len() == spans.len(),
        paths.no_duplicates(),
        !paths.contains(root_key()),
    ensures
        ({
            let nodes = insert_all(inserted(Seq::empty(), root_key(), root), paths, spans);
            let sent = staged + spans_of(removed(nodes, root_key()));
            &&& sent.len() == staged.len() + paths.len()
            &&& lookup(nodes, root_key()) == Some(root)
            &&& forall|i: int|
                0 <= i < paths.len() ==> lookup(removed(nodes, root_key()), #[trigger] paths[i])
                    == Some(spans[i])
        }),
{
    let start = inserted(Seq::<(Seq<char>, SpanRecord)>::empty(), root_key(), root);
    lemma_insert(Seq::empty(), root_key(), root, root_key());
    assert forall|i: int| 0 <= i < paths.len() implies !has_key(start, #[trigger] paths[i]) by {
        lemma_insert(Seq::empty(), root_key(), root, paths[i]);
    }
    lemma_insert_all(start, paths, spans);
    let nodes = insert_all(start, paths, spans);
    lemma_remove(nodes, root_key(), root_key());
    assert forall|i: int| 0 <= i < paths.len() implies lookup(
        removed(nodes, root_key()),
        #[trigger] paths[i],
    ) == Some(spans[i]) by {
        lemma_remove(nodes, root_key(), paths[i]);
    }
}

/// Builds the tracer of each request.
pub struct SentryExtensionFactory {
    pub sdk: SdkInfo,
}

impl SentryExtensionFactory {
    pub fn new() -> (r: SentryExtensionFactory)
        ensures
            r.sdk.name@ == "async_graphql"@,
            r.sdk.version@ == "0.1.0"@,
    {
        SentryExtensionFactory {
            sdk: SdkInfo { name: String::from_str("async_graphql"), version: String::from_str("0.1.0") },
        }
    }

    /// A tracer for one request: a fresh trace, an empty transaction and an
    /// empty store.
    pub fn create(&self) -> (r: SentryExtension)
        ensures
            r.wf(),
            r.sdk.name@ == self.sdk.name@,
            r.sdk.version@ == self.sdk.version@,
            r.nodes@.len() == 0,
            r.transaction.spans@.len() == 0,
            r.trace.status is None,
            r.query@.len() == 0,
    {
        SentryExtension {
            transaction: TransactionRecord::new(),
            sdk: self.sdk.duplicate(),
            trace: TraceRecord::new(),
            nodes: SpanStore::new(),
            query: String::new(),
        }
    }
}

/// Extra context that a caller may attach to a request.
#[derive(Debug, Clone)]
pub struct SentryAdditionalData {}

impl Default for SentryAdditionalData {
    fn default() -> (r: SentryAdditionalData)
        ensures
            r == (SentryAdditionalData {  }),
    {
        SentryAdditionalData {  }
    }
}

/// The state of one request's tracing: the transaction being built, the
/// trace, the spans of resolved fields by path, and the query text.
pub struct SentryExtension {
    pub transaction: TransactionRecord,
    pub sdk: SdkInfo,
    pub trace: TraceRecord,
    pub nodes: SpanStore,
    pub query: String,
}

impl SentryExtension {
    pub open spec fn wf(&self) -> bool {
        self.nodes.wf()
    }

    /// The identifier that a span under `key` takes as parent: that of the span
    /// stored under `key`, or the root's when there is none.
    pub open spec fn parent_for(&self, key: Seq<char>) -> SpanId {
        parent_id(self.nodes@, key, self.trace.span_id)
    }

    /// Request hook, before the host runs the request: marks the transaction
    /// as this instrumentation's and stores the root span under the empty key,
    /// with the trace's identifiers.
    pub fn begin_request(&mut self)
        requires
            old(self).wf(),
        ensures
            final(self).wf(),
            final(self).transaction.platform@ == "async_graphql"@,
            final(self).transaction.sdk is Some,
            final(self).transaction.sdk->0.name@ == old(self).sdk.name@,
            final(self).transaction.sdk->0.version@ == old(self).sdk.version@,
            final(self).transaction.name == old(self).transaction.name,
            final(self).transaction.spans == old(self).transaction.spans,
            final(self).trace == old(self).trace,
            final(self).sdk == old(self).sdk,
            final(self).query == old(self).query,
            exists|root: SpanRecord|
                {
                    &&& final(self).nodes@ == inserted(old(self).nodes@, root_key(), root)
                    &&& root.trace_id == old(self).trace.trace_id
                    &&& root.span_id == old(self).trace.span_id
                    &&& root.parent_span_id is None
                    &&& root.op@ == "request"@
                    &&& root.timestamp is None
                    &&& root.status is None
                    &&& root.data@.len() == 0
                },
    {
        self.transaction.platform = String::from_str("async_graphql");
        self.transaction.sdk = Some(self.sdk.duplicate());
        let root = SpanRecord {
            trace_id: self.trace.trace_id,
            span_id: self.trace.span_id,
            parent_span_id: None,
            op: String::from_str("request"),
            description: None,
            start_timestamp: now_micros(),
            timestamp: None,
            status: None,
            data: Vec::new(),
        };
        let ghost g = root;
        proof {
            reveal_strlit("request");
        }
        self.nodes.insert(String::new(), root);
        assert(self.nodes@ == inserted(old(self).nodes@, root_key(), g));
    }

    /// Prepare hook, before the host prepares the request: the operation's
    /// name becomes the transaction's name and the trace's operation.
    pub fn record_operation(&mut self, name: Option<String>)
        ensures
            final(self).transaction.name == name,
            final(self).trace.op == name,
            final(self).trace.trace_id == old(self).trace.trace_id,
            final(self).trace.span_id == old(self).trace.span_id,
            final(self).trace.status == old(self).trace.status,
            final(self).trace.data == old(self).trace.data,
            final(self).transaction.spans == old(self).transaction.spans,
            final(self).nodes == old(self).nodes,
            final(self).query == old(self).query,
            final(self).sdk == old(self).sdk,
    {
        let copy = match &name {
            Some(n) => Some(n.clone()),
            None => None,
        };
        self.trace.op = copy;
        self.transaction.name = name;
    }

    /// Parse hook, before the host parses: keeps the query text for the root
    /// span.
    pub fn record_query(&mut self, query: String)
        ensures
            final(self).query == query,
            final(self).transaction == old(self).transaction,
            final(self).trace == old(self).trace,
            final(self).nodes == old(self).nodes,
            final(self).sdk == old(self).sdk,
    {
        self.query = query;
    }

    /// Opens the span of a stage that runs once per request (preparing,
    /// validating, parsing): its parent is the root span.
    pub fn begin_stage(&self, op: &str) -> (r: SpanRecord)
        requires
            self.wf(),
        ensures
            r.trace_id == self.trace.trace_id,
            r.parent_span_id == Some(self.parent_for(root_key())),
            r.op@ == op@,
            r.description is None,
            r.timestamp is None,
            r.status is None,
            r.data@.len() == 0,
    {
        let root = String::new();
        let parent = self.parent_of(&root);
        self.open_span(String::from_str(op), parent, None)
    }

    /// Prepare and validation hooks, after the host ran the stage: the span is
    /// finished and added to the transaction.
    pub fn end_stage(&mut self, span: SpanRecord)
        ensures
            final(self).transaction.spans@.len() == old(self).transaction.spans@.len() + 1,
            final(self).transaction.spans@.drop_last() == old(self).transaction.spans@,
            final(self).transaction.spans@.last().finished_from(span),
            final(self).transaction.name == old(self).transaction.name,
            final(self).trace == old(self).trace,
            final(self).nodes == old(self).nodes,
            final(self).query == old(self).query,
            final(self).sdk == old(self).sdk,
    {
        let mut span = span;
        span.finish();
        self.transaction.spans.push(span);
        assert(self.transaction.spans@.drop_last() =~= old(self).transaction.spans@);
    }

    /// Parse hook, after the host parsed: the span records the outcome and is
    /// added to the transaction; the outcome is passed on unchanged.
    pub fn end_parse<T, E>(&mut self, span: SpanRecord, outcome: Result<T, (E, ErrorInfo)>) -> (r:
        Result<T, E>)
        requires
            span.data@.len() == 0,
        ensures
            r == passed_on(outcome),
            final(self).transaction.spans@.len() == old(self).transaction.spans@.len() + 1,
            final(self).transaction.spans@.drop_last() == old(self).transaction.spans@,
            final(self).transaction.spans@.last().settled_from(span, failure_of(outcome)),
            final(self).transaction.name == old(self).transaction.name,
            final(self).trace == old(self).trace,
            final(self).nodes == old(self).nodes,
            final(self).query == old(self).query,
            final(self).sdk == old(self).sdk,
    {
        let mut span = span;
        let (r, failure) = split_outcome(outcome);
        span.settle(failure);
        self.transaction.spans.push(span);
        assert(self.transaction.spans@.drop_last() =~= old(self).transaction.spans@);
        r
    }

    /// Resolve hook, before the host resolves the field at `path`: opens its
    /// span, named after the path, with status `Success`, under the span of the
    /// parent path, or under the root when that is not stored.
    pub fn begin_resolve(&self, path: &Vec<String>) -> (r: SpanRecord)
        requires
            self.wf(),
        ensures
            r.trace_id == self.trace.trace_id,
            r.parent_span_id == Some(self.parent_for(parent_key(segments(path@)))),
            r.op@ == "resolve-"@ + join_path(segments(path@)),
            r.description is None,
            r.timestamp is None,
            r.status == Some(Status::Success),
            r.data@.len() == 0,
    {
        let parent_key = parent_key_of(path);
        let parent = self.parent_of(&parent_key);
        let mut op = String::from_str("resolve-");
        let key = path_key_of(path);
        op.append(key.as_str());
        self.open_span(op, parent, Some(Status::Success))
    }

    /// Resolve hook, after the host resolved the field at `path`: the span
    /// records the outcome and is stored under the path's key; the outcome is
    /// passed on unchanged.
    pub fn end_resolve<T, E>(
        &mut self,
        path: &Vec<String>,
        span: SpanRecord,
        outcome: Result<T, (E, ErrorInfo)>,
    ) -> (r: Result<T, E>)
        requires
            old(self).wf(),
            span.data@.len() == 0,
        ensures
            r == passed_on(outcome),
            final(self).wf(),
            exists|s: SpanRecord|
                {
                    &&& s.settled_from(span, failure_of(outcome))
                    &&& final(self).nodes@ == inserted(
                        old(self).nodes@,
                        join_path(segments(path@)),
                        s,
                    )
                },
            final(self).transaction == old(self).transaction,
            final(self).trace == old(self).trace,
            final(self).query == old(self).query,
            final(self).sdk == old(self).sdk,
    {
        let mut span = span;
        let (r, failure) = split_outcome(outcome);
        span.settle(failure);
        let key = path_key_of(path);
        self.nodes.insert(key, span);
        r
    }

    /// Request hook, after the host ran the request, whether it succeeded,
    /// failed or was cut short: gives the trace its status, folds the root
    /// span's data and the query text into it, and hands out the finished
    /// transaction with the stages' spans followed by every field span of the
    /// store. Every holder is left fresh, so what was recorded is handed out
    /// once.
    pub fn finish_request(&mut self, failed: bool) -> (r: TransactionRecord)
        requires
            old(self).wf(),
        ensures
            r.name == old(self).transaction.name,
            r.platform == old(self).transaction.platform,
            r.sdk == old(self).transaction.sdk,
            r.start_timestamp == old(self).transaction.start_timestamp,
            r.timestamp is Some,
            r.spans@ == old(self).transaction.spans@ + spans_of(
                removed(old(self).nodes@, root_key()),
            ),
            r.trace is Some,
            r.trace->0.trace_id == old(self).trace.trace_id,
            r.trace->0.span_id == old(self).trace.span_id,
            r.trace->0.op == old(self).trace.op,
            r.trace->0.status == Some(request_status(failed)),
            folded_root_data(
                r.trace->0.data@,
                old(self).trace.data@,
                lookup(old(self).nodes@, root_key()),
                old(self).query,
            ),
            final(self).wf(),
            final(self).nodes@.len() == 0,
            final(self).transaction.spans@.len() == 0,
            final(self).transaction.trace is None,
            final(self).trace.status is None,
            final(self).trace.data@.len() == 0,
            final(self).query@.len() == 0,
            final(self).sdk == old(self).sdk,
    {
        let mut trace = TraceRecord::new();
        std::mem::swap(&mut trace, &mut self.trace);
        trace.status = Some(if failed {
            Status::Failure
        } else {
            Status::Success
        });
        let mut transaction = TransactionRecord::new();
        std::mem::swap(&mut transaction, &mut self.transaction);
        let mut query = String::new();
        std::mem::swap(&mut query, &mut self.query);
        let empty = String::new();
        let root = self.nodes.remove(&empty);
        match root {
            Some(root) => {
                let mut root = root;
                let ghost root_data = root.data@;
                trace.data.append(&mut root.data);
                let key = String::from_str("query");
                proof {
                    reveal_strlit("query");
                }
                trace.data.push((key, DataValue::Text(query)));
                assert(trace.data@.drop_last() =~= old(self).trace.data@ + root_data);
                assert(trace.data@.last().0@ == query_key());
                assert(query == old(self).query);
                assert(lookup(old(self).nodes@, root_key())->0.data@ == root_data);
            },
            None => {},
        }
        let mut rest = self.nodes.drain();
        transaction.spans.append(&mut rest);
        transaction.trace = Some(trace);
        transaction.timestamp = Some(now_micros());
        transaction
    }

    /// A span of this trace opened now under `parent`.
    fn open_span(&self, op: String, parent: SpanId, status: Option<Status>) -> (r: SpanRecord)
        ensures
            r.trace_id == self.trace.trace_id,
            r.parent_span_id == Some(parent),
            r.op == op,
            r.description is None,
            r.timestamp is None,
            r.status == status,
            r.data@.len() == 0,
    {
        SpanRecord {
            trace_id: self.trace.trace_id,
            span_id: fresh_span_id(),
            parent_span_id: Some(parent),
            op,
            description: None,
            start_timestamp: now_micros(),
            timestamp: None,
            status,
            data: Vec::new(),
        }
    }

    /// The parent identifier of a span under `key`.
    fn parent_of(&self, key: &String) -> (r: SpanId)
        requires
            self.wf(),
        ensures
            r == self.parent_for(key@),
    {
        match self.nodes.span_id_of(key) {
            Some(id) => id,
            None => self.trace.span_id,
        }
    }
}

} // verus!
