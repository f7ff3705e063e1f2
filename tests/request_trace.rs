use async_graphql_extension_sentry::extension::{SentryAdditionalData, SentryExtension, SentryExtensionFactory};
use async_graphql_extension_sentry::path::{parent_key_of, path_key_of};
use async_graphql_extension_sentry::span::{DataValue, ErrorInfo, PathSegment, SpanRecord, Status};
use async_graphql_extension_sentry::store::SpanStore;

fn path(segs: &[&str]) -> Vec<String> {
    segs.iter().map(|s| s.to_string()).collect()
}

fn resolve_ok(ext: &mut SentryExtension, segs: &[&str]) -> SpanRecord {
    let p = path(segs);
    let span = ext.begin_resolve(&p);
    let opened = span.clone();
    let r: Result<u32, ()> = ext.end_resolve(&p, span, Ok(7));
    assert_eq!(r, Ok(7));
    opened
}

fn run_stages(ext: &mut SentryExtension, query: &str) {
    ext.record_operation(Some("Op".to_string()));
    let prepare = ext.begin_stage("prepare_request");
    ext.end_stage(prepare);
    let validation = ext.begin_stage("validation");
    ext.end_stage(validation);
    ext.record_query(query.to_string());
    let parse = ext.begin_stage("parse_query");
    let r: Result<(), ()> = ext.end_parse(parse, Ok(()));
    assert_eq!(r, Ok(()));
}

fn data_text(data: &[(String, DataValue)], key: &str) -> Option<String> {
    data.iter().find(|(k, _)| k == key).and_then(|(_, v)| match v {
        DataValue::Text(t) => Some(t.clone()),
        _ => None,
    })
}

#[test]
fn nested_query_gives_six_spans_linked_by_path() {
    let factory = SentryExtensionFactory::new();
    let mut ext = factory.create();
    let root_id = ext.trace.span_id;
    ext.begin_request();
    run_stages(&mut ext, "{ a { b c } }");
    let a = resolve_ok(&mut ext, &["a"]);
    let b = resolve_ok(&mut ext, &["a", "b"]);
    let c = resolve_ok(&mut ext, &["a", "c"]);
    assert_eq!(a.parent_span_id, Some(root_id));
    assert_eq!(b.parent_span_id, Some(a.span_id));
    assert_eq!(c.parent_span_id, Some(a.span_id));

    let t = ext.finish_request(false);
    assert_eq!(t.spans.len(), 6);
    let ops: Vec<&str> = t.spans.iter().map(|s| s.op.as_str()).collect();
    assert_eq!(
        ops,
        vec!["prepare_request", "validation", "parse_query", "resolve-a", "resolve-a.b", "resolve-a.c"]
    );
    assert!(t.spans.iter().all(|s| s.timestamp.is_some()));
    assert!(t.spans.iter().all(|s| s.op != "request"));
    let trace = t.trace.as_ref().unwrap();
    assert_eq!(trace.span_id, root_id);
    assert_eq!(trace.status, Some(Status::Success));
    assert_eq!(trace.op.as_deref(), Some("Op"));
    assert_eq!(data_text(&trace.data, "query").as_deref(), Some("{ a { b c } }"));
    assert_eq!(t.name.as_deref(), Some("Op"));
    assert_eq!(t.platform, "async_graphql");
    assert_eq!(t.sdk.as_ref().unwrap().name, "async_graphql");
    assert!(t.timestamp.is_some());
}

#[test]
fn stage_spans_hang_under_root() {
    let factory = SentryExtensionFactory::new();
    let mut ext = factory.create();
    let root_id = ext.trace.span_id;
    let trace_id = ext.trace.trace_id;
    ext.begin_request();
    run_stages(&mut ext, "{ x }");
    let t = ext.finish_request(false);
    assert_eq!(t.spans.len(), 3);
    for s in &t.spans {
        assert_eq!(s.parent_span_id, Some(root_id));
        assert_eq!(s.trace_id, trace_id);
    }
    assert_eq!(t.spans[0].status, None);
    assert_eq!(t.spans[1].status, None);
    assert_eq!(t.spans[2].status, Some(Status::Success));
}

#[test]
fn failing_resolve_records_error_and_passes_failure_on() {
    let factory = SentryExtensionFactory::new();
    let mut ext = factory.create();
    ext.begin_request();
    let p = path(&["a"]);
    let span = ext.begin_resolve(&p);
    let failure = ErrorInfo {
        message: "boom".to_string(),
        path: vec![PathSegment::Field("a".to_string()), PathSegment::Index(2)],
    };
    let r: Result<u8, String> = ext.end_resolve(&p, span, Err(("original".to_string(), failure)));
    assert_eq!(r, Err("original".to_string()));
    let t = ext.finish_request(true);
    assert_eq!(t.spans.len(), 1);
    let s = &t.spans[0];
    assert_eq!(s.op, "resolve-a");
    assert_eq!(s.status, Some(Status::Failure));
    assert_eq!(s.data.len(), 2);
    assert_eq!(data_text(&s.data, "error").as_deref(), Some("boom"));
    assert_eq!(s.data[1].0, "path");
    match &s.data[1].1 {
        DataValue::Path(segs) => {
            assert_eq!(segs.len(), 2);
            assert!(matches!(&segs[0], PathSegment::Field(f) if f == "a"));
            assert!(matches!(&segs[1], PathSegment::Index(2)));
        }
        _ => panic!("path expected"),
    }
}

#[test]
fn failing_parse_records_error_and_fails_the_trace() {
    let factory = SentryExtensionFactory::new();
    let mut ext = factory.create();
    ext.begin_request();
    ext.record_query("{".to_string());
    let parse = ext.begin_stage("parse_query");
    let failure = ErrorInfo { message: "unexpected end".to_string(), path: vec![] };
    let r: Result<(), i32> = ext.end_parse(parse, Err((-1, failure)));
    assert_eq!(r, Err(-1));
    let t = ext.finish_request(true);
    assert_eq!(t.spans.len(), 1);
    assert_eq!(t.spans[0].status, Some(Status::Failure));
    assert_eq!(data_text(&t.spans[0].data, "error").as_deref(), Some("unexpected end"));
    assert_eq!(t.trace.as_ref().unwrap().status, Some(Status::Failure));
}

#[test]
fn request_status_follows_outcome() {
    let factory = SentryExtensionFactory::new();
    for failed in [false, true] {
        let mut ext = factory.create();
        ext.begin_request();
        resolve_ok(&mut ext, &["a"]);
        let t = ext.finish_request(failed);
        let expected = if failed { Status::Failure } else { Status::Success };
        assert_eq!(t.trace.unwrap().status, Some(expected));
    }
}

#[test]
fn missing_parent_falls_back_to_root() {
    let factory = SentryExtensionFactory::new();
    let mut ext = factory.create();
    let root_id = ext.trace.span_id;
    ext.begin_request();
    let deep = resolve_ok(&mut ext, &["x", "y"]);
    assert_eq!(deep.parent_span_id, Some(root_id));
}

#[test]
fn siblings_are_both_kept() {
    let factory = SentryExtensionFactory::new();
    let mut ext = factory.create();
    ext.begin_request();
    resolve_ok(&mut ext, &["a"]);
    let pb = path(&["a", "b"]);
    let pc = path(&["a", "c"]);
    let sb = ext.begin_resolve(&pb);
    let sc = ext.begin_resolve(&pc);
    let _: Result<(), ()> = ext.end_resolve(&pc, sc, Ok(()));
    let _: Result<(), ()> = ext.end_resolve(&pb, sb, Ok(()));
    assert_eq!(ext.nodes.len(), 4);
    let t = ext.finish_request(false);
    let ops: Vec<&str> = t.spans.iter().map(|s| s.op.as_str()).collect();
    assert!(ops.contains(&"resolve-a.b"));
    assert!(ops.contains(&"resolve-a.c"));
    assert_eq!(t.spans.len(), 3);
}

#[test]
fn finish_leaves_holders_fresh() {
    let factory = SentryExtensionFactory::new();
    let mut ext = factory.create();
    ext.begin_request();
    run_stages(&mut ext, "{ a }");
    resolve_ok(&mut ext, &["a"]);
    let first = ext.finish_request(false);
    assert_eq!(first.spans.len(), 4);
    assert_eq!(ext.nodes.len(), 0);
    assert!(ext.transaction.spans.is_empty());
    assert!(ext.query.is_empty());
    assert_eq!(ext.trace.status, None);
    let second = ext.finish_request(false);
    assert!(second.spans.is_empty());
    assert!(second.trace.unwrap().data.is_empty());
}

#[test]
fn aborted_request_still_hands_out_its_spans() {
    let factory = SentryExtensionFactory::new();
    let mut ext = factory.create();
    ext.begin_request();
    run_stages(&mut ext, "{ a b }");
    resolve_ok(&mut ext, &["a"]);
    let t = ext.finish_request(true);
    assert_eq!(t.spans.len(), 4);
    assert_eq!(t.trace.unwrap().status, Some(Status::Failure));
}

#[test]
fn path_keys_join_with_dots() {
    assert_eq!(path_key_of(&path(&[])), "");
    assert_eq!(path_key_of(&path(&["a"])), "a");
    assert_eq!(path_key_of(&path(&["a", "0", "b"])), "a.0.b");
    assert_eq!(parent_key_of(&path(&["a", "0", "b"])), "a.0");
    assert_eq!(parent_key_of(&path(&["a"])), "");
    assert_eq!(parent_key_of(&path(&[])), "");
}

#[test]
fn store_insert_replace_remove_drain() {
    let factory = SentryExtensionFactory::new();
    let mut ext = factory.create();
    let s1 = ext.begin_stage("one");
    let s2 = ext.begin_stage("two");
    let s3 = ext.begin_stage("three");
    let id2 = s2.span_id;
    let id3 = s3.span_id;
    let mut store = SpanStore::new();
    store.insert("a".to_string(), s1);
    store.insert("b".to_string(), s2);
    assert_eq!(store.len(), 2);
    assert_eq!(store.span_id_of(&"b".to_string()), Some(id2));
    store.insert("b".to_string(), s3);
    assert_eq!(store.len(), 2);
    assert_eq!(store.span_id_of(&"b".to_string()), Some(id3));
    assert_eq!(store.span_id_of(&"c".to_string()), None);
    let removed = store.remove(&"a".to_string()).unwrap();
    assert_eq!(removed.op, "one");
    assert!(store.remove(&"a".to_string()).is_none());
    let rest = store.drain();
    assert_eq!(rest.len(), 1);
    assert_eq!(rest[0].op, "three");
    assert_eq!(store.len(), 0);
}

#[test]
fn factory_describes_the_sdk() {
    let factory = SentryExtensionFactory::new();
    assert_eq!(factory.sdk.name, "async_graphql");
    assert_eq!(factory.sdk.version, "0.1.0");
    let ext = factory.create();
    assert_eq!(ext.nodes.len(), 0);
    let _extra = SentryAdditionalData::default();
}
