use scylla_items::custom::{
    custom_insert_reply, custom_query_error_reply, custom_query_reply, page_reply,
    paging_error_reply, plan_custom_insert, plan_custom_query, plan_custom_query_paged,
    plan_custom_query_paged_all, plan_token_range, token_range_reply, PageCollector,
    PagedAllStep, paging_state_from_decoded,
};
use scylla_items::dispatch::plan_request;
use scylla_items::handlers::{statement_setup, Reply, ReplyBody, ResultRow};
use scylla_items::models::{CustomInsertRequest, InsertResponse, PageRequest, TokenRangeRequest};
use scylla_items::request::{node_at, query_pairs};
use scylla_items::routing::{HttpMethod, Route};

fn text_of(r: &Reply) -> &str {
    match &r.body {
        ReplyBody::Text(t) => t.as_str(),
        _ => panic!("expected a text body"),
    }
}

fn results_of(r: &Reply) -> (Vec<(Option<String>, String)>, Option<Option<String>>) {
    match &r.body {
        ReplyBody::Results { rows, next_paging_state } => (
            rows.iter().map(|ResultRow { id, text }| (id.clone(), text.clone())).collect(),
            next_paging_state.clone(),
        ),
        _ => panic!("expected results"),
    }
}

fn texts(v: &[&str]) -> Vec<(Option<String>, String)> {
    v.iter().map(|t| (None, t.to_string())).collect()
}

#[test]
fn custom_insert_stores_the_text() {
    let node = Some(node_at(0x7f000002, None));
    let w = plan_custom_insert(
        node,
        true,
        Ok(CustomInsertRequest { text: "hello advanced world".to_string() }),
    )
    .unwrap();
    assert_eq!(w.cql, "INSERT INTO demo.custom_texts (id, text) VALUES (uuid(), ?)");
    assert_eq!(w.text, "hello advanced world");
    assert_eq!(w.setup, statement_setup(node, true));
}

#[test]
fn custom_insert_rejects_bad_json() {
    match plan_custom_insert(None, false, Err("missing field `text`".to_string())) {
        Err(r) => assert_eq!((r.status, text_of(&r)), (400, "invalid json: missing field `text`")),
        Ok(_) => panic!("expected a 400 reply"),
    }
}

#[test]
fn custom_insert_replies() {
    let r = custom_insert_reply(Ok(()));
    assert!(r.status == 200 && matches!(&r.body, ReplyBody::Json(j) if *j == InsertResponse { success: true }));
    let r = custom_insert_reply(Err("timeout".to_string()));
    assert_eq!((r.status, text_of(&r)), (500, "db error: timeout"));
}

#[test]
fn custom_query_shows_decoded_texts_in_order() {
    let q = plan_custom_query(None, false);
    assert_eq!(q.cql, "SELECT text FROM demo.custom_texts");
    let r = custom_query_reply(vec![Some("a".to_string()), None, Some("b".to_string())]);
    assert_eq!(r.status, 200);
    assert_eq!(results_of(&r), (texts(&["a", "b"]), None));
}

#[test]
fn paged_query_defaults_when_body_is_unreadable() {
    let p = plan_custom_query_paged(None, false, None);
    assert_eq!(p.cql, "SELECT text FROM demo.custom_texts");
    assert_eq!(p.page_size, Some(10));
    assert!(p.paging_state.is_none());
}

#[test]
fn paged_query_continues_from_the_client_state() {
    let req = PageRequest { paging_state: Some("AQID".to_string()), page_size: Some(1) };
    let p = plan_custom_query_paged(None, true, Some(req));
    assert_eq!(p.page_size, Some(1));
    assert_eq!(p.paging_state, Some(vec![1u8, 2, 3]));
    assert_eq!(p.setup, statement_setup(None, true));
}

#[test]
fn paged_query_reads_the_first_page_for_a_state_that_is_not_base64() {
    let req = PageRequest { paging_state: Some("not base64!".to_string()), page_size: Some(2) };
    let p = plan_custom_query_paged(None, false, Some(req));
    assert!(p.paging_state.is_none());
    assert_eq!(p.page_size, Some(2));
}

#[test]
fn page_reply_encodes_padded_groups() {
    let r = page_reply(vec![], Some(vec![0xff]));
    assert_eq!(results_of(&r).1, Some(Some("/w==".to_string())));
    let r = page_reply(vec![], Some(vec![0xfb, 0xff]));
    assert_eq!(results_of(&r).1, Some(Some("+/8=".to_string())));
    let r = page_reply(vec![], Some(b"hello".to_vec()));
    assert_eq!(results_of(&r).1, Some(Some("aGVsbG8=".to_string())));
}

#[test]
fn paged_all_steps_until_the_last_page() {
    let c = PageCollector::new();
    let c = match c.take_page(Ok((vec![Some("a".to_string())], true))) {
        PagedAllStep::Continue(c) => c,
        PagedAllStep::Done(_) => panic!("expected to continue"),
    };
    match c.take_page(Ok((vec![None, Some("b".to_string())], false))) {
        PagedAllStep::Done(r) => {
            assert_eq!(r.status, 200);
            assert_eq!(results_of(&r), (texts(&["a", "b"]), None));
        }
        PagedAllStep::Continue(_) => panic!("expected the reply"),
    }
}

#[test]
fn paged_all_stops_at_a_failed_page() {
    let c = PageCollector::new();
    match c.take_page(Err("timeout".to_string())) {
        PagedAllStep::Done(r) => assert_eq!((r.status, text_of(&r)), (500, "Paging error: timeout")),
        PagedAllStep::Continue(_) => panic!("expected the reply"),
    }
}

#[test]
fn custom_query_error_text() {
    let r = custom_query_error_reply("unavailable");
    assert_eq!((r.status, text_of(&r)), (500, "query error: unavailable"));
}

#[test]
fn page_reply_encodes_the_next_state() {
    let r = page_reply(vec![Some("x".to_string())], Some(vec![1, 2, 3]));
    assert_eq!(results_of(&r), (texts(&["x"]), Some(Some("AQID".to_string()))));
    let r = page_reply(vec![], None);
    assert_eq!(results_of(&r), (vec![], Some(None)));
}

#[test]
fn paged_all_collects_every_page_in_order() {
    let p = plan_custom_query_paged_all(None, false);
    assert_eq!(p.page_size, Some(10));
    assert!(p.paging_state.is_none());
    let mut c = PageCollector::new();
    c.add_page(vec![Some("a".to_string()), Some("b".to_string())]);
    c.add_page(vec![None, Some("c".to_string())]);
    let r = c.into_reply();
    assert_eq!(r.status, 200);
    assert_eq!(results_of(&r), (texts(&["a", "b", "c"]), None));
}

#[test]
fn token_range_plan_is_never_pinned() {
    let req = TokenRangeRequest { start_token: i64::MIN, end_token: 0, page_size: Some(10) };
    let p = plan_token_range(true, Ok(req)).unwrap();
    assert_eq!(
        p.cql,
        "SELECT id, text FROM demo.custom_texts WHERE token(id) > ? AND token(id) <= ?"
    );
    assert_eq!((p.start_token, p.end_token, p.page_size), (i64::MIN, 0, Some(10)));
    assert_eq!(p.setup, statement_setup(None, true));
    match plan_token_range(false, Err("expected value".to_string())) {
        Err(r) => assert_eq!((r.status, text_of(&r)), (400, "invalid json: expected value")),
        Ok(_) => panic!("expected a 400 reply"),
    }
}

#[test]
fn token_range_reply_shows_ids() {
    let id: u128 = 0x550e8400_e29b_41d4_a716_446655440000;
    let r = token_range_reply(vec![Some((id, "t".to_string())), None], None);
    assert_eq!(
        results_of(&r),
        (
            vec![(Some("550e8400-e29b-41d4-a716-446655440000".to_string()), "t".to_string())],
            Some(None)
        )
    );
}

#[test]
fn paging_error_text() {
    let r = paging_error_reply("unavailable");
    assert_eq!((r.status, text_of(&r)), (500, "Paging error: unavailable"));
}

#[test]
fn request_plan_routes_pins_and_names_the_table() {
    let node = Some(node_at(0x7f000003, Some(9042)));
    let pairs = query_pairs(Some("keyspace=shop&table=orders&table=x"));
    let p = plan_request(HttpMethod::Get, "/metadata", &pairs, node);
    assert_eq!(p.route, Route::Metadata);
    assert_eq!((p.keyspace.as_str(), p.table.as_str()), ("shop", "orders"));
    assert!(p.node.is_none());
    assert!(!p.prints_history);

    let pairs = query_pairs(None);
    let p = plan_request(HttpMethod::Post, "/custom_insert", &pairs, node);
    assert_eq!(p.route, Route::CustomInsert);
    assert_eq!(p.node, node);
    assert_eq!((p.keyspace.as_str(), p.table.as_str()), ("demo", "items"));

    let p = plan_request(HttpMethod::Post, "/custom_query_token_range", &pairs, node);
    assert!(p.node.is_none());
}

#[test]
fn debug_pair_changes_only_the_debug_flag() {
    let node = Some(node_at(0x7f000002, None));
    let without = plan_request(HttpMethod::Get, "/query_iter", &query_pairs(Some("a=1")), node);
    let with =
        plan_request(HttpMethod::Get, "/query_iter", &query_pairs(Some("debug=true&a=1")), node);
    assert_eq!((with.route, with.node), (without.route, without.node));
    assert_eq!((with.keyspace, with.table), (without.keyspace, without.table));
    assert!(with.debug && with.prints_history);
    assert!(!without.debug && !without.prints_history);
}

#[test]
fn paging_state_handed_out_resumes_at_the_same_bytes() {
    let state = vec![0u8, 7, 255, 128, 64];
    let r = page_reply(vec![Some("x".to_string())], Some(state.clone()));
    let text = match results_of(&r).1 {
        Some(Some(t)) => t,
        _ => panic!("expected a paging state"),
    };
    let req = PageRequest { paging_state: Some(text), page_size: Some(1) };
    let p = plan_custom_query_paged(None, false, Some(req));
    assert_eq!(p.paging_state, Some(state));
}

#[test]
fn decoded_paging_state_or_first_page() {
    assert_eq!(paging_state_from_decoded(Ok(vec![4, 5])), Some(vec![4, 5]));
    assert_eq!(paging_state_from_decoded(Err("Invalid padding".to_string())), None);
}
