use scylla_items::handlers::{
    batch_reply, insert_cql, insert_prepared_reply, insert_reply, invalid_json, metadata_reply,
    not_found_reply, plan_batch,
    plan_item_write, plan_prepared_write, plan_query_iter, prints_request_history, query_iter_error_reply,
    rows_stream_error_reply, statement_setup, BatchKind, MetadataLookup, Reply, ReplyBody,
    RowCollector, RowEvent,
};
use scylla_items::models::{InsertResponse, Item, ItemValue};
use scylla_items::profile::{exec_profile_with_single_target_lb, LoadBalancing};
use scylla_items::request::node_at;
use scylla_items::routing::Route;

fn text_of(r: &Reply) -> &str {
    match &r.body {
        ReplyBody::Text(t) => t.as_str(),
        _ => panic!("expected a text body"),
    }
}

fn is_success(r: &Reply) -> bool {
    r.status == 200
        && matches!(&r.body, ReplyBody::Json(j) if *j == InsertResponse { success: true })
}

fn item(id: u128, name: &str, value: i64) -> Item {
    Item { id, name: name.to_string(), value: ItemValue(value) }
}

#[test]
fn setup_pins_to_node_and_records_history_when_debugging() {
    let node = node_at(0x7f00_0003, Some(9043));
    let s = statement_setup(Some(node), true);
    assert_eq!(s.profile, Some(exec_profile_with_single_target_lb(node)));
    assert!(s.record_history);
    let s = statement_setup(None, false);
    assert_eq!(s.profile, None);
    assert!(!s.record_history);
}

#[test]
fn item_write_binds_item_values() {
    let w = plan_item_write(None, false, Ok(item(7, "alice", 123))).unwrap();
    assert_eq!(w.values.0, 7);
    assert_eq!(w.values.1, "alice");
    assert_eq!(w.values.2, ItemValue(123));
    assert_eq!(w.setup.profile, None);
    assert!(!w.setup.record_history);
}

#[test]
fn item_write_with_bad_json_answers_400() {
    let r = plan_item_write(None, true, Err("expected value at line 1 column 1".to_string()))
        .err()
        .unwrap();
    assert_eq!(r.status, 400);
    assert_eq!(text_of(&r), "invalid json: expected value at line 1 column 1");
}

#[test]
fn invalid_json_reply_text() {
    let r = invalid_json("x");
    assert_eq!(r.status, 400);
    assert_eq!(text_of(&r), "invalid json: x");
}

#[test]
fn insert_statement_text() {
    assert_eq!(insert_cql(), "INSERT INTO demo.items (id, name, value) VALUES (?, ?, ?)");
}

#[test]
fn insert_always_answers_success() {
    assert!(is_success(&insert_reply(Ok(()))));
    assert!(is_success(&insert_reply(Err("timeout".to_string()))));
}

#[test]
fn insert_prepared_reports_db_errors() {
    assert!(is_success(&insert_prepared_reply(Ok(()))));
    let r = insert_prepared_reply(Err("unavailable".to_string()));
    assert_eq!(r.status, 500);
    assert_eq!(text_of(&r), "db error: unavailable");
}

#[test]
fn batch_has_one_statement_per_item_in_order() {
    let node = node_at(0x7f00_0002, None);
    let b = plan_batch(Some(node), false, Ok(vec![item(1, "b", 1), item(2, "c", 2)])).unwrap();
    assert_eq!(b.kind, BatchKind::Logged);
    assert_eq!(b.statements, 2);
    assert_eq!(b.values.len(), 2);
    assert_eq!((b.values[0].0, b.values[0].1.as_str(), b.values[0].2 .0), (1, "b", 1));
    assert_eq!((b.values[1].0, b.values[1].1.as_str(), b.values[1].2 .0), (2, "c", 2));
    assert_eq!(
        b.setup.profile.map(|p| p.load_balancing),
        Some(LoadBalancing::SingleTarget(node))
    );
}

#[test]
fn empty_batch_has_no_statement() {
    let b = plan_batch(None, false, Ok(vec![])).unwrap();
    assert_eq!(b.statements, 0);
    assert!(b.values.is_empty());
}

#[test]
fn batch_with_bad_json_answers_400() {
    let r = plan_batch(None, false, Err("oops".to_string())).err().unwrap();
    assert_eq!(r.status, 400);
    assert_eq!(text_of(&r), "invalid json: oops");
}

#[test]
fn batch_reply_reports_errors() {
    assert!(is_success(&batch_reply(Ok(()))));
    let r = batch_reply(Err("write timeout".to_string()));
    assert_eq!(r.status, 500);
    assert_eq!(text_of(&r), "batch error: write timeout");
}

#[test]
fn full_read_plan() {
    let p = plan_query_iter(None, true);
    assert_eq!(p.cql, "SELECT id, name, value FROM demo.items");
    assert!(p.setup.record_history);
    assert_eq!(p.setup.profile, None);
}

#[test]
fn full_read_error_replies() {
    let r = query_iter_error_reply("no host");
    assert_eq!(r.status, 500);
    assert_eq!(text_of(&r), "query_iter error: no host");
    let r = rows_stream_error_reply("type mismatch");
    assert_eq!(r.status, 500);
    assert_eq!(text_of(&r), "failed to get rows_stream: type mismatch");
}

#[test]
fn full_read_shows_rows_with_hyphenated_ids() {
    let mut c = RowCollector::new();
    assert!(c.step(RowEvent::Row(
        0xa1a2a3a4b1b2c1c2d1d2d3d4d5d6d7d8,
        "alice".to_string(),
        ItemValue(123)
    )));
    assert!(c.step(RowEvent::Row(0x550e8400e29b41d4a716446655440000, "bob".to_string(), ItemValue(-5))));
    assert!(!c.step(RowEvent::End));
    let r = c.into_reply();
    assert_eq!(r.status, 200);
    match r.body {
        ReplyBody::Rows(rows) => {
            assert_eq!(rows.len(), 2);
            assert_eq!(rows[0].id, "a1a2a3a4-b1b2-c1c2-d1d2-d3d4d5d6d7d8");
            assert_eq!(rows[0].name, "alice");
            assert_eq!(rows[0].value, 123);
            assert_eq!(rows[1].id, "550e8400-e29b-41d4-a716-446655440000");
            assert_eq!(rows[1].name, "bob");
            assert_eq!(rows[1].value, -5);
        }
        _ => panic!("expected rows"),
    }
}

#[test]
fn full_read_stops_at_first_error_keeping_rows() {
    let mut c = RowCollector::new();
    assert!(c.step(RowEvent::Row(0, "zero".to_string(), ItemValue(0))));
    assert!(!c.step(RowEvent::Failed));
    let r = c.into_reply();
    match r.body {
        ReplyBody::Rows(rows) => {
            assert_eq!(rows.len(), 1);
            assert_eq!(rows[0].id, "00000000-0000-0000-0000-000000000000");
        }
        _ => panic!("expected rows"),
    }
}

#[test]
fn empty_read_shows_no_rows() {
    let c = RowCollector::new();
    match c.into_reply().body {
        ReplyBody::Rows(rows) => assert!(rows.is_empty()),
        _ => panic!("expected rows"),
    }
}

#[test]
fn metadata_replies_name_the_requested_table() {
    let r = metadata_reply("demo", "items", MetadataLookup::RefreshFailed("down".to_string()));
    assert_eq!((r.status, text_of(&r)), (404, "Failed to refresh metadata down"));
    let r = metadata_reply("demo", "items", MetadataLookup::KeyspaceMissing);
    assert_eq!((r.status, text_of(&r)), (404, "Keyspace 'demo' not found"));
    let r = metadata_reply("demo", "items", MetadataLookup::TableMissing);
    assert_eq!((r.status, text_of(&r)), (404, "Table 'items' not found in keyspace 'demo'"));
    let r = metadata_reply("shop", "orders", MetadataLookup::KeyspaceMissing);
    assert_eq!((r.status, text_of(&r)), (404, "Keyspace 'shop' not found"));
    let r = metadata_reply("shop", "orders", MetadataLookup::TableMissing);
    assert_eq!((r.status, text_of(&r)), (404, "Table 'orders' not found in keyspace 'shop'"));
    let r = metadata_reply("demo", "items", MetadataLookup::Found("Table { .. }".to_string()));
    assert_eq!((r.status, text_of(&r)), (200, "Table { .. }"));
}

#[test]
fn not_found_reply_text() {
    let r = not_found_reply();
    assert_eq!((r.status, text_of(&r)), (404, "Not Found"));
}

#[test]
fn every_statement_endpoint_prints_history_when_debugging() {
    for route in [
        Route::Insert,
        Route::InsertBatch,
        Route::InsertPrepared,
        Route::QueryIter,
        Route::CustomInsert,
        Route::CustomQuery,
        Route::CustomQueryPaged,
        Route::CustomQueryPagedAll,
        Route::CustomQueryTokenRange,
    ] {
        assert!(prints_request_history(route, true));
        assert!(!prints_request_history(route, false));
    }
    assert!(!prints_request_history(Route::Metadata, true));
    assert!(!prints_request_history(Route::NotFound, true));
}

#[test]
fn insert_prepared_prepares_the_insert_for_the_request() {
    let p = plan_prepared_write(None, false, Ok(item(7, "felix", 321))).unwrap();
    assert_eq!(p.prepare_cql, "INSERT INTO demo.items (id, name, value) VALUES (?, ?, ?)");
    assert_eq!(p.write.values.0, 7);
    assert_eq!(p.write.values.1, "felix");
    assert_eq!(p.write.values.2, ItemValue(321));
    assert_eq!(p.write.setup, statement_setup(None, false));
    match plan_prepared_write(None, false, Err("eof".to_string())) {
        Err(r) => assert_eq!((r.status, text_of(&r)), (400, "invalid json: eof")),
        Ok(_) => panic!("expected a 400 reply"),
    }
}
