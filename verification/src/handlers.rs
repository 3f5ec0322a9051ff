//! What each endpoint decides: the statement it runs, with which settings and
//! values, and the reply it sends for each outcome.

use vstd::prelude::*;
use vstd::string::StringExecFns;

use crate::models::{InsertResponse, InsertValues, Item, ItemValue};
use crate::profile::{
    exec_profile_with_single_target_lb, spec_profile, spec_request_timeout_secs, ConsistencyLevel,
    LoadBalancing, ProfileSettings, RetryPolicyKind,
};
use crate::request::NodeAddress;
use crate::routing::Route;
use crate::uuid_text::{hyphenated_text, uuid_to_string};

verus! {

/// One row of a full-table read as it is shown to the client.
#[derive(Debug)]
pub struct RowJson {
    pub id: String,
    pub name: String,
    pub value: i64,
}

/// The body of a reply.
#[derive(Debug)]
pub enum ReplyBody {
    /// A JSON write acknowledgement.
    Json(InsertResponse),
    /// Plain text.
    Text(String),
    /// A JSON object `{"rows": [...]}`.
    Rows(Vec<RowJson>),
    /// A JSON object `{"results": [...]}`, with a `"next_paging_state"` member
    /// (a string, or null when there is no next page) when the endpoint pages.
    Results { rows: Vec<ResultRow>, next_paging_state: Option<Option<String>> },
}

/// One row of the custom texts table as it is shown to the client: its text,
/// and its id as hyphenated text when the endpoint shows ids.
#[derive(Debug)]
pub struct ResultRow {
    pub id: Option<String>,
    pub text: String,
}

/// An HTTP reply: status code and body.
#[derive(Debug)]
pub struct Reply {
    pub status: u16,
    pub body: ReplyBody,
}

/// A reply body taken by value.
pub enum BodyView {
    Json(bool),
    Text(Seq<char>),
    Rows(Seq<(Seq<char>, Seq<char>, i64)>),
    Results(Seq<(Option<Seq<char>>, Seq<char>)>, Option<Option<Seq<char>>>),
}

/// A reply taken by value.
pub struct ReplyView {
    pub status: u16,
    pub body: BodyView,
}

/// A shown row taken by value: id text, name, value.
pub open spec fn row_view(r: RowJson) -> (Seq<char>, Seq<char>, i64) {
    (r.id@, r.name@, r.value)
}

impl View for ReplyBody {
    type V = BodyView;

    open spec fn view(&self) -> BodyView {
        match self {
            ReplyBody::Json(j) => BodyView::Json(j.success),
            ReplyBody::Text(t) => BodyView::Text(t@),
            ReplyBody::Rows(rows) => BodyView::Rows(rows@.map_values(|r: RowJson| row_view(r))),
            ReplyBody::Results { rows, next_paging_state } => BodyView::Results(
                rows@.map_values(|r: ResultRow| result_row_view(r)),
                match next_paging_state {
                    Some(n) => Some(opt_text(*n)),
                    None => None,
                },
            ),
        }
    }
}

impl View for Reply {
    type V = ReplyView;

    open spec fn view(&self) -> ReplyView {
        ReplyView { status: self.status, body: self.body@ }
    }
}

/// A shown result row taken by value: id text (when shown) and text.
pub open spec fn result_row_view(r: ResultRow) -> (Option<Seq<char>>, Seq<char>) {
    (
        match r.id {
            Some(i) => Some(i@),
            None => None,
        },
        r.text@,
    )
}

/// An optional string taken by its characters.
pub open spec fn opt_text(s: Option<String>) -> Option<Seq<char>> {
    match s {
        Some(t) => Some(t@),
        None => None,
    }
}

/// A text reply with the given status.
pub open spec fn text_reply(status: u16, text: Seq<char>) -> ReplyView {
    ReplyView { status, body: BodyView::Text(text) }
}

/// The reply to a successful write: status 200 and `{"success": true}`.
pub open spec fn success_reply() -> ReplyView {
    ReplyView { status: 200, body: BodyView::Json(true) }
}

/// The reply to a body that is not valid JSON for the endpoint: status 400.
pub open spec fn invalid_json_reply(detail: Seq<char>) -> ReplyView {
    text_reply(400, "invalid json: "@ + detail)
}

pub(crate) fn join(prefix: &str, detail: &str) -> (r: String)
    ensures
        r@ == prefix@ + detail@,
{
    let mut s = prefix.to_owned();
    s.append(detail);
    s
}

pub(crate) fn text(status: u16, t: String) -> (r: Reply)
    ensures
        r@ == text_reply(status, t@),
{
    Reply { status, body: ReplyBody::Text(t) }
}

pub(crate) fn success() -> (r: Reply)
    ensures
        r@ == success_reply(),
{
    Reply { status: 200, body: ReplyBody::Json(InsertResponse { success: true }) }
}

/// The reply to a body that is not valid JSON: status 400 and
/// `invalid json: <parser message>`.
pub fn invalid_json(detail: &str) -> (r: Reply)
    ensures
        r@ == invalid_json_reply(detail@),
{
    text(400, join("invalid json: ", detail))
}

/// The reply to a path (or method) that no endpoint serves: status 404 and
/// `Not Found`.
pub fn not_found_reply() -> (r: Reply)
    ensures
        r@ == text_reply(404, "Not Found"@),
{
    text(404, "Not Found".to_owned())
}

/// How a statement is configured before it is sent.
#[derive(Debug, Clone, Copy, PartialEq, Eq, Structural)]
pub struct StatementSetup {
    /// The execution profile to set on the statement, if any (otherwise the
    /// session's default profile applies).
    pub profile: Option<ProfileSettings>,
    /// Whether the statement records its request history.
    pub record_history: bool,
}

/// The setup of a statement for a request with these options: pinned to the
/// node if one was asked for, recording history when debugging.
pub open spec fn spec_setup(node: Option<NodeAddress>, debug: bool) -> StatementSetup {
    StatementSetup {
        profile: match node {
            Some(n) => Some(spec_profile(LoadBalancing::SingleTarget(n))),
            None => None,
        },
        record_history: debug,
    }
}

/// Configures a statement for a request: an execution profile that sends
/// every request to `node` when one is given, and request history recording
/// when `debug` is set.
pub fn statement_setup(node: Option<NodeAddress>, debug: bool) -> (r: StatementSetup)
    ensures
        r == spec_setup(node, debug),
{
    let profile = match node {
        Some(n) => Some(exec_profile_with_single_target_lb(n)),
        None => None,
    };
    StatementSetup { profile, record_history: debug }
}

/// The profile a statement runs with: its own when it has one, otherwise the
/// session's default profile.
pub open spec fn effective_profile(setup: StatementSetup) -> ProfileSettings {
    match setup.profile {
        Some(p) => p,
        None => spec_profile(LoadBalancing::Default),
    }
}

/// Every statement of every endpoint runs under local-one consistency, a
/// 42-second timeout and the default retry policy; a request that names a
/// node sends its statements to that node alone, and a request that names
/// none leaves the choice to the default policy.
pub proof fn lemma_every_statement_is_configured(node: Option<NodeAddress>, debug: bool)
    ensures
        effective_profile(spec_setup(node, debug)).consistency == ConsistencyLevel::LocalOne,
        effective_profile(spec_setup(node, debug)).request_timeout_secs == Some(
            spec_request_timeout_secs(),
        ),
        effective_profile(spec_setup(node, debug)).retry == RetryPolicyKind::Default,
        effective_profile(spec_setup(node, debug)).load_balancing == match node {
            Some(n) => LoadBalancing::SingleTarget(n),
            None => LoadBalancing::Default,
        },
        spec_setup(node, debug).record_history == debug,
{
}

/// Whether the endpoint prints the collected request history once it has
/// answered: every endpoint that runs statements does when debugging. The
/// metadata endpoint runs none (it refreshes the session's schema view), and
/// an unknown path runs none either.
pub open spec fn spec_prints_history(route: Route, debug: bool) -> bool {
    debug && route != Route::Metadata && route != Route::NotFound
}

/// Whether the endpoint prints the collected request history once it has
/// answered.
pub fn prints_request_history(route: Route, debug: bool) -> (r: bool)
    ensures
        r == spec_prints_history(route, debug),
{
    debug && match route {
        Route::Metadata | Route::NotFound => false,
        _ => true,
    }
}

/// The text of the insert statement: run as it is by `/insert`, prepared for
/// each request by `/insert_prepared`, and prepared once at start-up for the
/// statements of `/insert_batch`.
pub open spec fn spec_insert_cql() -> Seq<char> {
    "INSERT INTO demo.items (id, name, value) VALUES (?, ?, ?)"@
}

/// The statement text of a single-item insert.
pub fn insert_cql() -> (r: String)
    ensures
        r@ == spec_insert_cql(),
{
    "INSERT INTO demo.items (id, name, value) VALUES (?, ?, ?)".to_owned()
}

/// A single-item write: the values to bind and the statement setup.
#[derive(Debug)]
pub struct ItemWrite {
    pub values: InsertValues,
    pub setup: StatementSetup,
}

/// Decides a single-item write (`/insert`, `/insert_prepared`) from the
/// request options and the parsed body: on a parsed item, bind its id, name
/// and value; on a parse error, answer 400 with the parser's message.
pub fn plan_item_write(node: Option<NodeAddress>, debug: bool, parsed: Result<Item, String>) -> (r:
    Result<ItemWrite, Reply>)
    ensures
        match parsed {
            Ok(item) => r matches Ok(w) && w.values.0 == item.id && w.values.1@ == item.name@
                && w.values.2 == item.value && w.setup == spec_setup(node, debug),
            Err(e) => r matches Err(reply) && reply@ == invalid_json_reply(e@),
        },
{
    match parsed {
        Ok(item) => {
            let values = item.insert_values();
            Ok(ItemWrite { values, setup: statement_setup(node, debug) })
        },
        Err(e) => Err(invalid_json(e.as_str())),
    }
}

/// A write through a statement prepared for this request: the text to
/// prepare, then the values to bind to the prepared statement and its setup.
#[derive(Debug)]
pub struct PreparedWrite {
    pub prepare_cql: String,
    pub write: ItemWrite,
}

/// Decides `/insert_prepared` from the request options and the parsed body:
/// on a parsed item, prepare the insert statement for this request, then
/// execute it once with the item's id, name and value; on a parse error,
/// answer 400 with the parser's message. A failed prepare or execution is
/// answered by `insert_prepared_reply`.
pub fn plan_prepared_write(node: Option<NodeAddress>, debug: bool, parsed: Result<Item, String>) -> (r:
    Result<PreparedWrite, Reply>)
    ensures
        match parsed {
            Ok(item) => r matches Ok(p) && p.prepare_cql@ == spec_insert_cql() && p.write.values.0
                == item.id && p.write.values.1@ == item.name@ && p.write.values.2 == item.value
                && p.write.setup == spec_setup(node, debug),
            Err(e) => r matches Err(reply) && reply@ == invalid_json_reply(e@),
        },
{
    match plan_item_write(node, debug, parsed) {
        Ok(write) => Ok(PreparedWrite { prepare_cql: insert_cql(), write }),
        Err(reply) => Err(reply),
    }
}

/// The reply of `/insert` once the statement has run: the outcome of the
/// statement is not looked at, and the reply is always a success.
pub fn insert_reply(outcome: Result<(), String>) -> (r: Reply)
    ensures
        r@ == success_reply(),
{
    success()
}

/// The reply of `/insert_prepared` once the statement has been prepared and
/// run: success, or status 500 and `db error: <message>` when preparing or
/// running it failed.
pub fn insert_prepared_reply(outcome: Result<(), String>) -> (r: Reply)
    ensures
        match outcome {
            Ok(()) => r@ == success_reply(),
            Err(e) => r@ == text_reply(500, "db error: "@ + e@),
        },
{
    match outcome {
        Ok(()) => success(),
        Err(e) => text(500, join("db error: ", e.as_str())),
    }
}

/// Kinds of batch.
#[derive(Debug, Clone, Copy, PartialEq, Eq, Structural)]
pub enum BatchKind {
    Logged,
    Unlogged,
    Counter,
}

/// A batch write: one copy of the prepared insert per item, the values of
/// each, in order, and the batch's setup.
#[derive(Debug)]
pub struct BatchWrite {
    pub kind: BatchKind,
    pub statements: usize,
    pub values: Vec<InsertValues>,
    pub setup: StatementSetup,
}

/// The values of item `i` sit at position `i` of the batch.
pub open spec fn batch_values_match(values: Seq<InsertValues>, items: Seq<Item>) -> bool {
    &&& values.len() == items.len()
    &&& forall|i: int|
        0 <= i < items.len() ==> {
            &&& (#[trigger] values[i]).0 == items[i].id
            &&& values[i].1@ == items[i].name@
            &&& values[i].2 == items[i].value
        }
}

/// Decides `/insert_batch` from the request options and the parsed body: a
/// logged batch with one prepared insert per item, binding each item's values
/// in order; on a parse error, answer 400 with the parser's message.
pub fn plan_batch(node: Option<NodeAddress>, debug: bool, parsed: Result<Vec<Item>, String>) -> (r:
    Result<BatchWrite, Reply>)
    ensures
        match parsed {
            Ok(items) => r matches Ok(b) && b.kind == BatchKind::Logged && b.statements
                == items.len() && batch_values_match(b.values@, items@) && b.setup == spec_setup(
                node,
                debug,
            ),
            Err(e) => r matches Err(reply) && reply@ == invalid_json_reply(e@),
        },
{
    match parsed {
        Ok(items) => {
            let setup = statement_setup(node, debug);
            let mut values: Vec<InsertValues> = Vec::with_capacity(items.len());
            let mut statements: usize = 0;
            let mut i: usize = 0;
            while i < items.len()
                invariant
                    0 <= i <= items.len(),
                    statements == i,
                    values@.len() == i,
                    forall|j: int|
                        0 <= j < i ==> {
                            &&& (#[trigger] values@[j]).0 == items@[j].id
                            &&& values@[j].1@ == items@[j].name@
                            &&& values@[j].2 == items@[j].value
                        },
                decreases items.len() - i,
            {
                statements = statements + 1;
                values.push(items[i].insert_values());
                i = i + 1;
            }
            Ok(BatchWrite { kind: BatchKind::Logged, statements, values, setup })
        },
        Err(e) => Err(invalid_json(e.as_str())),
    }
}

/// The reply of `/insert_batch` once the batch has run: success, or status
/// 500 and `batch error: <message>`.
pub fn batch_reply(outcome: Result<(), String>) -> (r: Reply)
    ensures
        match outcome {
            Ok(()) => r@ == success_reply(),
            Err(e) => r@ == text_reply(500, "batch error: "@ + e@),
        },
{
    match outcome {
        Ok(()) => success(),
        Err(e) => text(500, join("batch error: ", e.as_str())),
    }
}

/// A full-table read: statement text and setup.
#[derive(Debug)]
pub struct QueryPlan {
    pub cql: String,
    pub setup: StatementSetup,
}

/// Decides `/query_iter`: read `id, name, value` of every item, pinned and
/// recorded as the request options say.
pub fn plan_query_iter(node: Option<NodeAddress>, debug: bool) -> (r: QueryPlan)
    ensures
        r.cql@ == "SELECT id, name, value FROM demo.items"@,
        r.setup == spec_setup(node, debug),
{
    QueryPlan {
        cql: "SELECT id, name, value FROM demo.items".to_owned(),
        setup: statement_setup(node, debug),
    }
}

/// The reply when the full-table read could not be started: status 500 and
/// `query_iter error: <message>`.
pub fn query_iter_error_reply(detail: &str) -> (r: Reply)
    ensures
        r@ == text_reply(500, "query_iter error: "@ + detail@),
{
    text(500, join("query_iter error: ", detail))
}

/// The reply when the rows of the read do not have the expected column
/// types: status 500 and `failed to get rows_stream: <message>`.
pub fn rows_stream_error_reply(detail: &str) -> (r: Reply)
    ensures
        r@ == text_reply(500, "failed to get rows_stream: "@ + detail@),
{
    text(500, join("failed to get rows_stream: ", detail))
}

/// What the row stream of a full-table read yields next.
pub enum RowEvent {
    /// A row: id, name and value.
    Row(u128, String, ItemValue),
    /// The end of the stream.
    End,
    /// An error while fetching or decoding rows.
    Failed,
}

/// A shown row for an item row.
pub open spec fn shown_row(id: u128, name: Seq<char>, value: ItemValue) -> (
    Seq<char>,
    Seq<char>,
    i64,
) {
    (hyphenated_text(id), name, value.0)
}

/// The rows collected after taking one more stream event: a row is added,
/// anything else leaves the rows as they were.
pub open spec fn collected_after(rows: Seq<(Seq<char>, Seq<char>, i64)>, event: RowEvent) -> Seq<
    (Seq<char>, Seq<char>, i64),
> {
    match event {
        RowEvent::Row(id, name, value) => rows.push(shown_row(id, name@, value)),
        _ => rows,
    }
}

/// The rows collected so far by a full-table read.
pub struct RowCollector {
    rows: Vec<RowJson>,
}

impl View for RowCollector {
    type V = Seq<(Seq<char>, Seq<char>, i64)>;

    closed spec fn view(&self) -> Seq<(Seq<char>, Seq<char>, i64)> {
        self.rows@.map_values(|r: RowJson| row_view(r))
    }
}

impl RowCollector {
    /// No rows collected yet.
    pub fn new() -> (r: Self)
        ensures
            r@ == Seq::<(Seq<char>, Seq<char>, i64)>::empty(),
    {
        let r = RowCollector { rows: Vec::new() };
        assert(r@ =~= Seq::<(Seq<char>, Seq<char>, i64)>::empty());
        r
    }

    /// Takes the next stream event: a row is shown with its id as hyphenated
    /// text and reading goes on; the end of the stream and an error both end
    /// the read, the rows collected so far kept.
    pub fn step(&mut self, event: RowEvent) -> (more: bool)
        ensures
            more == (event is Row),
            final(self)@ == collected_after(old(self)@, event),
            event matches RowEvent::Row(id, name, value) ==> final(self)@ == old(self)@.push(
                (hyphenated_text(id), name@, value.0),
            ),
            !(event is Row) ==> final(self)@ == old(self)@,
    {
        match event {
            RowEvent::Row(id, name, value) => {
                let ghost before = self.rows@;
                let shown = RowJson { id: uuid_to_string(id), name, value: value.0 };
                self.rows.push(shown);
                assert(self.rows@.map_values(|r: RowJson| row_view(r)) =~= before.map_values(
                    |r: RowJson| row_view(r),
                ).push(row_view(shown)));
                true
            },
            _ => false,
        }
    }

    /// The reply of a finished read: status 200 and the collected rows.
    pub fn into_reply(self) -> (r: Reply)
        ensures
            r@ == (ReplyView { status: 200, body: BodyView::Rows(self@) }),
    {
        Reply { status: 200, body: ReplyBody::Rows(self.rows) }
    }
}

/// The rows that a full-table read shows for a run of stream events: those
/// before the first event that is not a row.
pub open spec fn rows_before_stop(events: Seq<RowEvent>) -> Seq<(Seq<char>, Seq<char>, i64)>
    decreases events.len(),
{
    if events.len() == 0 {
        Seq::empty()
    } else {
        match events[0] {
            RowEvent::Row(id, name, value) => seq![shown_row(id, name@, value)] + rows_before_stop(
                events.drop_first(),
            ),
            _ => Seq::empty(),
        }
    }
}

/// The rows held after stepping a collector through `events` from `rows`,
/// stopping after the first event that is not a row.
pub open spec fn run_collector(rows: Seq<(Seq<char>, Seq<char>, i64)>, events: Seq<RowEvent>) -> Seq<
    (Seq<char>, Seq<char>, i64),
>
    decreases events.len(),
{
    if events.len() == 0 {
        rows
    } else if events[0] is Row {
        run_collector(collected_after(rows, events[0]), events.drop_first())
    } else {
        collected_after(rows, events[0])
    }
}

/// A full-table read that starts with no rows and steps through the stream
/// until it is told to stop shows exactly the rows that come before the first
/// end or error of the stream, in stream order.
pub proof fn lemma_read_keeps_rows_before_stop(events: Seq<RowEvent>)
    ensures
        run_collector(Seq::empty(), events) == rows_before_stop(events),
{
    lemma_run_from(Seq::empty(), events);
    assert(Seq::<(Seq<char>, Seq<char>, i64)>::empty() + rows_before_stop(events) =~= rows_before_stop(events));
}

/// The rows a full-table read shows are the rows of the stream up to its
/// first end or error, each shown with its id as hyphenated text and its
/// name and 64-bit value exactly as the stream gave them, in stream order.
pub proof fn lemma_shown_rows_are_the_stream_rows(events: Seq<RowEvent>)
    ensures
        rows_before_stop(events).len() <= events.len(),
        forall|k: int|
            0 <= k < rows_before_stop(events).len() ==> (#[trigger] events[k] matches RowEvent::Row(
                id,
                name,
                value,
            ) && rows_before_stop(events)[k] == (hyphenated_text(id), name@, value.0)),
        rows_before_stop(events).len() < events.len() ==> !(events[rows_before_stop(
            events,
        ).len() as int] is Row),
    decreases events.len(),
{
    if events.len() > 0 {
        match events[0] {
            RowEvent::Row(id, name, value) => {
                let rest = events.drop_first();
                lemma_shown_rows_are_the_stream_rows(rest);
                let head = (hyphenated_text(id), name@, value.0);
                let shown = rows_before_stop(events);
                assert(shown == seq![head] + rows_before_stop(rest));
                assert forall|k: int| 0 <= k < shown.len() implies (#[trigger] events[k] matches RowEvent::Row(
                    id2,
                    name2,
                    value2,
                ) && shown[k] == (hyphenated_text(id2), name2@, value2.0)) by {
                    if k > 0 {
                        assert(events[k] == rest[k - 1]);
                        assert(shown[k] == rows_before_stop(rest)[k - 1]);
                    }
                }
                if shown.len() < events.len() {
                    assert(events[shown.len() as int] == rest[rows_before_stop(rest).len() as int]);
                }
            },
            _ => {},
        }
    }
}

proof fn lemma_run_from(rows: Seq<(Seq<char>, Seq<char>, i64)>, events: Seq<RowEvent>)
    ensures
        run_collector(rows, events) == rows + rows_before_stop(events),
    decreases events.len(),
{
    if events.len() == 0 {
        assert(rows + Seq::empty() =~= rows);
    } else {
        match events[0] {
            RowEvent::Row(id, name, value) => {
                let r = shown_row(id, name@, value);
                lemma_run_from(rows.push(r), events.drop_first());
                assert(rows.push(r) + rows_before_stop(events.drop_first()) =~= rows + (seq![r]
                    + rows_before_stop(events.drop_first())));
            },
            _ => {
                assert(rows + Seq::empty() =~= rows);
            },
        }
    }
}

/// What looking up the table's metadata gave.
pub enum MetadataLookup {
    /// Refreshing the cluster metadata failed, with this message.
    RefreshFailed(String),
    /// The keyspace is not known to the cluster.
    KeyspaceMissing,
    /// The keyspace has no such table.
    TableMissing,
    /// The table's metadata, printed.
    Found(String),
}

/// The text of the reply for a keyspace that the cluster does not know.
pub open spec fn keyspace_missing_text(keyspace: Seq<char>) -> Seq<char> {
    "Keyspace '"@ + keyspace + "' not found"@
}

/// The text of the reply for a table that the keyspace does not have.
pub open spec fn table_missing_text(keyspace: Seq<char>, table: Seq<char>) -> Seq<char> {
    "Table '"@ + table + "' not found in keyspace '"@ + keyspace + "'"@
}

fn keyspace_missing(keyspace: &str) -> (r: String)
    ensures
        r@ == keyspace_missing_text(keyspace@),
{
    let mut s = "Keyspace '".to_owned();
    s.append(keyspace);
    s.append("' not found");
    s
}

fn table_missing(keyspace: &str, table: &str) -> (r: String)
    ensures
        r@ == table_missing_text(keyspace@, table@),
{
    let mut s = "Table '".to_owned();
    s.append(table);
    s.append("' not found in keyspace '");
    s.append(keyspace);
    s.append("'");
    s
}

/// The reply of `/metadata` for the table `keyspace.table`: the printed
/// table metadata, or status 404 with the reason it could not be shown.
pub fn metadata_reply(keyspace: &str, table: &str, lookup: MetadataLookup) -> (r: Reply)
    ensures
        match lookup {
            MetadataLookup::RefreshFailed(e) => r@ == text_reply(
                404,
                "Failed to refresh metadata "@ + e@,
            ),
            MetadataLookup::KeyspaceMissing => r@ == text_reply(
                404,
                keyspace_missing_text(keyspace@),
            ),
            MetadataLookup::TableMissing => r@ == text_reply(
                404,
                table_missing_text(keyspace@, table@),
            ),
            MetadataLookup::Found(t) => r@ == text_reply(200, t@),
        },
{
    match lookup {
        MetadataLookup::RefreshFailed(e) => text(404, join("Failed to refresh metadata ", e.as_str())),
        MetadataLookup::KeyspaceMissing => text(404, keyspace_missing(keyspace)),
        MetadataLookup::TableMissing => text(404, table_missing(keyspace, table)),
        MetadataLookup::Found(t) => text(200, t),
    }
}

} // verus!
