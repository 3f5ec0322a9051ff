//! The endpoints over the `custom_texts` table: storing a text, reading all
//! texts, reading one page from a client-held paging state, reading every
//! page, and reading one token range.

use vstd::prelude::*;

use crate::handlers::{
    invalid_json, invalid_json_reply, join, opt_text, result_row_view, spec_setup,
    statement_setup, success, success_reply, text, text_reply, BodyView, Reply, ReplyBody,
    ReplyView, ResultRow, StatementSetup,
};
use crate::models::{CustomInsertRequest, PageRequest, TokenRangeRequest};
use crate::paging_state::{
    base64_standard_decoding, base64_standard_encoding, decode_standard, decoded_view,
    encode_standard, lemma_encoding_injective,
};
use crate::request::NodeAddress;
use crate::uuid_text::{hyphenated_text, uuid_to_string};

verus! {

/// The statement that stores a text under a fresh id.
pub open spec fn spec_custom_insert_cql() -> Seq<char> {
    "INSERT INTO demo.custom_texts (id, text) VALUES (uuid(), ?)"@
}

/// The statement that reads every stored text.
pub open spec fn spec_custom_select_cql() -> Seq<char> {
    "SELECT text FROM demo.custom_texts"@
}

/// The statement that reads the ids and texts whose token lies in a range.
pub open spec fn spec_token_range_cql() -> Seq<char> {
    "SELECT id, text FROM demo.custom_texts WHERE token(id) > ? AND token(id) <= ?"@
}

/// The page size of `/custom_query_paged` when its body cannot be read, and
/// of every page of `/custom_query_paged_all`.
pub open spec fn spec_default_page_size() -> i32 {
    10
}

/// A text write: statement, the text to bind and the statement setup.
#[derive(Debug)]
pub struct CustomWrite {
    pub cql: String,
    pub text: String,
    pub setup: StatementSetup,
}

/// Decides `/custom_insert` from the request options and the parsed body: on
/// a parsed body, store its text; on a parse error, answer 400 with the
/// parser's message.
pub fn plan_custom_insert(
    node: Option<NodeAddress>,
    debug: bool,
    parsed: Result<CustomInsertRequest, String>,
) -> (r: Result<CustomWrite, Reply>)
    ensures
        match parsed {
            Ok(req) => r matches Ok(w) && w.cql@ == spec_custom_insert_cql() && w.text@
                == req.text@ && w.setup == spec_setup(node, debug),
            Err(e) => r matches Err(reply) && reply@ == invalid_json_reply(e@),
        },
{
    match parsed {
        Ok(req) => Ok(
            CustomWrite {
                cql: "INSERT INTO demo.custom_texts (id, text) VALUES (uuid(), ?)".to_owned(),
                text: req.text,
                setup: statement_setup(node, debug),
            },
        ),
        Err(e) => Err(invalid_json(e.as_str())),
    }
}

/// The reply of `/custom_insert` once the statement has run: success, or
/// status 500 and `db error: <message>`.
pub fn custom_insert_reply(outcome: Result<(), String>) -> (r: Reply)
    ensures
        match outcome {
            Ok(()) => r@ == success_reply(),
            Err(e) => r@ == text_reply(500, "db error: "@ + e@),
        },
{
    match outcome {
        Ok(()) => success(),
        Err(e) => text(500, join("db error: ", e.as_str())),
    }
}

/// A read of the stored texts: statement text and setup.
#[derive(Debug)]
pub struct TextQuery {
    pub cql: String,
    pub setup: StatementSetup,
}

/// Decides `/custom_query`: read every stored text, pinned and recorded as
/// the request options say.
pub fn plan_custom_query(node: Option<NodeAddress>, debug: bool) -> (r: TextQuery)
    ensures
        r.cql@ == spec_custom_select_cql(),
        r.setup == spec_setup(node, debug),
{
    TextQuery { cql: select_cql(), setup: statement_setup(node, debug) }
}

fn select_cql() -> (r: String)
    ensures
        r@ == spec_custom_select_cql(),
{
    "SELECT text FROM demo.custom_texts".to_owned()
}

/// The rows shown for the rows of a read of texts, each given as its text or
/// as `None` when it could not be decoded: the decoded texts, in order.
pub open spec fn shown_texts(rows: Seq<Option<String>>) -> Seq<(Option<Seq<char>>, Seq<char>)>
    decreases rows.len(),
{
    if rows.len() == 0 {
        Seq::empty()
    } else {
        let before = shown_texts(rows.drop_last());
        match rows.last() {
            Some(t) => before.push((None, t@)),
            None => before,
        }
    }
}

/// The rows shown for the rows of a token-range read, each given as its id
/// and text or as `None` when it could not be decoded: the decoded rows, in
/// order, each id as hyphenated text.
pub open spec fn shown_id_texts(rows: Seq<Option<(u128, String)>>) -> Seq<
    (Option<Seq<char>>, Seq<char>),
>
    decreases rows.len(),
{
    if rows.len() == 0 {
        Seq::empty()
    } else {
        let before = shown_id_texts(rows.drop_last());
        match rows.last() {
            Some(row) => before.push((Some(hyphenated_text(row.0)), row.1@)),
            None => before,
        }
    }
}

/// Whether a row of a read was decoded.
pub open spec fn is_decoded<T>(row: Option<T>) -> bool {
    row is Some
}

/// The texts a read of texts shows are the texts of its decoded rows, one
/// per decoded row, in row order, repeats included; undecoded rows are left
/// out.
pub proof fn lemma_shown_texts_are_the_decoded_rows(rows: Seq<Option<String>>)
    ensures
        shown_texts(rows) == rows.filter(|r: Option<String>| is_decoded(r)).map_values(
            |r: Option<String>| (None::<Seq<char>>, r->Some_0@),
        ),
    decreases rows.len(),
{
    let f = |r: Option<String>| is_decoded(r);
    let g = |r: Option<String>| (None::<Seq<char>>, r->Some_0@);
    reveal(Seq::filter);
    if rows.len() == 0 {
        assert(rows.filter(f).map_values(g) =~= Seq::empty());
    } else {
        lemma_shown_texts_are_the_decoded_rows(rows.drop_last());
        let kept = rows.drop_last().filter(f);
        if f(rows.last()) {
            assert(rows.filter(f) == kept.push(rows.last()));
            assert(kept.push(rows.last()).map_values(g) =~= kept.map_values(g).push(g(rows.last())));
        } else {
            assert(rows.filter(f) == kept);
        }
    }
}

/// The rows a token-range read shows are its decoded rows, one per decoded
/// row, in row order, the page's last row included; each shows its id as
/// hyphenated text and its text.
pub proof fn lemma_shown_id_texts_are_the_decoded_rows(rows: Seq<Option<(u128, String)>>)
    ensures
        shown_id_texts(rows) == rows.filter(|r: Option<(u128, String)>| is_decoded(r)).map_values(
            |r: Option<(u128, String)>| (Some(hyphenated_text(r->Some_0.0)), r->Some_0.1@),
        ),
    decreases rows.len(),
{
    let f = |r: Option<(u128, String)>| is_decoded(r);
    let g = |r: Option<(u128, String)>| (Some(hyphenated_text(r->Some_0.0)), r->Some_0.1@);
    reveal(Seq::filter);
    if rows.len() == 0 {
        assert(rows.filter(f).map_values(g) =~= Seq::empty());
    } else {
        lemma_shown_id_texts_are_the_decoded_rows(rows.drop_last());
        let kept = rows.drop_last().filter(f);
        if f(rows.last()) {
            assert(rows.filter(f) == kept.push(rows.last()));
            assert(kept.push(rows.last()).map_values(g) =~= kept.map_values(g).push(g(rows.last())));
        } else {
            assert(rows.filter(f) == kept);
        }
    }
}

/// Result rows taken by value.
pub open spec fn rows_view(rows: Seq<ResultRow>) -> Seq<(Option<Seq<char>>, Seq<char>)> {
    rows.map_values(|r: ResultRow| result_row_view(r))
}

fn text_rows(rows: &Vec<Option<String>>) -> (r: Vec<ResultRow>)
    ensures
        rows_view(r@) == shown_texts(rows@),
{
    let mut out: Vec<ResultRow> = Vec::new();
    let mut i: usize = 0;
    while i < rows.len()
        invariant
            0 <= i <= rows.len(),
            rows_view(out@) == shown_texts(rows@.subrange(0, i as int)),
        decreases rows.len() - i,
    {
        let ghost before = out@;
        assert(rows@.subrange(0, i + 1).drop_last() =~= rows@.subrange(0, i as int));
        assert(rows@.subrange(0, i + 1).last() == rows@[i as int]);
        match &rows[i] {
            Some(t) => {
                let row = ResultRow { id: None, text: t.clone() };
                out.push(row);
                assert(rows_view(out@) =~= rows_view(before).push(result_row_view(row)));
            },
            None => {},
        }
        i = i + 1;
    }
    assert(rows@.subrange(0, rows@.len() as int) =~= rows@);
    out
}

fn id_text_rows(rows: &Vec<Option<(u128, String)>>) -> (r: Vec<ResultRow>)
    ensures
        rows_view(r@) == shown_id_texts(rows@),
{
    let mut out: Vec<ResultRow> = Vec::new();
    let mut i: usize = 0;
    while i < rows.len()
        invariant
            0 <= i <= rows.len(),
            rows_view(out@) == shown_id_texts(rows@.subrange(0, i as int)),
        decreases rows.len() - i,
    {
        let ghost before = out@;
        assert(rows@.subrange(0, i + 1).drop_last() =~= rows@.subrange(0, i as int));
        assert(rows@.subrange(0, i + 1).last() == rows@[i as int]);
        match &rows[i] {
            Some(row) => {
                let shown = ResultRow { id: Some(uuid_to_string(row.0)), text: row.1.clone() };
                out.push(shown);
                assert(rows_view(out@) =~= rows_view(before).push(result_row_view(shown)));
            },
            None => {},
        }
        i = i + 1;
    }
    assert(rows@.subrange(0, rows@.len() as int) =~= rows@);
    out
}

/// The reply of `/custom_query`: status 200 and `{"results": [...]}` with
/// every decoded text, in order.
pub fn custom_query_reply(rows: Vec<Option<String>>) -> (r: Reply)
    ensures
        r@ == (ReplyView { status: 200, body: BodyView::Results(shown_texts(rows@), None) }),
{
    let shown = text_rows(&rows);
    Reply { status: 200, body: ReplyBody::Results { rows: shown, next_paging_state: None } }
}

/// The reply when the read of every stored text failed: status 500 and
/// `query error: <message>`.
pub fn custom_query_error_reply(detail: &str) -> (r: Reply)
    ensures
        r@ == text_reply(500, "query error: "@ + detail@),
{
    text(500, join("query error: ", detail))
}

/// The reply when a page could not be read: status 500 and
/// `Paging error: <message>`.
pub fn paging_error_reply(detail: &str) -> (r: Reply)
    ensures
        r@ == text_reply(500, "Paging error: "@ + detail@),
{
    text(500, join("Paging error: ", detail))
}

/// Optional bytes taken by value.
pub open spec fn opt_bytes(b: Option<Vec<u8>>) -> Option<Seq<u8>> {
    match b {
        Some(v) => Some(v@),
        None => None,
    }
}

/// Optional bytes of at most `isize::MAX` bytes, the most that memory holds.
pub open spec fn fits_memory(b: Option<Vec<u8>>) -> bool {
    match b {
        Some(v) => v@.len() <= isize::MAX,
        None => true,
    }
}

/// The `next_paging_state` shown for the state the read ended in: its bytes
/// as standard base64 text, or null when there is no further page.
pub open spec fn shown_next_state(next: Option<Seq<u8>>) -> Option<Seq<char>> {
    match next {
        Some(b) => Some(base64_standard_encoding(b)),
        None => None,
    }
}

fn next_state_text(next: &Option<Vec<u8>>) -> (r: Option<String>)
    requires
        fits_memory(*next),
    ensures
        opt_text(r) == shown_next_state(opt_bytes(*next)),
{
    match next {
        Some(b) => Some(encode_standard(b.as_slice())),
        None => None,
    }
}

/// The reply of `/custom_query_paged`: status 200, the decoded texts of the
/// page in order, and the paging state to continue from (base64) or null
/// when the page was the last.
pub fn page_reply(rows: Vec<Option<String>>, next: Option<Vec<u8>>) -> (r: Reply)
    requires
        fits_memory(next),
    ensures
        r@ == (ReplyView {
            status: 200,
            body: BodyView::Results(shown_texts(rows@), Some(shown_next_state(opt_bytes(next)))),
        }),
{
    let shown = text_rows(&rows);
    let state = next_state_text(&next);
    Reply { status: 200, body: ReplyBody::Results { rows: shown, next_paging_state: Some(state) } }
}

/// The reply of `/custom_query_token_range`: status 200, the decoded rows of
/// the page in order, each with its id, and the paging state to continue
/// from (base64) or null when the page was the last.
pub fn token_range_reply(rows: Vec<Option<(u128, String)>>, next: Option<Vec<u8>>) -> (r: Reply)
    requires
        fits_memory(next),
    ensures
        r@ == (ReplyView {
            status: 200,
            body: BodyView::Results(
                shown_id_texts(rows@),
                Some(shown_next_state(opt_bytes(next))),
            ),
        }),
{
    let shown = id_text_rows(&rows);
    let state = next_state_text(&next);
    Reply { status: 200, body: ReplyBody::Results { rows: shown, next_paging_state: Some(state) } }
}

/// A single-page read: statement text, page size (the driver's default when
/// none), the paging state to start from (the first page when none) and the
/// statement setup.
#[derive(Debug)]
pub struct PagePlan {
    pub cql: String,
    pub page_size: Option<i32>,
    pub paging_state: Option<Vec<u8>>,
    pub setup: StatementSetup,
}

/// The page request that `/custom_query_paged` goes by: the parsed body, or
/// no paging state and 10 rows a page when the body could not be read.
pub open spec fn effective_page_request(parsed: Option<PageRequest>) -> (
    Option<Seq<char>>,
    Option<i32>,
) {
    match parsed {
        Some(p) => (opt_text(p.paging_state), p.page_size),
        None => (None, Some(spec_default_page_size())),
    }
}

/// The paging state a single-page read starts from, for the paging-state
/// text the client sent: the bytes that text decodes to as base64, and the
/// first page (`None`) when there is no text or it is not base64.
pub open spec fn start_state(text: Option<Seq<char>>) -> Option<Seq<u8>> {
    match text {
        Some(t) => match base64_standard_decoding(t) {
            Ok(bytes) => Some(bytes),
            Err(_) => None,
        },
        None => None,
    }
}

/// The page a single-page read starts from depends only on the paging-state
/// text the client sent, never on the page size it asked for: two bodies
/// with the same paging-state text start from the same state, and a text
/// that is the base64 of some bytes starts from those bytes.
pub proof fn lemma_start_state_ignores_page_size(p: PageRequest, q: PageRequest, b: Seq<u8>)
    requires
        opt_text(p.paging_state) == opt_text(q.paging_state),
    ensures
        effective_page_request(Some(p)).0 == effective_page_request(Some(q)).0,
        effective_page_request(Some(p)).1 == p.page_size,
        opt_text(p.paging_state) == Some(base64_standard_encoding(b)) ==> effective_page_request(
            Some(p),
        ).0 == Some(base64_standard_encoding(b)),
{
}

/// Decides `/custom_query_paged` from the request options and the body (or
/// `None` when the body could not be read): read one page of texts of the
/// requested size, from the first page or from the paging state that the
/// client sent back; a paging state that is not base64 is passed over and
/// the first page is read.
pub fn plan_custom_query_paged(node: Option<NodeAddress>, debug: bool, parsed: Option<PageRequest>) -> (r:
    PagePlan)
    ensures
        r.cql@ == spec_custom_select_cql(),
        r.page_size == effective_page_request(parsed).1,
        opt_bytes(r.paging_state) == start_state(effective_page_request(parsed).0),
        forall|b: Seq<u8>|
            effective_page_request(parsed).0 == Some(#[trigger] base64_standard_encoding(b))
                ==> opt_bytes(r.paging_state) == Some(b),
        forall|b: Seq<u8>|
            parsed matches Some(p) && p.paging_state matches Some(t) && t@
                == #[trigger] base64_standard_encoding(b) ==> opt_bytes(r.paging_state) == Some(b),
        parsed matches Some(p) ==> r.page_size == p.page_size,
        parsed is None ==> r.page_size == Some(10i32) && r.paging_state is None,
        parsed matches Some(p) && p.paging_state is None ==> r.paging_state is None,
        r.setup == spec_setup(node, debug),
{
    let (state_text, page_size) = match parsed {
        Some(p) => (p.paging_state, p.page_size),
        None => (None, Some(10i32)),
    };
    let paging_state = match state_text {
        Some(t) => {
            let decoded = decode_standard(t.as_str());
            proof {
                assert forall|b: Seq<u8>|
                    t@ == #[trigger] base64_standard_encoding(b) implies decoded matches Ok(d) && d@
                    == b by {
                    if let Ok(d) = decoded {
                        lemma_encoding_injective(d@, b);
                    }
                }
            }
            paging_state_from_decoded(decoded)
        },
        None => None,
    };
    PagePlan { cql: select_cql(), page_size, paging_state, setup: statement_setup(node, debug) }
}

/// The paging state to start from for the outcome of decoding the client's
/// paging-state text: the decoded bytes, or the first page (`None`) when the
/// text was not base64.
pub fn paging_state_from_decoded(decoded: Result<Vec<u8>, String>) -> (r: Option<Vec<u8>>)
    ensures
        opt_bytes(r) == match decoded_view(decoded) {
            Ok(bytes) => Some(bytes),
            Err(_) => None,
        },
{
    match decoded {
        Ok(bytes) => Some(bytes),
        Err(_) => None,
    }
}

/// Decides `/custom_query_paged_all`: read every page of texts, 10 rows a
/// page, from the first page on.
pub fn plan_custom_query_paged_all(node: Option<NodeAddress>, debug: bool) -> (r: PagePlan)
    ensures
        r.cql@ == spec_custom_select_cql(),
        r.page_size == Some(spec_default_page_size()),
        r.paging_state is None,
        r.setup == spec_setup(node, debug),
{
    PagePlan {
        cql: select_cql(),
        page_size: Some(10),
        paging_state: None,
        setup: statement_setup(node, debug),
    }
}

/// The texts collected so far by a read of every page.
pub struct PageCollector {
    rows: Vec<ResultRow>,
}

impl View for PageCollector {
    type V = Seq<(Option<Seq<char>>, Seq<char>)>;

    closed spec fn view(&self) -> Seq<(Option<Seq<char>>, Seq<char>)> {
        rows_view(self.rows@)
    }
}

impl PageCollector {
    /// No texts collected yet.
    pub fn new() -> (r: Self)
        ensures
            r@ == Seq::<(Option<Seq<char>>, Seq<char>)>::empty(),
    {
        let r = PageCollector { rows: Vec::new() };
        assert(r@ =~= Seq::<(Option<Seq<char>>, Seq<char>)>::empty());
        r
    }

    /// Adds the decoded texts of one more page after those collected so far.
    pub fn add_page(&mut self, rows: Vec<Option<String>>)
        ensures
            final(self)@ == old(self)@ + shown_texts(rows@),
    {
        let page = text_rows(&rows);
        let ghost before = self.rows@;
        let mut page = page;
        self.rows.append(&mut page);
        assert(rows_view(self.rows@) =~= rows_view(before) + shown_texts(rows@));
    }

    /// The reply once the last page has been read: status 200 and
    /// `{"results": [...]}` with every collected text, page after page.
    pub fn into_reply(self) -> (r: Reply)
        ensures
            r@ == (ReplyView { status: 200, body: BodyView::Results(self@, None) }),
    {
        Reply { status: 200, body: ReplyBody::Results { rows: self.rows, next_paging_state: None } }
    }
}

/// The outcome of reading one page: its rows (each `None` when it could not
/// be decoded) and whether a further page follows, or the error message.
pub type PageOutcome = Result<(Vec<Option<String>>, bool), String>;

/// A page outcome taken by value.
pub open spec fn page_outcome_view(o: PageOutcome) -> Result<(Seq<Option<String>>, bool), Seq<char>> {
    match o {
        Ok((rows, more)) => Ok((rows@, more)),
        Err(e) => Err(e@),
    }
}

/// What a read of every page does once a page has been read.
pub enum PagedAllStep {
    /// Read the next page, with these texts collected.
    Continue(PageCollector),
    /// Answer with this reply.
    Done(Reply),
}

/// The reply of a read of every page that has collected `collected` and
/// then reads pages with these outcomes, in order: a failed page ends it with
/// status 500 and `Paging error: <message>`; the last page ends it with
/// status 200 and every collected text; `None` while pages remain to read.
pub open spec fn paged_all_reply(
    collected: Seq<(Option<Seq<char>>, Seq<char>)>,
    pages: Seq<Result<(Seq<Option<String>>, bool), Seq<char>>>,
) -> Option<ReplyView>
    decreases pages.len(),
{
    if pages.len() == 0 {
        None
    } else {
        match pages[0] {
            Err(e) => Some(text_reply(500, "Paging error: "@ + e)),
            Ok((rows, more)) => if more {
                paged_all_reply(collected + shown_texts(rows), pages.drop_first())
            } else {
                Some(
                    ReplyView {
                        status: 200,
                        body: BodyView::Results(collected + shown_texts(rows), None),
                    },
                )
            },
        }
    }
}

impl PageCollector {
    /// Takes the outcome of reading one page: a failed page ends the read
    /// with status 500 and `Paging error: <message>`; otherwise its decoded
    /// texts are added after those collected so far, and the read goes on
    /// when a further page follows, or ends with status 200 and every
    /// collected text.
    pub fn take_page(self, page: PageOutcome) -> (r: PagedAllStep)
        ensures
            match page {
                Err(e) => r matches PagedAllStep::Done(rep) && rep@ == text_reply(
                    500,
                    "Paging error: "@ + e@,
                ),
                Ok((rows, more)) => if more {
                    r matches PagedAllStep::Continue(c) && c@ == self@ + shown_texts(rows@)
                } else {
                    r matches PagedAllStep::Done(rep) && rep@ == (ReplyView {
                        status: 200,
                        body: BodyView::Results(self@ + shown_texts(rows@), None),
                    })
                },
            },
    {
        match page {
            Err(e) => PagedAllStep::Done(paging_error_reply(e.as_str())),
            Ok((rows, more)) => {
                let mut c = self;
                c.add_page(rows);
                if more {
                    PagedAllStep::Continue(c)
                } else {
                    PagedAllStep::Done(c.into_reply())
                }
            },
        }
    }
}

/// The decoded texts of a run of pages, page after page.
pub open spec fn texts_of_pages(pages: Seq<Seq<Option<String>>>) -> Seq<(Option<Seq<char>>, Seq<char>)>
    decreases pages.len(),
{
    if pages.len() == 0 {
        Seq::empty()
    } else {
        shown_texts(pages[0]) + texts_of_pages(pages.drop_first())
    }
}

/// The outcomes of reading a run of pages that all succeed: every page but
/// the last says that a further page follows.
pub open spec fn pages_read(pages: Seq<Seq<Option<String>>>) -> Seq<
    Result<(Seq<Option<String>>, bool), Seq<char>>,
> {
    Seq::new(pages.len(), |i: int| Ok((pages[i], i < pages.len() - 1)))
}

/// When every page reads, a read of every page answers with status 200 and
/// the decoded texts of all pages, page after page.
pub proof fn lemma_paged_all_shows_every_page(pages: Seq<Seq<Option<String>>>)
    requires
        pages.len() > 0,
    ensures
        paged_all_reply(Seq::empty(), pages_read(pages)) == Some(
            ReplyView { status: 200, body: BodyView::Results(texts_of_pages(pages), None) },
        ),
{
    lemma_paged_all_from(Seq::empty(), pages);
    assert(Seq::<(Option<Seq<char>>, Seq<char>)>::empty() + texts_of_pages(pages) =~= texts_of_pages(pages));
}

proof fn lemma_paged_all_from(
    collected: Seq<(Option<Seq<char>>, Seq<char>)>,
    pages: Seq<Seq<Option<String>>>,
)
    requires
        pages.len() > 0,
    ensures
        paged_all_reply(collected, pages_read(pages)) == Some(
            ReplyView {
                status: 200,
                body: BodyView::Results(collected + texts_of_pages(pages), None),
            },
        ),
    decreases pages.len(),
{
    let run = pages_read(pages);
    assert(run[0] == Ok::<(Seq<Option<String>>, bool), Seq<char>>((pages[0], pages.len() > 1)));
    if pages.len() == 1 {
        assert(pages.drop_first() =~= Seq::<Seq<Option<String>>>::empty());
        assert(texts_of_pages(pages.drop_first()) =~= Seq::<(Option<Seq<char>>, Seq<char>)>::empty());
        assert(collected + shown_texts(pages[0]) =~= collected + texts_of_pages(pages));
    } else {
        assert(run.drop_first() =~= pages_read(pages.drop_first()));
        lemma_paged_all_from(collected + shown_texts(pages[0]), pages.drop_first());
        assert(collected + shown_texts(pages[0]) + texts_of_pages(pages.drop_first()) =~= collected
            + texts_of_pages(pages));
    }
}

/// A token-range read: statement text, the range bounds to bind, page size
/// and setup. It is never pinned to a node.
#[derive(Debug)]
pub struct TokenRangePlan {
    pub cql: String,
    pub start_token: i64,
    pub end_token: i64,
    pub page_size: Option<i32>,
    pub setup: StatementSetup,
}

/// Decides `/custom_query_token_range` from the debug option and the parsed
/// body: read the first page of ids and texts whose token lies in
/// `(start_token, end_token]`, of the requested size, sent where the default
/// policy chooses; on a parse error, answer 400 with the parser's message.
pub fn plan_token_range(debug: bool, parsed: Result<TokenRangeRequest, String>) -> (r: Result<
    TokenRangePlan,
    Reply,
>)
    ensures
        match parsed {
            Ok(req) => r matches Ok(p) && p.cql@ == spec_token_range_cql() && p.start_token
                == req.start_token && p.end_token == req.end_token && p.page_size
                == req.page_size && p.setup == spec_setup(None, debug),
            Err(e) => r matches Err(reply) && reply@ == invalid_json_reply(e@),
        },
{
    match parsed {
        Ok(req) => Ok(
            TokenRangePlan {
                cql: "SELECT id, text FROM demo.custom_texts WHERE token(id) > ? AND token(id) <= ?".to_owned(),
                start_token: req.start_token,
                end_token: req.end_token,
                page_size: req.page_size,
                setup: statement_setup(None, debug),
            },
        ),
        Err(e) => Err(invalid_json(e.as_str())),
    }
}

} // verus!
