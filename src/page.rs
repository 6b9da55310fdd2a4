//! Reading one page of the collection, and walking the pages to the end.
use vstd::prelude::*;
use crate::error::FdwError;
use crate::json::{Json, JsonView, member, member_of, take_member, parse_json, json_decode};

verus! {

/// The top-level field that holds a page's records.
pub open spec fn records_field() -> Seq<char> {
    "customers"@
}

/// The top-level field that holds the continuation cursor.
pub open spec fn cursor_field() -> Seq<char> {
    "cursor"@
}

/// What is put between the collection's URL and a cursor.
pub open spec fn cursor_query() -> Seq<char> {
    "?cursor="@
}

/// Why a page was refused.
pub enum PageFault {
    Status(u16),
    Parse,
    Schema,
}

/// The model of a [`Page`].
pub struct PageView {
    pub records: Seq<JsonView>,
    pub next_cursor: Option<Seq<char>>,
}

/// The records of a response document: its records field, when that is an array.
pub open spec fn page_records(doc: JsonView) -> Option<Seq<JsonView>> {
    match member_of(doc, records_field()) {
        Some(JsonView::Array(items)) => Some(items),
        _ => None,
    }
}

/// The continuation cursor of a response document: its cursor field, when
/// that is a string; any other value ends the walk.
pub open spec fn page_cursor(doc: JsonView) -> Option<Seq<char>> {
    match member_of(doc, cursor_field()) {
        Some(JsonView::Str(c)) => Some(c),
        _ => None,
    }
}

/// What one response makes of a page.
pub open spec fn page_outcome(status: u16, body: Seq<char>) -> Result<PageView, PageFault> {
    if status != 200 {
        Err(PageFault::Status(status))
    } else {
        match json_decode(body) {
            None => Err(PageFault::Parse),
            Some(doc) => match page_records(doc) {
                None => Err(PageFault::Schema),
                Some(items) => Ok(PageView { records: items, next_cursor: page_cursor(doc) }),
            },
        }
    }
}

/// The error that reports a refused page.
pub open spec fn reports(e: FdwError, f: PageFault) -> bool {
    match f {
        PageFault::Status(code) => e == FdwError::HttpStatus { code },
        PageFault::Parse => e is Parse,
        PageFault::Schema => e matches FdwError::Schema { field } && field@ == records_field(),
    }
}

/// The models of a sequence of values.
pub open spec fn views_of(items: Seq<Json>) -> Seq<JsonView> {
    items.map_values(|x: Json| x@)
}

/// The model of an optional string.
pub open spec fn opt_view(s: Option<String>) -> Option<Seq<char>> {
    match s {
        Some(c) => Some(c@),
        None => None,
    }
}

/// One page of the collection.
pub struct Page {
    pub records: Vec<Json>,
    pub next_cursor: Option<String>,
}

impl Page {
    pub open spec fn view(&self) -> PageView {
        PageView { records: views_of(self.records@), next_cursor: opt_view(self.next_cursor) }
    }
}

/// Reads one response: a status other than 200, a body that is not JSON and
/// a document without the records array are refused, in that order.
pub fn read_page(status: u16, body: &str) -> (r: Result<Page, FdwError>)
    ensures
        match r {
            Ok(p) => page_outcome(status, body@) == Ok::<PageView, PageFault>(p@),
            Err(e) => page_outcome(status, body@) matches Err(f) && reports(e, f),
        },
{
    if status != 200 {
        return Err(FdwError::HttpStatus { code: status });
    }
    let doc = match parse_json(body) {
        Ok(doc) => doc,
        Err(message) => return Err(FdwError::Parse { message }),
    };
    let ghost d = doc@;
    let cursor_name = String::from_str("cursor");
    let next_cursor = match member(&doc, &cursor_name) {
        Some(Json::Str(c)) => Some(c.clone()),
        _ => None,
    };
    let records_name = String::from_str("customers");
    match take_member(doc, &records_name) {
        Some(Json::Array(items)) => {
            let page = Page { records: items, next_cursor };
            assert(views_of(items@) =~= page_records(d)->0);
            Ok(page)
        },
        _ => Err(FdwError::Schema { field: records_name }),
    }
}

/// The model of a [`Paginator`].
pub struct PaginatorView {
    pub url: Seq<char>,
    pub cursor: Option<Seq<char>>,
    pub records: Seq<JsonView>,
    pub done: bool,
}

/// A walk over the collection at `url`, before its first page.
pub open spec fn walk_start(url: Seq<char>) -> PaginatorView {
    PaginatorView { url, cursor: None, records: Seq::empty(), done: false }
}

/// The URL of the next page: the collection's URL, with the cursor appended
/// as a query parameter when there is one.
pub open spec fn request_url(p: PaginatorView) -> Seq<char> {
    match p.cursor {
        Some(c) => p.url + cursor_query() + c,
        None => p.url,
    }
}

/// One response taken into the walk: its records are appended, its cursor
/// replaces the last one, and the walk ends when it carries none.
pub open spec fn walk_step(p: PaginatorView, status: u16, body: Seq<char>) -> Result<
    PaginatorView,
    PageFault,
> {
    match page_outcome(status, body) {
        Err(f) => Err(f),
        Ok(page) => Ok(
            PaginatorView {
                url: p.url,
                cursor: page.next_cursor,
                records: p.records + page.records,
                done: page.next_cursor is None,
            },
        ),
    }
}

/// Responses taken into the walk one after the other; the first refused page
/// ends it.
pub open spec fn walk(p: PaginatorView, responses: Seq<(u16, Seq<char>)>) -> Result<
    PaginatorView,
    PageFault,
>
    decreases responses.len(),
{
    if responses.len() == 0 {
        Ok(p)
    } else {
        match walk(p, responses.drop_last()) {
            Err(f) => Err(f),
            Ok(q) => walk_step(q, responses.last().0, responses.last().1),
        }
    }
}

/// The pagination driver: it gathers the records of every page, following
/// the continuation cursor until a page carries none.
pub struct Paginator {
    url: String,
    cursor: Option<String>,
    records: Vec<Json>,
    done: bool,
}

impl Paginator {
    pub closed spec fn view(&self) -> PaginatorView {
        PaginatorView {
            url: self.url@,
            cursor: opt_view(self.cursor),
            records: views_of(self.records@),
            done: self.done,
        }
    }

    /// A walk over the collection at `url`.
    pub fn new(url: String) -> (r: Self)
        ensures
            r@ == walk_start(url@),
    {
        let r = Paginator { url, cursor: None, records: Vec::new(), done: false };
        assert(views_of(r.records@) =~= Seq::empty());
        r
    }

    /// Whether the last page carried no cursor.
    pub fn is_done(&self) -> (r: bool)
        ensures
            r == self@.done,
    {
        self.done
    }

    /// How many records have been gathered so far.
    pub fn record_count(&self) -> (r: usize)
        ensures
            r == self@.records.len(),
    {
        self.records.len()
    }

    /// The URL to request next.
    pub fn next_url(&self) -> (r: String)
        ensures
            r@ == request_url(self@),
    {
        match &self.cursor {
            Some(c) => {
                let mut u = self.url.clone();
                u.append("?cursor=");
                u.append(c.as_str());
                u
            },
            None => self.url.clone(),
        }
    }

    /// Takes the response to the last request into the walk. A refused page
    /// leaves the walk as it was.
    pub fn accept(&mut self, status: u16, body: &str) -> (r: Result<(), FdwError>)
        ensures
            match r {
                Ok(()) => walk_step(old(self)@, status, body@) == Ok::<PaginatorView, PageFault>(
                    final(self)@,
                ),
                Err(e) => walk_step(old(self)@, status, body@) matches Err(f) && reports(e, f)
                    && final(self)@ == old(self)@,
            },
    {
        let page = read_page(status, body);
        match page {
            Ok(page) => {
                let Page { records: mut items, next_cursor } = page;
                let ghost before = self.records@;
                let ghost added = items@;
                self.records.append(&mut items);
                assert(views_of(self.records@) =~= views_of(before) + views_of(added));
                self.done = next_cursor.is_none();
                self.cursor = next_cursor;
                Ok(())
            },
            Err(e) => Err(e),
        }
    }

    /// The records gathered so far, in the order of the pages.
    pub fn into_records(self) -> (r: Vec<Json>)
        ensures
            views_of(r@) == self@.records,
    {
        self.records
    }
}

/// Whether a body is a page: JSON whose records field is an array.
pub open spec fn is_page(body: Seq<char>) -> bool {
    json_decode(body) matches Some(doc) && page_records(doc) is Some
}

/// The records of a page body.
pub open spec fn body_records(body: Seq<char>) -> Seq<JsonView> {
    page_records(json_decode(body)->0)->0
}

/// The continuation cursor of a page body.
pub open spec fn body_cursor(body: Seq<char>) -> Option<Seq<char>> {
    page_cursor(json_decode(body)->0)
}

/// The records of the pages, one page after the other.
pub open spec fn concat_records(bodies: Seq<Seq<char>>) -> Seq<JsonView>
    decreases bodies.len(),
{
    if bodies.len() == 0 {
        Seq::empty()
    } else {
        concat_records(bodies.drop_last()) + body_records(bodies.last())
    }
}

/// The bodies, each answered with status 200.
pub open spec fn ok_responses(bodies: Seq<Seq<char>>) -> Seq<(u16, Seq<char>)> {
    bodies.map_values(|b: Seq<char>| (200u16, b))
}

/// A first page answered with status 200, whose records field is an array and
/// whose cursor is null, ends the walk after that one page, with exactly that
/// array gathered.
pub proof fn lemma_single_page(url: Seq<char>, body: Seq<char>, items: Seq<JsonView>)
    requires
        json_decode(body) matches Some(doc) && member_of(doc, records_field()) == Some(
            JsonView::Array(items),
        ) && member_of(doc, cursor_field()) == Some(JsonView::Null),
    ensures
        walk_step(walk_start(url), 200, body) == Ok::<PaginatorView, PageFault>(
            PaginatorView { url, cursor: None, records: items, done: true },
        ),
{
    assert(Seq::<JsonView>::empty() + items =~= items);
}

proof fn lemma_walk_prefix(url: Seq<char>, bodies: Seq<Seq<char>>, k: int)
    requires
        1 <= k <= bodies.len(),
        forall|i: int| 0 <= i < bodies.len() ==> is_page(#[trigger] bodies[i]),
    ensures
        walk(walk_start(url), ok_responses(bodies.take(k))) == Ok::<PaginatorView, PageFault>(
            PaginatorView {
                url,
                cursor: body_cursor(bodies[k - 1]),
                records: concat_records(bodies.take(k)),
                done: body_cursor(bodies[k - 1]) is None,
            },
        ),
    decreases k,
{
    let rs = ok_responses(bodies.take(k));
    assert(rs.drop_last() =~= ok_responses(bodies.take(k - 1)));
    assert(bodies.take(k).drop_last() =~= bodies.take(k - 1));
    assert(rs.last() == (200u16, bodies[k - 1]));
    assert(is_page(bodies[k - 1]));
    if k == 1 {
        assert(bodies.take(0) =~= Seq::<Seq<char>>::empty());
        assert(ok_responses(bodies.take(0)) =~= Seq::<(u16, Seq<char>)>::empty());
        assert(Seq::<JsonView>::empty() + body_records(bodies[0]) =~= body_records(bodies[0]));
    } else {
        lemma_walk_prefix(url, bodies, k - 1);
    }
}

/// Pages answered with status 200, each but the last carrying a cursor: the
/// walk goes on after each of the first N pages and ends with the last, so
/// N continuation pages take N+1 requests; the records gathered are those of
/// all pages, concatenated in request order.
pub proof fn lemma_pages_concatenate(url: Seq<char>, bodies: Seq<Seq<char>>)
    requires
        bodies.len() > 0,
        forall|i: int| 0 <= i < bodies.len() ==> is_page(#[trigger] bodies[i]),
        forall|i: int| 0 <= i < bodies.len() - 1 ==> #[trigger] body_cursor(bodies[i]) is Some,
        body_cursor(bodies.last()) is None,
    ensures
        walk(walk_start(url), ok_responses(bodies)) == Ok::<PaginatorView, PageFault>(
            PaginatorView { url, cursor: None, records: concat_records(bodies), done: true },
        ),
        forall|k: int|
            1 <= k < bodies.len() ==> (#[trigger] walk(
                walk_start(url),
                ok_responses(bodies.take(k)),
            ) matches Ok(p) && !p.done),
{
    lemma_walk_prefix(url, bodies, bodies.len() as int);
    assert(bodies.take(bodies.len() as int) =~= bodies);
    assert forall|k: int| 1 <= k < bodies.len() implies #[trigger] walk(
        walk_start(url),
        ok_responses(bodies.take(k)),
    ) matches Ok(p) && !p.done by {
        lemma_walk_prefix(url, bodies, k);
        assert(body_cursor(bodies[k - 1]) is Some);
    }
}

} // verus!
