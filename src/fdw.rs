//! The adapter's scan lifecycle: configuration, fetching, row iteration.
use vstd::prelude::*;
use crate::error::{FdwError, Operation, ProjectionFault};
use crate::json::{Json, JsonView};
use crate::page::{Paginator, PaginatorView, opt_view, reports, request_url, views_of, walk_start, walk_step};
use crate::projection::{Cell, CellView, Column, ColumnView, MissingField, cell_views, column_views, project, reports_projection, row_spec};

verus! {

/// The collection endpoint used when no `base_url` option is given.
pub open spec fn default_base_url() -> Seq<char> {
    "https://connect.squareup.com/v2/customers"@
}

/// The value of the first option named `key`, from position `i` on.
pub open spec fn option_from(opts: Seq<(Seq<char>, Seq<char>)>, key: Seq<char>, i: int) -> Option<
    Seq<char>,
>
    decreases opts.len() - i,
{
    if i < 0 || i >= opts.len() {
        None
    } else if opts[i].0 == key {
        Some(opts[i].1)
    } else {
        option_from(opts, key, i + 1)
    }
}

/// The models of a list of options, as name and value.
pub open spec fn options_view(opts: Seq<(String, String)>) -> Seq<(Seq<char>, Seq<char>)> {
    opts.map_values(|o: (String, String)| (o.0@, o.1@))
}

/// The value of the option named `key`: the first one of that name.
pub open spec fn option_of(opts: Seq<(String, String)>, key: Seq<char>) -> Option<Seq<char>> {
    option_from(options_view(opts), key, 0)
}

/// Looks an option up by name.
pub fn option_value(opts: &Vec<(String, String)>, key: &str) -> (r: Option<String>)
    ensures
        opt_view(r) == option_of(opts@, key@),
{
    let name = String::from_str(key);
    let ghost os = options_view(opts@);
    let mut i: usize = 0;
    while i < opts.len()
        invariant
            i <= opts@.len(),
            os == options_view(opts@),
            name@ == key@,
            option_of(opts@, key@) == option_from(os, key@, i as int),
        decreases opts.len() - i,
    {
        assert(os[i as int] == (opts@[i as int].0@, opts@[i as int].1@));
        if opts[i].0 == name {
            return Some(opts[i].1.clone());
        }
        i = i + 1;
    }
    None
}

/// The missing-field policy that the table options ask for: `Null` cells
/// only where `missing_fields` is `null`.
pub open spec fn missing_policy(opts: Seq<(String, String)>) -> MissingField {
    if option_of(opts, "missing_fields"@) == Some("null"@) {
        MissingField::Null
    } else {
        MissingField::Error
    }
}

/// A GET request for one page, with an empty body.
pub struct Request {
    pub url: String,
    pub headers: Vec<(String, String)>,
}

/// The headers sent with every page request.
pub open spec fn request_headers(token: Seq<char>) -> Seq<(Seq<char>, Seq<char>)> {
    seq![
        ("authorization"@, "Bearer "@ + token),
        ("content-type"@, "application/json"@),
        ("user-agent"@, "SquareCustomers FDW"@),
    ]
}

/// Where a scan stands.
enum Phase {
    Unstarted,
    Fetching(Paginator),
    Ready,
    Failed,
}

/// The model of where a scan stands.
pub enum PhaseView {
    Unstarted,
    Fetching(PaginatorView),
    Ready,
    Failed,
}

/// The model of an [`ExampleFdw`].
pub struct FdwView {
    pub base_url: Seq<char>,
    pub access_token: Seq<char>,
    pub phase: PhaseView,
    pub missing: MissingField,
    pub rows: Seq<JsonView>,
    pub offset: nat,
}

impl FdwView {
    /// The read offset stays within the record buffer, which holds records
    /// only once a scan is ready.
    pub open spec fn wf(self) -> bool {
        &&& self.offset <= self.rows.len()
        &&& !(self.phase is Ready) ==> self.rows.len() == 0 && self.offset == 0
    }
}

/// What `end_scan` makes of a state: buffer and offset cleared, no scan.
pub open spec fn end_scan_spec(s: FdwView) -> FdwView {
    FdwView { phase: PhaseView::Unstarted, rows: Seq::empty(), offset: 0, ..s }
}

/// What one `iter_scan` call returns: the row of the record at the offset,
/// or `None` once the offset has reached the end of the buffer.
pub open spec fn iter_result(s: FdwView, cols: Seq<ColumnView>) -> Result<
    Option<Seq<CellView>>,
    (Seq<char>, ProjectionFault),
> {
    if s.offset < s.rows.len() {
        match row_spec(s.rows[s.offset as int], cols, s.missing) {
            Ok(row) => Ok(Some(row)),
            Err(e) => Err(e),
        }
    } else {
        Ok(None)
    }
}

/// The state after one `iter_scan` call: the offset advances by one after a
/// row is emitted, and nothing else changes.
pub open spec fn iter_state(s: FdwView, cols: Seq<ColumnView>) -> FdwView {
    if iter_result(s, cols) matches Ok(Some(_)) {
        FdwView { offset: s.offset + 1, ..s }
    } else {
        s
    }
}

/// The adapter: its connection settings and the state of its scan.
pub struct ExampleFdw {
    base_url: String,
    access_token: String,
    phase: Phase,
    missing: MissingField,
    src_rows: Vec<Json>,
    src_idx: usize,
}

impl ExampleFdw {
    pub closed spec fn view(&self) -> FdwView {
        FdwView {
            base_url: self.base_url@,
            access_token: self.access_token@,
            phase: match self.phase {
                Phase::Unstarted => PhaseView::Unstarted,
                Phase::Fetching(p) => PhaseView::Fetching(p@),
                Phase::Ready => PhaseView::Ready,
                Phase::Failed => PhaseView::Failed,
            },
            missing: self.missing,
            rows: views_of(self.src_rows@),
            offset: self.src_idx as nat,
        }
    }

    #[verifier::type_invariant]
    closed spec fn inv(&self) -> bool {
        self@.wf()
    }

    /// An adapter with no settings and no scan.
    pub fn new() -> (r: Self)
        ensures
            r@ == (FdwView {
                base_url: Seq::empty(),
                access_token: Seq::empty(),
                phase: PhaseView::Unstarted,
                missing: MissingField::Error,
                rows: Seq::empty(),
                offset: 0,
            }),
            r@.wf(),
    {
        let r = ExampleFdw {
            base_url: String::new(),
            access_token: String::new(),
            phase: Phase::Unstarted,
            missing: MissingField::Error,
            src_rows: Vec::new(),
            src_idx: 0,
        };
        assert(views_of(r.src_rows@) =~= Seq::empty());
        r
    }

    /// Reads the server options: `access_token` is required, `base_url` falls
    /// back to the default endpoint.
    pub fn init(&mut self, server_options: &Vec<(String, String)>) -> (r: Result<(), FdwError>)
        ensures
            final(self)@.wf(),
            match option_of(server_options@, "access_token"@) {
                None => (r matches Err(FdwError::Config { option }) && option@ == "access_token"@)
                    && final(self)@ == old(self)@,
                Some(token) => r is Ok && final(self)@ == (FdwView {
                    base_url: match option_of(server_options@, "base_url"@) {
                        Some(u) => u,
                        None => default_base_url(),
                    },
                    access_token: token,
                    ..old(self)@
                }),
            },
    {
        proof {
            use_type_invariant(&*self);
        }
        let token = match option_value(server_options, "access_token") {
            Some(t) => t,
            None => return Err(FdwError::Config { option: String::from_str("access_token") }),
        };
        let url = match option_value(server_options, "base_url") {
            Some(u) => u,
            None => String::from_str("https://connect.squareup.com/v2/customers"),
        };
        self.base_url = url;
        self.access_token = token;
        Ok(())
    }

    /// The access token as it may be shown in diagnostics: at most its first
    /// five characters, then a mask.
    pub fn token_hint(&self) -> (r: String)
        ensures
            r@ == self@.access_token.take(
                if self@.access_token.len() < 5 {
                    self@.access_token.len() as int
                } else {
                    5
                },
            ) + "****"@,
    {
        let token = self.access_token.as_str();
        let len = token.unicode_len();
        let n: usize = if len < 5 {
            len
        } else {
            5
        };
        let mut r = String::from_str(token.substring_char(0, n));
        r.append("****");
        r
    }

    /// Starts a scan of the table whose `object` option names the remote
    /// collection: the buffer is emptied and the walk over
    /// `<base_url>/<object>` begins. The option `missing_fields = null` makes
    /// a record without a column's field give `Null` instead of an error.
    pub fn begin_scan(&mut self, table_options: &Vec<(String, String)>) -> (r: Result<(), FdwError>)
        ensures
            final(self)@.wf(),
            match option_of(table_options@, "object"@) {
                None => (r matches Err(FdwError::Config { option }) && option@ == "object"@)
                    && final(self)@ == old(self)@,
                Some(object) => r is Ok && final(self)@ == (FdwView {
                    phase: PhaseView::Fetching(walk_start(old(self)@.base_url + "/"@ + object)),
                    missing: missing_policy(table_options@),
                    rows: Seq::empty(),
                    offset: 0,
                    ..old(self)@
                }),
            },
    {
        proof {
            use_type_invariant(&*self);
        }
        let object = match option_value(table_options, "object") {
            Some(o) => o,
            None => return Err(FdwError::Config { option: String::from_str("object") }),
        };
        let mut url = self.base_url.clone();
        url.append("/");
        url.append(object.as_str());
        let null_name = String::from_str("null");
        let missing = match option_value(table_options, "missing_fields") {
            Some(v) => if v == null_name {
                MissingField::Null
            } else {
                MissingField::Error
            },
            None => MissingField::Error,
        };
        self.missing = missing;
        self.src_idx = 0;
        self.src_rows = Vec::new();
        self.phase = Phase::Fetching(Paginator::new(url));
        assert(views_of(self.src_rows@) =~= Seq::empty());
        Ok(())
    }

    /// The request for the next page, while the scan is fetching.
    pub fn next_request(&self) -> (r: Option<Request>)
        ensures
            match self@.phase {
                PhaseView::Fetching(p) => r matches Some(req) && req.url@ == request_url(p)
                    && req.headers@.map_values(|h: (String, String)| (h.0@, h.1@))
                    == request_headers(self@.access_token),
                _ => r is None,
            },
    {
        match &self.phase {
            Phase::Fetching(p) => {
                let mut auth = String::from_str("Bearer ");
                auth.append(self.access_token.as_str());
                let mut headers: Vec<(String, String)> = Vec::new();
                headers.push((String::from_str("authorization"), auth));
                headers.push((String::from_str("content-type"), String::from_str("application/json")));
                headers.push((String::from_str("user-agent"), String::from_str("SquareCustomers FDW")));
                assert(headers@.map_values(|h: (String, String)| (h.0@, h.1@)) =~= request_headers(
                    self@.access_token,
                ));
                Some(Request { url: p.next_url(), headers })
            },
            _ => None,
        }
    }

    /// How many records the scan holds: those gathered so far while it
    /// fetches, the whole buffer once it is ready.
    pub fn record_count(&self) -> (r: usize)
        ensures
            r == match self@.phase {
                PhaseView::Fetching(p) => p.records.len(),
                _ => self@.rows.len(),
            },
    {
        match &self.phase {
            Phase::Fetching(p) => p.record_count(),
            _ => self.src_rows.len(),
        }
    }

    /// Takes the response to the last request. A refused page fails the scan
    /// and nothing fetched so far is kept; the last page makes it ready, with
    /// every record in the buffer and the offset at 0.
    pub fn on_response(&mut self, status: u16, body: &str) -> (r: Result<(), FdwError>)
        requires
            old(self)@.phase is Fetching,
        ensures
            final(self)@.wf(),
            match walk_step(old(self)@.phase->Fetching_0, status, body@) {
                Err(f) => (r matches Err(e) && reports(e, f)) && final(self)@ == (FdwView {
                    phase: PhaseView::Failed,
                    ..old(self)@
                }),
                Ok(q) => r is Ok && final(self)@ == if q.done {
                    FdwView { phase: PhaseView::Ready, rows: q.records, offset: 0, ..old(self)@ }
                } else {
                    FdwView { phase: PhaseView::Fetching(q), ..old(self)@ }
                },
            },
    {
        proof {
            use_type_invariant(&*self);
        }
        let mut taken = ExampleFdw::new();
        std::mem::swap(self, &mut taken);
        let ExampleFdw { base_url, access_token, phase, missing, src_rows, src_idx } = taken;
        match phase {
            Phase::Fetching(mut p) => {
                let r = p.accept(status, body);
                match r {
                    Ok(()) => {
                        if p.is_done() {
                            let rows = p.into_records();
                            *self = ExampleFdw {
                                base_url,
                                access_token,
                                phase: Phase::Ready,
                                missing,
                                src_rows: rows,
                                src_idx: 0,
                            };
                        } else {
                            *self = ExampleFdw {
                                base_url,
                                access_token,
                                phase: Phase::Fetching(p),
                                missing,
                                src_rows,
                                src_idx,
                            };
                        }
                    },
                    Err(_) => {
                        *self = ExampleFdw {
                            base_url,
                            access_token,
                            phase: Phase::Failed,
                            missing,
                            src_rows,
                            src_idx,
                        };
                    },
                }
                r
            },
            _ => {
                *self = ExampleFdw { base_url, access_token, phase, missing, src_rows, src_idx };
                Ok(())
            },
        }
    }

    /// Reports that the last request could not be carried out: the scan fails.
    pub fn on_transport_error(&mut self, message: String) -> (r: FdwError)
        requires
            old(self)@.phase is Fetching,
        ensures
            final(self)@.wf(),
            r matches FdwError::Transport { message: m } && m@ == message@,
            final(self)@ == (FdwView { phase: PhaseView::Failed, ..old(self)@ }),
    {
        proof {
            use_type_invariant(&*self);
        }
        self.phase = Phase::Failed;
        FdwError::Transport { message }
    }

    /// Emits the row of the record at the offset and advances the offset; once
    /// the offset has reached the end of the buffer, reports that no rows are
    /// left. A record that cannot be projected leaves the offset where it is.
    pub fn iter_scan(&mut self, columns: &Vec<Column>) -> (r: Result<Option<Vec<Cell>>, FdwError>)
        ensures
            final(self)@.wf(),
            final(self)@ == iter_state(old(self)@, column_views(columns@)),
            match r {
                Ok(None) => iter_result(old(self)@, column_views(columns@)) == Ok::<
                    Option<Seq<CellView>>,
                    (Seq<char>, ProjectionFault),
                >(None),
                Ok(Some(row)) => iter_result(old(self)@, column_views(columns@)) == Ok::<
                    Option<Seq<CellView>>,
                    (Seq<char>, ProjectionFault),
                >(Some(cell_views(row@))),
                Err(e) => iter_result(old(self)@, column_views(columns@)) matches Err(failure)
                    && reports_projection(e, failure),
            },
    {
        proof {
            use_type_invariant(&*self);
        }
        if self.src_idx >= self.src_rows.len() {
            return Ok(None);
        }
        let row = project(&self.src_rows[self.src_idx], columns, self.missing);
        match row {
            Ok(row) => {
                self.src_idx = self.src_idx + 1;
                Ok(Some(row))
            },
            Err(e) => Err(e),
        }
    }

    /// Re-running a scan in place is not supported, whatever the state.
    pub fn re_scan(&self) -> (r: Result<(), FdwError>)
        ensures
            r matches Err(FdwError::Unsupported { operation }) && operation == Operation::ReScan,
    {
        Err(FdwError::Unsupported { operation: Operation::ReScan })
    }

    /// Ends the scan: the buffer is emptied and the offset reset.
    pub fn end_scan(&mut self) -> (r: Result<(), FdwError>)
        ensures
            r is Ok,
            final(self)@.wf(),
            final(self)@ == end_scan_spec(old(self)@),
    {
        proof {
            use_type_invariant(&*self);
        }
        self.src_idx = 0;
        self.src_rows = Vec::new();
        self.phase = Phase::Unstarted;
        assert(views_of(self.src_rows@) =~= Seq::empty());
        Ok(())
    }

    /// Writing to the remote collection is not supported.
    pub fn begin_modify(&self) -> (r: Result<(), FdwError>)
        ensures
            r matches Err(FdwError::Unsupported { operation }) && operation == Operation::Modify,
    {
        Err(FdwError::Unsupported { operation: Operation::Modify })
    }

    pub fn insert(&self, row: &Vec<Cell>) -> (r: Result<(), FdwError>)
        ensures
            r matches Err(FdwError::Unsupported { operation }) && operation == Operation::Insert,
    {
        Err(FdwError::Unsupported { operation: Operation::Insert })
    }

    pub fn update(&self, rowid: &Cell, row: &Vec<Cell>) -> (r: Result<(), FdwError>)
        ensures
            r matches Err(FdwError::Unsupported { operation }) && operation == Operation::Update,
    {
        Err(FdwError::Unsupported { operation: Operation::Update })
    }

    pub fn delete(&self, rowid: &Cell) -> (r: Result<(), FdwError>)
        ensures
            r matches Err(FdwError::Unsupported { operation }) && operation == Operation::Delete,
    {
        Err(FdwError::Unsupported { operation: Operation::Delete })
    }

    /// Ends a modification, which has nothing to finish.
    pub fn end_modify(&self) -> (r: Result<(), FdwError>)
        ensures
            r is Ok,
    {
        Ok(())
    }

    /// The host versions this adapter works with, as a semver requirement.
    pub fn host_version_requirement() -> (r: String)
        ensures
            r@ == "^0.1.0"@,
    {
        String::from_str("^0.1.0")
    }
}

/// The state after `k` calls of `iter_scan` with the same columns.
pub open spec fn iter_times(s: FdwView, cols: Seq<ColumnView>, k: nat) -> FdwView
    decreases k,
{
    if k == 0 {
        s
    } else {
        iter_state(iter_times(s, cols, (k - 1) as nat), cols)
    }
}

/// Ending a scan twice in a row is a no-op the second time: the first call
/// empties the buffer and resets the offset, and the second finds them so.
pub proof fn lemma_end_scan_idempotent(s: FdwView)
    ensures
        end_scan_spec(s).rows.len() == 0,
        end_scan_spec(s).offset == 0,
        end_scan_spec(end_scan_spec(s)) == end_scan_spec(s),
{
}

/// Once the offset has reached the end of the buffer, every later
/// `iter_scan` call reports exhaustion, not an error, and changes nothing.
pub proof fn lemma_exhausted_stays(s: FdwView, cols: Seq<ColumnView>, k: nat)
    requires
        s.wf(),
        s.offset == s.rows.len(),
    ensures
        iter_times(s, cols, k) == s,
        iter_result(iter_times(s, cols, k), cols) == Ok::<
            Option<Seq<CellView>>,
            (Seq<char>, ProjectionFault),
        >(None),
    decreases k,
{
    if k > 0 {
        lemma_exhausted_stays(s, cols, (k - 1) as nat);
    }
}

proof fn lemma_iter_prefix(s: FdwView, cols: Seq<ColumnView>, j: nat)
    requires
        s.offset == 0,
        j <= s.rows.len(),
        forall|i: int| 0 <= i < s.rows.len() ==> #[trigger] row_spec(s.rows[i], cols, s.missing) is Ok,
    ensures
        iter_times(s, cols, j) == (FdwView { offset: j, ..s }),
    decreases j,
{
    if j > 0 {
        lemma_iter_prefix(s, cols, (j - 1) as nat);
        assert(row_spec(s.rows[j - 1], cols, s.missing) is Ok);
    }
}

/// A ready scan over N records, each of which projects: the first N
/// `iter_scan` calls emit the rows of the records in order, and the (N+1)-th
/// call and every one after it report exhaustion.
pub proof fn lemma_exhaustion(s: FdwView, cols: Seq<ColumnView>, k: nat)
    requires
        s.wf(),
        s.phase is Ready,
        s.offset == 0,
        forall|i: int| 0 <= i < s.rows.len() ==> #[trigger] row_spec(s.rows[i], cols, s.missing) is Ok,
    ensures
        forall|j: nat|
            j < s.rows.len() ==> #[trigger] iter_result(iter_times(s, cols, j), cols) == Ok::<
                Option<Seq<CellView>>,
                (Seq<char>, ProjectionFault),
            >(Some(row_spec(s.rows[j as int], cols, s.missing)->Ok_0)),
        iter_times(s, cols, s.rows.len()).offset == s.rows.len(),
        iter_result(iter_times(s, cols, s.rows.len() + k), cols) == Ok::<
            Option<Seq<CellView>>,
            (Seq<char>, ProjectionFault),
        >(None),
{
    assert forall|j: nat| j < s.rows.len() implies #[trigger] iter_result(
        iter_times(s, cols, j),
        cols,
    ) == Ok::<Option<Seq<CellView>>, (Seq<char>, ProjectionFault)>(
        Some(row_spec(s.rows[j as int], cols, s.missing)->Ok_0),
    ) by {
        lemma_iter_prefix(s, cols, j);
        assert(row_spec(s.rows[j as int], cols, s.missing) is Ok);
    }
    let n = s.rows.len();
    lemma_iter_prefix(s, cols, n);
    let e = iter_times(s, cols, n);
    lemma_exhausted_stays(e, cols, k);
    lemma_iter_times_add(s, cols, n, k);
}

proof fn lemma_iter_times_add(s: FdwView, cols: Seq<ColumnView>, n: nat, k: nat)
    ensures
        iter_times(s, cols, n + k) == iter_times(iter_times(s, cols, n), cols, k),
    decreases k,
{
    if k > 0 {
        lemma_iter_times_add(s, cols, n, (k - 1) as nat);
        assert((n + k - 1) as nat == n + (k - 1) as nat);
    }
}

} // verus!
