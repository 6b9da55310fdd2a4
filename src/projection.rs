//! Turning a record into a row of typed cells.
use vstd::prelude::*;
use crate::error::{FdwError, ProjectionFault};
use crate::json::{Json, JsonView, member, member_of, encode_json, json_encode};

verus! {

/// The declared type of an output column.
#[derive(Clone, Copy, Debug, PartialEq, Eq, Structural)]
pub enum TypeTag {
    Bool,
    I8,
    I16,
    F32,
    I32,
    F64,
    I64,
    Numeric,
    String,
    Date,
    Timestamp,
    Timestamptz,
    Json,
    Uuid,
    Other,
}

/// What a record without a column's field gives.
#[derive(Clone, Copy, Debug, PartialEq, Eq, Structural)]
pub enum MissingField {
    /// A hard error: the record does not match the schema.
    Error,
    /// A `Null` cell.
    Null,
}

/// A requested output column.
#[derive(Debug)]
pub struct Column {
    pub name: String,
    pub type_tag: TypeTag,
}

pub struct ColumnView {
    pub name: Seq<char>,
    pub type_tag: TypeTag,
}

impl Column {
    pub open spec fn view(&self) -> ColumnView {
        ColumnView { name: self.name@, type_tag: self.type_tag }
    }

    pub fn new(name: String, type_tag: TypeTag) -> (r: Self)
        ensures
            r.name@ == name@,
            r.type_tag == type_tag,
    {
        Column { name, type_tag }
    }
}

/// A typed cell of a row.
#[derive(Debug)]
pub enum Cell {
    Null,
    Bool(bool),
    I64(i64),
    String(String),
    /// Microseconds since the Unix epoch.
    Timestamp(i64),
    /// The compact JSON text of an object.
    Json(String),
}

pub enum CellView {
    Null,
    Bool(bool),
    I64(i64),
    String(Seq<char>),
    Timestamp(i64),
    Json(Seq<char>),
}

impl Cell {
    pub open spec fn view(&self) -> CellView {
        match self {
            Cell::Null => CellView::Null,
            Cell::Bool(b) => CellView::Bool(*b),
            Cell::I64(i) => CellView::I64(*i),
            Cell::String(s) => CellView::String(s@),
            Cell::Timestamp(t) => CellView::Timestamp(*t),
            Cell::Json(s) => CellView::Json(s@),
        }
    }
}

/// The instant that an RFC 3339 text denotes, in microseconds since the Unix
/// epoch; `None` where the text is not RFC 3339.
pub uninterp spec fn rfc3339_micros(text: Seq<char>) -> Option<i64>;

/// Relies on chrono's `DateTime::parse_from_rfc3339` and `timestamp_micros`:
/// the instant depends on the text alone.
#[verifier::external_body]
pub(crate) fn parse_rfc3339(text: &str) -> (r: Option<i64>)
    ensures
        r == rfc3339_micros(text@),
{
    match chrono::DateTime::parse_from_rfc3339(text) {
        Ok(t) => Some(t.timestamp_micros()),
        Err(_) => None,
    }
}

/// The conversion table: the cell that a field's value gives in a column of
/// the declared type. A value of another shape gives `Null`; a declared type
/// outside the table, and a timestamp string that is not RFC 3339, are errors.
pub open spec fn convert_spec(v: JsonView, ty: TypeTag) -> Result<CellView, ProjectionFault> {
    match ty {
        TypeTag::Bool => match v {
            JsonView::Bool(b) => Ok(CellView::Bool(b)),
            _ => Ok(CellView::Null),
        },
        TypeTag::I64 => match v {
            JsonView::Int(i) => Ok(CellView::I64(i)),
            _ => Ok(CellView::Null),
        },
        TypeTag::String => match v {
            JsonView::Str(s) => Ok(CellView::String(s)),
            _ => Ok(CellView::Null),
        },
        TypeTag::Timestamp => match v {
            JsonView::Str(s) => match rfc3339_micros(s) {
                Some(t) => Ok(CellView::Timestamp(t)),
                None => Err(ProjectionFault::MalformedTimestamp),
            },
            _ => Ok(CellView::Null),
        },
        TypeTag::Json => match v {
            JsonView::Object(_) => Ok(CellView::Json(json_encode(v))),
            _ => Ok(CellView::Null),
        },
        _ => Err(ProjectionFault::UnsupportedType),
    }
}

/// The cell of one column: the record's field of exactly the column's name,
/// converted; a record without that field gives an error, or `Null` where
/// the policy says so.
pub open spec fn cell_spec(record: JsonView, col: ColumnView, missing: MissingField) -> Result<
    CellView,
    ProjectionFault,
> {
    match member_of(record, col.name) {
        None => match missing {
            MissingField::Error => Err(ProjectionFault::ColumnNotFound),
            MissingField::Null => Ok(CellView::Null),
        },
        Some(v) => convert_spec(v, col.type_tag),
    }
}

/// The first `n` columns projected from left to right; the first column that
/// fails gives the error, with its name.
pub open spec fn row_prefix(
    record: JsonView,
    cols: Seq<ColumnView>,
    missing: MissingField,
    n: int,
) -> Result<
    Seq<CellView>,
    (Seq<char>, ProjectionFault),
>
    decreases n,
{
    if n <= 0 {
        Ok(Seq::empty())
    } else {
        match row_prefix(record, cols, missing, n - 1) {
            Err(e) => Err(e),
            Ok(row) => match cell_spec(record, cols[n - 1], missing) {
                Ok(c) => Ok(row.push(c)),
                Err(f) => Err((cols[n - 1].name, f)),
            },
        }
    }
}

/// The row of a record: one cell per column, or the first error.
pub open spec fn row_spec(record: JsonView, cols: Seq<ColumnView>, missing: MissingField) -> Result<
    Seq<CellView>,
    (Seq<char>, ProjectionFault),
> {
    row_prefix(record, cols, missing, cols.len() as int)
}

pub open spec fn column_views(cols: Seq<Column>) -> Seq<ColumnView> {
    cols.map_values(|c: Column| c@)
}

pub open spec fn cell_views(cells: Seq<Cell>) -> Seq<CellView> {
    cells.map_values(|c: Cell| c@)
}

/// The error that reports a failed projection.
pub open spec fn reports_projection(e: FdwError, failure: (Seq<char>, ProjectionFault)) -> bool {
    e matches FdwError::Projection { column, fault } && column@ == failure.0 && fault
        == failure.1
}

/// Converts a field's value to the cell of a column of type `ty`.
pub fn convert(v: &Json, ty: TypeTag) -> (r: Result<Cell, ProjectionFault>)
    ensures
        match r {
            Ok(c) => convert_spec(v@, ty) == Ok::<CellView, ProjectionFault>(c@),
            Err(f) => convert_spec(v@, ty) == Err::<CellView, ProjectionFault>(f),
        },
{
    match ty {
        TypeTag::Bool => match v {
            Json::Bool(b) => Ok(Cell::Bool(*b)),
            _ => Ok(Cell::Null),
        },
        TypeTag::I64 => match v {
            Json::Int(i) => Ok(Cell::I64(*i)),
            _ => Ok(Cell::Null),
        },
        TypeTag::String => match v {
            Json::Str(s) => Ok(Cell::String(s.clone())),
            _ => Ok(Cell::Null),
        },
        TypeTag::Timestamp => match v {
            Json::Str(s) => match parse_rfc3339(s.as_str()) {
                Some(t) => Ok(Cell::Timestamp(t)),
                None => Err(ProjectionFault::MalformedTimestamp),
            },
            _ => Ok(Cell::Null),
        },
        TypeTag::Json => match v {
            Json::Object(_) => Ok(Cell::Json(encode_json(v))),
            _ => Ok(Cell::Null),
        },
        _ => Err(ProjectionFault::UnsupportedType),
    }
}

/// Projects a record onto the requested columns, left to right. The row is
/// returned whole or not at all: the first column that fails gives the error.
pub fn project(record: &Json, columns: &Vec<Column>, missing: MissingField) -> (r: Result<
    Vec<Cell>,
    FdwError,
>)
    ensures
        match r {
            Ok(row) => row_spec(record@, column_views(columns@), missing) == Ok::<
                Seq<CellView>,
                (Seq<char>, ProjectionFault),
            >(cell_views(row@)),
            Err(e) => row_spec(record@, column_views(columns@), missing) matches Err(failure)
                && reports_projection(e, failure),
        },
{
    let ghost cols = column_views(columns@);
    let mut row: Vec<Cell> = Vec::new();
    let mut i: usize = 0;
    assert(cell_views(row@) =~= Seq::<CellView>::empty());
    while i < columns.len()
        invariant
            i <= columns@.len(),
            cols == column_views(columns@),
            row_prefix(record@, cols, missing, i as int) == Ok::<
                Seq<CellView>,
                (Seq<char>, ProjectionFault),
            >(cell_views(row@)),
        decreases columns.len() - i,
    {
        let col = &columns[i];
        assert(cols[i as int] == col@);
        let cell = match member(record, &col.name) {
            None => match missing {
                MissingField::Error => Err(ProjectionFault::ColumnNotFound),
                MissingField::Null => Ok(Cell::Null),
            },
            Some(v) => convert(v, col.type_tag),
        };
        match cell {
            Ok(c) => {
                let ghost before = row@;
                row.push(c);
                assert(cell_views(row@) =~= cell_views(before).push(c@));
            },
            Err(fault) => {
                assert(row_prefix(record@, cols, missing, i + 1) == Err::<
                    Seq<CellView>,
                    (Seq<char>, ProjectionFault),
                >((col.name@, fault)));
                proof {
                    lemma_error_persists(record@, cols, missing, i as int + 1);
                }
                return Err(FdwError::Projection { column: col.name.clone(), fault });
            },
        }
        i = i + 1;
    }
    Ok(row)
}

/// Once a prefix of the columns fails, every longer prefix fails the same way.
proof fn lemma_error_persists(record: JsonView, cols: Seq<ColumnView>, missing: MissingField, n: int)
    requires
        row_prefix(record, cols, missing, n) is Err,
        0 <= n <= cols.len(),
    ensures
        row_prefix(record, cols, missing, cols.len() as int) == row_prefix(record, cols, missing, n),
    decreases cols.len() - n,
{
    if n < cols.len() {
        assert(row_prefix(record, cols, missing, n + 1) == row_prefix(record, cols, missing, n));
        lemma_error_persists(record, cols, missing, n + 1);
    }
}

/// The conversion table, row by row, for a record projected onto the single
/// column `name: ty`: a field `name` holding `v` gives the cell that the
/// table names for `ty` and the shape of `v` (`Null` on a shape mismatch), a
/// declared type outside the table and a malformed timestamp give errors, and
/// a record without a field `name` gives a hard error (or `Null`, where the
/// missing-field policy asks for it).
pub proof fn lemma_conversion_table(
    record: JsonView,
    name: Seq<char>,
    ty: TypeTag,
    missing: MissingField,
)
    ensures
        ({
            let r = row_spec(record, seq![ColumnView { name, type_tag: ty }], missing);
            &&& member_of(record, name) is None && missing == MissingField::Error ==> r == Err::<
                Seq<CellView>,
                (Seq<char>, ProjectionFault),
            >((name, ProjectionFault::ColumnNotFound))
            &&& member_of(record, name) is None && missing == MissingField::Null ==> r == Ok::<
                Seq<CellView>,
                (Seq<char>, ProjectionFault),
            >(seq![CellView::Null])
            &&& member_of(record, name) matches Some(v) ==> {
                &&& ty == TypeTag::Bool ==> r == Ok::<Seq<CellView>, (Seq<char>, ProjectionFault)>(
                    seq![
                        match v {
                            JsonView::Bool(b) => CellView::Bool(b),
                            _ => CellView::Null,
                        },
                    ],
                )
                &&& ty == TypeTag::I64 ==> r == Ok::<Seq<CellView>, (Seq<char>, ProjectionFault)>(
                    seq![
                        match v {
                            JsonView::Int(i) => CellView::I64(i),
                            _ => CellView::Null,
                        },
                    ],
                )
                &&& ty == TypeTag::String ==> r == Ok::<
                    Seq<CellView>,
                    (Seq<char>, ProjectionFault),
                >(
                    seq![
                        match v {
                            JsonView::Str(s) => CellView::String(s),
                            _ => CellView::Null,
                        },
                    ],
                )
                &&& ty == TypeTag::Timestamp ==> r == match v {
                    JsonView::Str(s) => match rfc3339_micros(s) {
                        Some(t) => Ok(seq![CellView::Timestamp(t)]),
                        None => Err((name, ProjectionFault::MalformedTimestamp)),
                    },
                    _ => Ok(seq![CellView::Null]),
                }
                &&& ty == TypeTag::Json ==> r == Ok::<Seq<CellView>, (Seq<char>, ProjectionFault)>(
                    seq![
                        match v {
                            JsonView::Object(_) => CellView::Json(json_encode(v)),
                            _ => CellView::Null,
                        },
                    ],
                )
                &&& !(ty == TypeTag::Bool || ty == TypeTag::I64 || ty == TypeTag::String || ty
                    == TypeTag::Timestamp || ty == TypeTag::Json) ==> r == Err::<
                    Seq<CellView>,
                    (Seq<char>, ProjectionFault),
                >((name, ProjectionFault::UnsupportedType))
            }
        }),
{
    let cols = seq![ColumnView { name, type_tag: ty }];
    assert(row_prefix(record, cols, missing, 0) == Ok::<Seq<CellView>, (Seq<char>, ProjectionFault)>(
        Seq::empty(),
    ));
    assert(cols[0].name == name);
    match cell_spec(record, cols[0], missing) {
        Ok(c) => assert(Seq::<CellView>::empty().push(c) =~= seq![c]),
        Err(_) => {},
    }
}

} // verus!
