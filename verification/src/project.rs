use vstd::prelude::*;

verus! {

/// A database-native value: the tagged union the storage layer hands back.
/// A real number is carried as the bit pattern of its 64-bit floating-point
/// representation, so that the projection's finiteness decision is plain
/// integer logic; the boundary that talks to the storage layer converts.
pub enum DbValue {
    Null,
    Integer(i64),
    Real(u64),
    Text(String),
    Blob(Vec<u8>),
}

/// A JSON-compatible value as the response body carries it. A `Real` holds
/// the bit pattern of a finite 64-bit floating-point number.
pub enum JsonValue {
    Null,
    Int(i64),
    Real(u64),
    Str(String),
}

/// Whether a 64-bit floating-point bit pattern denotes a finite number: its
/// exponent field is not all ones.
pub open spec fn real_is_finite(bits: u64) -> bool {
    (bits >> 52) & 0x7ff != 0x7ff
}

/// The per-column projection: `Null` to JSON null, an integer to a JSON
/// number, a finite real to a JSON number and a non-finite one to numeric
/// zero, text to a JSON string, and a blob always to JSON null.
pub open spec fn spec_project_value(v: DbValue) -> JsonValue {
    match v {
        DbValue::Null => JsonValue::Null,
        DbValue::Integer(i) => JsonValue::Int(i),
        DbValue::Real(bits) => if real_is_finite(bits) {
            JsonValue::Real(bits)
        } else {
            JsonValue::Int(0)
        },
        DbValue::Text(s) => JsonValue::Str(s),
        DbValue::Blob(b) => JsonValue::Null,
    }
}

/// Projects one database value into the JSON value model. The non-finite
/// fallback to numeric zero and the blob fallback to null are deliberate
/// policy, kept for compatibility.
pub fn project_value(v: &DbValue) -> (r: JsonValue)
    ensures
        r == spec_project_value(*v),
{
    match v {
        DbValue::Null => JsonValue::Null,
        DbValue::Integer(i) => JsonValue::Int(*i),
        DbValue::Real(bits) => {
            if (*bits >> 52) & 0x7ff != 0x7ff {
                JsonValue::Real(*bits)
            } else {
                JsonValue::Int(0)
            }
        },
        DbValue::Text(s) => JsonValue::Str(s.clone()),
        DbValue::Blob(_) => JsonValue::Null,
    }
}

/// A persisted log row as surfaced to clients in structured mode.
pub struct LogRow {
    pub id: i64,
    pub key: String,
    pub value: String,
    pub timestamp: String,
}

/// Mathematical view of a row: the id with each text column as a character
/// sequence.
pub struct RowView {
    pub id: int,
    pub key: Seq<char>,
    pub value: Seq<char>,
    pub timestamp: Seq<char>,
}

impl View for LogRow {
    type V = RowView;

    open spec fn view(&self) -> RowView {
        RowView { id: self.id as int, key: self.key@, value: self.value@, timestamp: self.timestamp@ }
    }
}

impl LogRow {
    /// An equal copy of the row.
    pub fn duplicate(&self) -> (r: LogRow)
        ensures
            r == *self,
    {
        LogRow {
            id: self.id,
            key: self.key.clone(),
            value: self.value.clone(),
            timestamp: self.timestamp.clone(),
        }
    }
}

/// The column at an index, with null standing in for a missing one.
pub open spec fn col(cols: Seq<DbValue>, i: int) -> DbValue {
    if 0 <= i < cols.len() {
        cols[i]
    } else {
        DbValue::Null
    }
}

/// An integer column read best-effort: anything that is not an integer
/// degrades to zero.
pub open spec fn int_or_zero(v: DbValue) -> i64 {
    match v {
        DbValue::Integer(n) => n,
        _ => 0,
    }
}

/// A text column read best-effort: anything that is not text degrades to the
/// empty string.
pub open spec fn text_or_empty(v: DbValue) -> Seq<char> {
    match v {
        DbValue::Text(s) => s@,
        _ => Seq::<char>::empty(),
    }
}

/// Projects the columns `id, key, value, timestamp` of one result row into
/// the fixed-shape structured response row. Unreadable or mis-typed columns
/// degrade to safe defaults — zero for the id, the empty string for text —
/// rather than failing the response: a deliberate best-effort policy.
pub fn project_log_row(cols: &Vec<DbValue>) -> (r: LogRow)
    ensures
        r.id == int_or_zero(col(cols@, 0)),
        r@.key == text_or_empty(col(cols@, 1)),
        r@.value == text_or_empty(col(cols@, 2)),
        r@.timestamp == text_or_empty(col(cols@, 3)),
{
    let id: i64 = if cols.len() > 0 {
        match &cols[0] {
            DbValue::Integer(n) => *n,
            _ => 0,
        }
    } else {
        0
    };
    let key = read_text(cols, 1);
    let value = read_text(cols, 2);
    let timestamp = read_text(cols, 3);
    LogRow { id, key, value, timestamp }
}

/// Reads a text column best-effort, degrading to the empty string.
fn read_text(cols: &Vec<DbValue>, i: usize) -> (r: String)
    ensures
        r@ == text_or_empty(col(cols@, i as int)),
{
    if i < cols.len() {
        match &cols[i] {
            DbValue::Text(s) => s.clone(),
            _ => String::new(),
        }
    } else {
        String::new()
    }
}

/// Projects a free-text-mode result row: only the first selected column is
/// surfaced, and further columns are dropped — a preserved asymmetry of the
/// design. A row with no columns projects to null.
pub fn project_first(cols: &Vec<DbValue>) -> (r: JsonValue)
    ensures
        r == spec_project_value(col(cols@, 0)),
{
    if cols.len() > 0 {
        project_value(&cols[0])
    } else {
        JsonValue::Null
    }
}

} // verus!
