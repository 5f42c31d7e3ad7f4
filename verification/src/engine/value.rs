//! Values, rows and results, in one form for every engine.

use crate::text::{lemma_lex_total, lemma_lex_transitive, lex_lt, str_eq, str_lt};
use crate::engine::types::ColumnInfo;
use base64::engine::general_purpose::STANDARD;
use base64::Engine;
use vstd::prelude::*;
use vstd::string::*;

verus! {

/// One value of a row.
///
/// A floating-point number is carried as its IEEE-754 bit pattern and a
/// JSON document as its text; bytes are written in base64 where a value
/// leaves the process.
#[derive(Debug)]
pub enum Value {
    Null,
    Bool(bool),
    Int(i64),
    /// The 64 bits of a double-precision number.
    Float(u64),
    Text(String),
    Bytes(Vec<u8>),
    /// The text of a JSON document.
    Json(String),
    Array(Vec<Value>),
}

/// The standard base64 text of a sequence of bytes, with padding, as
/// `STANDARD.encode` writes it.
pub uninterp spec fn base64_text(bytes: Seq<u8>) -> Seq<char>;

/// What `STANDARD.decode` makes of a text: the bytes, or the rendered
/// error.
pub uninterp spec fn base64_parse(text: Seq<char>) -> Result<Seq<u8>, Seq<char>>;

/// `base64::engine::general_purpose::STANDARD.encode`: the text depends
/// on the bytes alone. The encoder stops the program where the length of
/// the text does not fit the machine, so such inputs are left out.
#[verifier::external_body]
fn base64_encode(bytes: &Vec<u8>) -> (s: String)
    requires
        bytes@.len() <= usize::MAX / 2,
    ensures
        s@ == base64_text(bytes@),
{
    STANDARD.encode(bytes)
}

/// `base64::engine::general_purpose::STANDARD.decode`: the bytes that
/// the text stands for, or the message of the error. Either depends on
/// the text alone.
#[verifier::external_body]
fn base64_decode(text: &str) -> (r: Result<Vec<u8>, String>)
    ensures
        match r {
            Ok(b) => base64_parse(text@) == Ok::<Seq<u8>, Seq<char>>(b@),
            Err(e) => base64_parse(text@) == Err::<Seq<u8>, Seq<char>>(e@),
        },
{
    match STANDARD.decode(text) {
        Ok(b) => Ok(b),
        Err(e) => Err(e.to_string()),
    }
}

impl Value {
    /// The text in which bytes leave the process: standard base64. Bytes
    /// too many for their text to fit the machine have none.
    pub fn bytes_to_text(bytes: &Vec<u8>) -> (r: Option<String>)
        ensures
            bytes@.len() <= usize::MAX / 2 ==> r is Some && r->0@ == base64_text(bytes@),
            bytes@.len() > usize::MAX / 2 ==> r is None,
    {
        if bytes.len() <= usize::MAX / 2 {
            Some(base64_encode(bytes))
        } else {
            None
        }
    }

    /// The bytes value that a text stands for, or the message with which
    /// the text is refused as base64.
    pub fn bytes_from_text(text: &str) -> (r: Result<Value, String>)
        ensures
            match base64_parse(text@) {
                Ok(b) => r is Ok && r->Ok_0 is Bytes && r->Ok_0->Bytes_0@ == b,
                Err(m) => r is Err && r->Err_0@ == m,
            },
    {
        match base64_decode(text) {
            Ok(b) => Ok(Value::Bytes(b)),
            Err(m) => Err(m),
        }
    }

    /// The text of this value where it is bytes, and `None` where it is
    /// anything else or too long for its text to fit the machine.
    pub fn external_bytes(&self) -> (r: Option<String>)
        ensures
            match *self {
                Value::Bytes(b) => if b@.len() <= usize::MAX / 2 {
                    r is Some && r->0@ == base64_text(b@)
                } else {
                    r is None
                },
                _ => r is None,
            },
    {
        match self {
            Value::Bytes(b) => Self::bytes_to_text(b),
            _ => None,
        }
    }
}

/// One row of a result; the values stand in column order.
#[derive(Debug)]
pub struct Row {
    pub values: Vec<Value>,
}

/// Whether each name comes strictly before the next.
pub open spec fn strictly_sorted(names: Seq<Seq<char>>) -> bool {
    forall|i: int, j: int| 0 <= i < j < names.len() ==> lex_lt(#[trigger] names[i], #[trigger] names[j])
}

/// How many names at the head of `names` come strictly before `name`: in a
/// sorted list, the place where `name` stands or would be put.
pub open spec fn position(names: Seq<Seq<char>>, name: Seq<char>) -> int
    decreases names.len(),
{
    if names.len() == 0 || !lex_lt(names[0], name) {
        0
    } else {
        1 + position(names.drop_first(), name)
    }
}

/// The names after `name` is set: unchanged where it is among them, else
/// with `name` put in its place.
pub open spec fn names_with(names: Seq<Seq<char>>, name: Seq<char>) -> Seq<Seq<char>> {
    let p = position(names, name);
    if p < names.len() && names[p] == name {
        names
    } else {
        names.insert(p, name)
    }
}

/// The values after `name` is set to `value`.
pub open spec fn values_with(
    names: Seq<Seq<char>>,
    values: Seq<Value>,
    name: Seq<char>,
    value: Value,
) -> Seq<Value> {
    let p = position(names, name);
    if p < names.len() && names[p] == name {
        values.update(p, value)
    } else {
        values.insert(p, value)
    }
}

proof fn lemma_position_bounds(names: Seq<Seq<char>>, name: Seq<char>)
    ensures
        0 <= position(names, name) <= names.len(),
    decreases names.len(),
{
    if names.len() > 0 && lex_lt(names[0], name) {
        lemma_position_bounds(names.drop_first(), name);
    }
}

proof fn lemma_position_scan(names: Seq<Seq<char>>, name: Seq<char>, k: int)
    requires
        0 <= k <= names.len(),
        forall|i: int| 0 <= i < k ==> lex_lt(#[trigger] names[i], name),
    ensures
        position(names, name) == k + position(names.skip(k), name),
    decreases k,
{
    if k == 0 {
        assert(names.skip(0) =~= names);
    } else {
        let t = names.drop_first();
        assert(lex_lt(names[0], name));
        assert forall|i: int| 0 <= i < k - 1 implies lex_lt(#[trigger] t[i], name) by {
            assert(t[i] == names[i + 1]);
        }
        lemma_position_scan(t, name, k - 1);
        assert(t.skip(k - 1) =~= names.skip(k));
    }
}

/// Setting a name in a sorted list leaves it sorted.
pub proof fn lemma_names_with_sorted(names: Seq<Seq<char>>, name: Seq<char>)
    requires
        strictly_sorted(names),
    ensures
        strictly_sorted(names_with(names, name)),
        names_with(names, name).contains(name),
        forall|n: Seq<char>| names.contains(n) ==> names_with(names, name).contains(n),
        forall|n: Seq<char>| #[trigger]
            names_with(names, name).contains(n) ==> n == name || names.contains(n),
{
    let p = position(names, name);
    lemma_position_bounds(names, name);
    lemma_position_prefix(names, name);
    let out = names_with(names, name);
    if p < names.len() && names[p] == name {
        assert(out[p] == name);
    } else {
        assert(out[p] == name);
        assert forall|i: int, j: int| 0 <= i < j < out.len() implies lex_lt(
            #[trigger] out[i],
            #[trigger] out[j],
        ) by {
            if j < p {
                assert(out[i] == names[i] && out[j] == names[j]);
            } else if j == p {
                assert(out[i] == names[i]);
            } else if i == p {
                assert(out[j] == names[j - 1]);
                lemma_lex_total(names[p], name);
                if j - 1 > p {
                    lemma_lex_transitive(name, names[p], names[j - 1]);
                }
            } else if i < p {
                assert(out[i] == names[i] && out[j] == names[j - 1]);
            } else {
                assert(out[i] == names[i - 1] && out[j] == names[j - 1]);
            }
        }
        assert forall|n: Seq<char>| names.contains(n) implies out.contains(n) by {
            let k = choose|k: int| 0 <= k < names.len() && names[k] == n;
            if k < p {
                assert(out[k] == n);
            } else {
                assert(out[k + 1] == n);
            }
        }
        assert forall|n: Seq<char>| #[trigger] out.contains(n) implies n == name || names.contains(
            n,
        ) by {
            let k = choose|k: int| 0 <= k < out.len() && out[k] == n;
            if k < p {
                assert(names[k] == n);
            } else if k > p {
                assert(names[k - 1] == n);
            }
        }
    }
}

/// Every name before the position comes before `name`; the name at the
/// position, if any, does not.
proof fn lemma_position_prefix(names: Seq<Seq<char>>, name: Seq<char>)
    ensures
        forall|i: int| 0 <= i < position(names, name) ==> lex_lt(#[trigger] names[i], name),
        position(names, name) < names.len() ==> !lex_lt(names[position(names, name)], name),
    decreases names.len(),
{
    if names.len() > 0 && lex_lt(names[0], name) {
        let t = names.drop_first();
        lemma_position_prefix(t, name);
        lemma_position_bounds(t, name);
        assert forall|i: int| 0 <= i < position(names, name) implies lex_lt(
            #[trigger] names[i],
            name,
        ) by {
            if i > 0 {
                assert(names[i] == t[i - 1]);
            }
        }
        if position(names, name) < names.len() {
            assert(names[position(names, name)] == t[position(t, name)]);
        }
    }
}

/// The columns of one row, by name, for insert, update and delete.
///
/// The columns are kept in the order of their names, each name once. That
/// order is the order of the column list of the statement built from them.
#[derive(Debug)]
pub struct RowData {
    columns: Vec<(String, Value)>,
}

impl RowData {
    /// The names of the columns, in order.
    pub closed spec fn names(&self) -> Seq<Seq<char>> {
        Seq::new(self.columns@.len(), |i: int| self.columns@[i].0@)
    }

    /// The values of the columns, in the order of the names.
    pub closed spec fn values(&self) -> Seq<Value> {
        Seq::new(self.columns@.len(), |i: int| self.columns@[i].1)
    }

    /// The names are in order, each once.
    pub open spec fn wf(&self) -> bool {
        strictly_sorted(self.names()) && self.names().len() == self.values().len()
    }

    #[verifier::type_invariant]
    spec fn inv(&self) -> bool {
        self.wf()
    }

    /// A row with no column.
    pub fn new() -> (r: Self)
        ensures
            r.wf(),
            r.names() == Seq::<Seq<char>>::empty(),
            r.values() == Seq::<Value>::empty(),
    {
        let columns: Vec<(String, Value)> = Vec::new();
        RowData { columns }
    }

    /// The row with `name` set to `value`; a column of that name is
    /// replaced.
    pub fn with_column(self, name: &str, value: Value) -> (out: Self)
        ensures
            self.wf(),
            out.wf(),
            out.names() == names_with(self.names(), name@),
            out.values() == values_with(self.names(), self.values(), name@, value),
    {
        proof {
            use_type_invariant(&self);
        }
        let ghost names = self.names();
        let mut columns = self.columns;
        let mut i: usize = 0;
        while i < columns.len() && str_lt(columns[i].0.as_str(), name)
            invariant
                i <= columns.len(),
                columns@ == self.columns@,
                forall|k: int| 0 <= k < i ==> lex_lt(#[trigger] names[k], name@),
                names == self.names(),
            decreases columns.len() - i,
        {
            i += 1;
        }
        proof {
            lemma_position_scan(names, name@, i as int);
            lemma_names_with_sorted(names, name@);
        }
        if i < columns.len() && str_eq(columns[i].0.as_str(), name) {
            let held = String::from_str(name);
            columns.set(i, (held, value));
            proof {
                let out = RowData { columns };
                assert(out.names() =~= names_with(names, name@));
            }
            RowData { columns }
        } else {
            columns.insert(i, (String::from_str(name), value));
            proof {
                let out = RowData { columns };
                assert(out.names() =~= names_with(names, name@));
            }
            RowData { columns }
        }
    }

    /// The number of columns.
    pub fn len(&self) -> (n: usize)
        ensures
            n == self.names().len(),
    {
        self.columns.len()
    }

    /// Whether the row has no column.
    pub fn is_empty(&self) -> (b: bool)
        ensures
            b == (self.names().len() == 0),
    {
        self.columns.len() == 0
    }

    /// The name of the column at `index`.
    pub fn name_at(&self, index: usize) -> (name: &str)
        requires
            index < self.names().len(),
        ensures
            name@ == self.names()[index as int],
    {
        self.columns[index].0.as_str()
    }

    /// The value of the column at `index`.
    pub fn value_at(&self, index: usize) -> (value: &Value)
        requires
            index < self.names().len(),
        ensures
            *value == self.values()[index as int],
    {
        &self.columns[index].1
    }

    /// The value of the column of the given name.
    pub fn get(&self, name: &str) -> (r: Option<&Value>)
        ensures
            match r {
                Some(v) => exists|i: int|
                    0 <= i < self.names().len() && self.names()[i] == name@ && self.values()[i]
                        == *v,
                None => !self.names().contains(name@),
            },
    {
        let mut i: usize = 0;
        while i < self.columns.len()
            invariant
                i <= self.columns.len(),
                forall|k: int| 0 <= k < i ==> self.names()[k] != name@,
            decreases self.columns.len() - i,
        {
            if str_eq(self.columns[i].0.as_str(), name) {
                assert(self.names()[i as int] == name@);
                return Some(&self.columns[i].1);
            }
            i += 1;
        }
        None
    }

    /// The names of the columns, in order.
    pub fn column_names(&self) -> (out: Vec<String>)
        ensures
            out@.len() == self.names().len(),
            forall|i: int| 0 <= i < out@.len() ==> (#[trigger] out@[i])@ == self.names()[i],
    {
        let mut out: Vec<String> = Vec::new();
        let mut i: usize = 0;
        while i < self.columns.len()
            invariant
                i <= self.columns.len(),
                out@.len() == i,
                forall|k: int| 0 <= k < i ==> (#[trigger] out@[k])@ == self.names()[k],
            decreases self.columns.len() - i,
        {
            out.push(self.columns[i].0.clone());
            i += 1;
        }
        out
    }
}

impl Default for RowData {
    fn default() -> (r: Self)
        ensures
            r.wf(),
            r.names().len() == 0,
    {
        RowData::new()
    }
}

/// What a statement gave back.
#[derive(Debug)]
pub struct QueryResult {
    pub columns: Vec<ColumnInfo>,
    pub rows: Vec<Row>,
    /// How many rows an insert, update or delete touched.
    pub affected_rows: Option<u64>,
    /// Wall-clock duration in microseconds; a thousand make one of the
    /// milliseconds that callers are shown.
    pub execution_time_us: u64,
}

impl QueryResult {
    /// A result with no column, no row and no count.
    pub fn empty() -> (r: Self)
        ensures
            r.columns@.len() == 0,
            r.rows@.len() == 0,
            r.affected_rows is None,
            r.execution_time_us == 0,
    {
        QueryResult { columns: Vec::new(), rows: Vec::new(), affected_rows: None, execution_time_us: 0 }
    }

    /// The result of a statement that touched `affected` rows and gave no
    /// rows back.
    pub fn with_affected_rows(affected: u64, time_us: u64) -> (r: Self)
        ensures
            r.columns@.len() == 0,
            r.rows@.len() == 0,
            r.affected_rows == Some(affected),
            r.execution_time_us == time_us,
    {
        QueryResult {
            columns: Vec::new(),
            rows: Vec::new(),
            affected_rows: Some(affected),
            execution_time_us: time_us,
        }
    }
}

} // verus!
