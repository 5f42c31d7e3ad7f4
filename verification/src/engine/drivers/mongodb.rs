//! The document-store driver: its connection string, the requests it
//! accepts, and the schema it infers from sampled documents.

use crate::engine::drivers::relational::push_authority;
use crate::engine::error::{EngineError, ErrorKind};
use crate::engine::types::{
    opt_view, ConnectionConfig, ConnectionConfigView, Namespace, TableColumn, TableSchema,
};
use crate::text::{
    chars_of, concat2, lemma_lex_irreflexive, lemma_lex_total, lemma_lex_transitive, lex_lt,
    str_eq, str_lt, string_of_range, trim, trimmed,
};
use vstd::prelude::*;
use vstd::string::*;

verus! {

/// The most documents a find gives back.
pub const FIND_LIMIT: usize = 1000;

/// The most documents that are sampled to infer a schema.
pub const SAMPLE_LIMIT: u64 = 100;

/// The connection string for the settings: database `admin` where none
/// is named, authentication against `admin`, TLS on or off.
pub open spec fn connection_string(c: ConnectionConfigView) -> Seq<char> {
    "mongodb://"@ + crate::engine::drivers::relational::authority(c) + (match c.database {
        Some(d) => d,
        None => "admin"@,
    }) + "?authSource=admin&tls="@ + (if c.ssl {
        "true"@
    } else {
        "false"@
    })
}

/// The connection string for the settings.
pub fn build_connection_string(config: &ConnectionConfig) -> (s: String)
    ensures
        s@ == connection_string(config@),
{
    let mut s = String::from_str("mongodb://");
    push_authority(&mut s, config);
    match &config.database {
        Some(d) => s.append(d.as_str()),
        None => s.append("admin"),
    }
    s.append("?authSource=admin&tls=");
    if config.ssl {
        s.append("true");
    } else {
        s.append("false");
    }
    s
}

/// Whether a database is one of the server's own, which are not listed.
pub open spec fn is_system_database(name: Seq<char>) -> bool {
    name == "admin"@ || name == "config"@ || name == "local"@
}

/// The databases that are listed: all but the server's own, in order.
pub open spec fn listed(names: Seq<String>) -> Seq<Seq<char>>
    decreases names.len(),
{
    if names.len() == 0 {
        Seq::empty()
    } else if is_system_database(names.last()@) {
        listed(names.drop_last())
    } else {
        listed(names.drop_last()).push(names.last()@)
    }
}

/// The namespaces for the databases of a server: one for each database
/// but the server's own.
pub fn visible_namespaces(names: &Vec<String>) -> (out: Vec<Namespace>)
    ensures
        out@.len() == listed(names@).len(),
        forall|i: int|
            0 <= i < out@.len() ==> (#[trigger] out@[i]).database@ == listed(names@)[i]
                && out@[i].schema is None,
{
    let mut out: Vec<Namespace> = Vec::new();
    let mut i: usize = 0;
    while i < names.len()
        invariant
            i <= names.len(),
            out@.len() == listed(names@.take(i as int)).len(),
            forall|k: int|
                0 <= k < out@.len() ==> (#[trigger] out@[k]).database@ == listed(
                    names@.take(i as int),
                )[k] && out@[k].schema is None,
        decreases names.len() - i,
    {
        proof {
            let next = names@.take(i + 1);
            assert(next.drop_last() =~= names@.take(i as int));
        }
        let name = names[i].as_str();
        if !(str_eq(name, "admin") || str_eq(name, "config") || str_eq(name, "local")) {
            out.push(Namespace::new(name));
        }
        i += 1;
    }
    assert(names@.take(names.len() as int) =~= names@);
    out
}

// ---------------------------------------------------------------------------
// Requests
// ---------------------------------------------------------------------------

/// The fields of a request written as a JSON object.
#[derive(Debug)]
pub struct JsonRequest {
    /// The text of `database`, where it is a string.
    pub database: Option<String>,
    /// The text of `collection`, where it is a string.
    pub collection: Option<String>,
    /// The text of `operation`, where it is a string.
    pub operation: Option<String>,
    /// The JSON text of `query`, where the object has one.
    pub query: Option<String>,
}

/// The contents of a `JsonRequest`.
pub struct JsonRequestView {
    pub database: Option<Seq<char>>,
    pub collection: Option<Seq<char>>,
    pub operation: Option<Seq<char>>,
    pub query: Option<Seq<char>>,
}

impl View for JsonRequest {
    type V = JsonRequestView;

    open spec fn view(&self) -> JsonRequestView {
        JsonRequestView {
            database: opt_view(self.database),
            collection: opt_view(self.collection),
            operation: opt_view(self.operation),
            query: opt_view(self.query),
        }
    }
}

/// What `serde_json::from_str` makes of a request: the four fields that
/// are looked at, or the rendered parse error.
pub uninterp spec fn json_request(text: Seq<char>) -> Result<JsonRequestView, Seq<char>>;

/// `serde_json::from_str` into a `serde_json::Value`, then the strings
/// under `database`, `collection` and `operation` and the JSON text under
/// `query`. A text that is no JSON gives the parser's message. Either
/// outcome depends on the text alone.
#[verifier::external_body]
fn parse_json_request(text: &str) -> (r: Result<JsonRequest, String>)
    ensures
        match r {
            Ok(v) => json_request(text@) == Ok::<JsonRequestView, Seq<char>>(v@),
            Err(e) => json_request(text@) == Err::<JsonRequestView, Seq<char>>(e@),
        },
{
    match serde_json::from_str::<serde_json::Value>(text) {
        Ok(v) => Ok(JsonRequest {
            database: v["database"].as_str().map(str::to_string),
            collection: v["collection"].as_str().map(str::to_string),
            operation: v.get("operation").and_then(|o| o.as_str()).map(str::to_string),
            query: v.get("query").map(|q| q.to_string()),
        }),
        Err(e) => Err(e.to_string()),
    }
}

/// What a request asks for.
#[derive(Debug)]
pub enum MongoPlan {
    /// Find the documents of a collection that match the filter, which
    /// is the JSON text of a document, or all where there is none. At
    /// most `FIND_LIMIT` documents are given back.
    Find { database: String, collection: String, filter: Option<String> },
    CreateCollection { database: String, collection: String },
    DropCollection { database: String, collection: String },
    DropDatabase { database: String },
}

/// The contents of a `MongoPlan`.
pub enum MongoPlanView {
    Find { database: Seq<char>, collection: Seq<char>, filter: Option<Seq<char>> },
    CreateCollection { database: Seq<char>, collection: Seq<char> },
    DropCollection { database: Seq<char>, collection: Seq<char> },
    DropDatabase { database: Seq<char> },
}

impl View for MongoPlan {
    type V = MongoPlanView;

    open spec fn view(&self) -> MongoPlanView {
        match self {
            MongoPlan::Find { database, collection, filter } => MongoPlanView::Find {
                database: database@,
                collection: collection@,
                filter: opt_view(*filter),
            },
            MongoPlan::CreateCollection { database, collection } => MongoPlanView::CreateCollection {
                database: database@,
                collection: collection@,
            },
            MongoPlan::DropCollection { database, collection } => MongoPlanView::DropCollection {
                database: database@,
                collection: collection@,
            },
            MongoPlan::DropDatabase { database } => MongoPlanView::DropDatabase {
                database: database@,
            },
        }
    }
}

/// The index of the first `c` in `s`, or the length of `s` where it
/// holds none.
pub open spec fn index_of_char(s: Seq<char>, c: char) -> int
    decreases s.len(),
{
    if s.len() == 0 || s[0] == c {
        0
    } else {
        1 + index_of_char(s.drop_first(), c)
    }
}

/// Message for a request in neither form.
pub open spec fn invalid_format() -> Seq<char> {
    "Invalid query format. Use JSON: {\"database\": \"db\", \"collection\": \"col\", \"query\": {...}}"@
}

/// What a request in the JSON form asks for, or the message with which
/// it is refused.
pub open spec fn json_plan(r: JsonRequestView) -> Result<MongoPlanView, Seq<char>> {
    if r.database is None {
        Err("Missing 'database' field"@)
    } else if r.operation == Some("drop_database"@) {
        Ok(MongoPlanView::DropDatabase { database: r.database->0 })
    } else if r.collection is None {
        Err("Missing 'collection' field"@)
    } else if r.operation == Some("create_collection"@) {
        Ok(MongoPlanView::CreateCollection { database: r.database->0, collection: r.collection->0 })
    } else if r.operation == Some("drop_collection"@) {
        Ok(MongoPlanView::DropCollection { database: r.database->0, collection: r.collection->0 })
    } else {
        Ok(
            MongoPlanView::Find {
                database: r.database->0,
                collection: r.collection->0,
                filter: r.query,
            },
        )
    }
}

/// What a request in the short form `database.collection` asks for, or
/// the message with which it is refused. What follows a second dot is
/// ignored.
pub open spec fn dotted_plan(t: Seq<char>) -> Result<MongoPlanView, Seq<char>> {
    let dot = index_of_char(t, '.');
    if dot >= t.len() {
        Err(invalid_format())
    } else {
        let rest = t.skip(dot + 1);
        Ok(
            MongoPlanView::Find {
                database: t.take(dot),
                collection: rest.take(index_of_char(rest, '.')),
                filter: None,
            },
        )
    }
}

/// What a request asks for, or the message of the syntax error with
/// which it is refused.
///
/// A request that begins with a brace is read as a JSON object with the
/// fields `database`, `collection`, and optionally `operation` and
/// `query`; the operation is a find unless it is `create_collection`,
/// `drop_collection` or `drop_database`. Any other request is read as
/// `database.collection` and is a find of all documents.
pub open spec fn mongo_plan(query: Seq<char>) -> Result<MongoPlanView, Seq<char>> {
    let t = trimmed(query);
    if t.len() > 0 && t[0] == '{' {
        match json_request(t) {
            Err(e) => Err("Invalid JSON: "@ + e),
            Ok(r) => json_plan(r),
        }
    } else {
        dotted_plan(t)
    }
}

proof fn lemma_index_of_char(s: Seq<char>, c: char, k: int)
    requires
        0 <= k <= s.len(),
        forall|i: int| 0 <= i < k ==> s[i] != c,
        k == s.len() || s[k] == c,
    ensures
        index_of_char(s, c) == k,
    decreases k,
{
    if k > 0 {
        let t = s.drop_first();
        assert forall|i: int| 0 <= i < k - 1 implies t[i] != c by {
            assert(t[i] == s[i + 1]);
        }
        if k < s.len() {
            assert(t[k - 1] == s[k]);
        }
        lemma_index_of_char(t, c, k - 1);
    }
}

fn find_char(v: &Vec<char>, from: usize, c: char) -> (k: usize)
    requires
        from <= v.len(),
    ensures
        from <= k <= v.len(),
        k - from == index_of_char(v@.skip(from as int), c),
{
    let mut k: usize = from;
    while k < v.len() && v[k] != c
        invariant
            from <= k <= v.len(),
            forall|i: int| from <= i < k ==> v@[i] != c,
        decreases v.len() - k,
    {
        k += 1;
    }
    proof {
        let s = v@.skip(from as int);
        assert forall|i: int| 0 <= i < k - from implies s[i] != c by {
            assert(s[i] == v@[from + i]);
        }
        if k < v.len() {
            assert(s[k - from] == v@[k as int]);
        }
        lemma_index_of_char(s, c, k - from);
    }
    k
}

fn plan_from_json(r: JsonRequest) -> (out: Result<MongoPlan, String>)
    ensures
        match json_plan(r@) {
            Ok(p) => out is Ok && out->Ok_0@ == p,
            Err(m) => out is Err && out->Err_0@ == m,
        },
{
    let database = match r.database {
        Some(d) => d,
        None => {
            return Err(String::from_str("Missing 'database' field"));
        },
    };
    let drops_database = match &r.operation {
        Some(op) => str_eq(op.as_str(), "drop_database"),
        None => false,
    };
    if drops_database {
        return Ok(MongoPlan::DropDatabase { database });
    }
    let collection = match r.collection {
        Some(c) => c,
        None => {
            return Err(String::from_str("Missing 'collection' field"));
        },
    };
    let creates = match &r.operation {
        Some(op) => str_eq(op.as_str(), "create_collection"),
        None => false,
    };
    if creates {
        return Ok(MongoPlan::CreateCollection { database, collection });
    }
    let drops = match &r.operation {
        Some(op) => str_eq(op.as_str(), "drop_collection"),
        None => false,
    };
    if drops {
        return Ok(MongoPlan::DropCollection { database, collection });
    }
    Ok(MongoPlan::Find { database, collection, filter: r.query })
}

/// Reads a request and says what it asks for. A request in neither form,
/// or without the fields it needs, is a syntax error.
pub fn parse_query(query: &str) -> (r: Result<MongoPlan, EngineError>)
    ensures
        match mongo_plan(query@) {
            Ok(p) => r is Ok && r->Ok_0@ == p,
            Err(m) => r is Err && r->Err_0.is(ErrorKind::SyntaxError, m),
        },
{
    let text = trim(query);
    let v = chars_of(text.as_str());
    if v.len() > 0 && v[0] == '{' {
        match parse_json_request(text.as_str()) {
            Err(e) => {
                let m = concat2("Invalid JSON: ", e.as_str());
                Err(EngineError::syntax_error(m.as_str()))
            },
            Ok(request) => match plan_from_json(request) {
                Ok(p) => Ok(p),
                Err(m) => Err(EngineError::syntax_error(m.as_str())),
            },
        }
    } else {
        assert(v@.skip(0) =~= v@);
        let dot = find_char(&v, 0, '.');
        if dot >= v.len() {
            return Err(
                EngineError::syntax_error(
                    "Invalid query format. Use JSON: {\"database\": \"db\", \"collection\": \"col\", \"query\": {...}}",
                ),
            );
        }
        let end = find_char(&v, dot + 1, '.');
        let database = string_of_range(&v, 0, dot);
        let collection = string_of_range(&v, dot + 1, end);
        proof {
            let rest = v@.skip(dot + 1);
            assert(v@.subrange(0, dot as int) =~= v@.take(dot as int));
            assert(v@.subrange(dot + 1, end as int) =~= rest.take(end - dot - 1));
        }
        Ok(MongoPlan::Find { database, collection, filter: None })
    }
}

/// The failure for a filter that the driver could not read as a
/// document.
pub fn invalid_filter(message: &str) -> (e: EngineError)
    ensures
        e.is(ErrorKind::SyntaxError, "Invalid query: "@ + message@),
{
    let m = concat2("Invalid query: ", message);
    EngineError::syntax_error(m.as_str())
}

/// Whether a find has all the documents it gives back.
pub fn find_is_full(count: usize) -> (b: bool)
    ensures
        b == (count >= FIND_LIMIT),
{
    count >= FIND_LIMIT
}

/// Message with which the transaction operations are refused.
pub open spec fn transactions_refused() -> Seq<char> {
    "MongoDB transactions require a replica set. Standalone instances do not support transactions."@
}

/// The failure with which the transaction operations are refused.
pub fn transaction_not_supported() -> (e: EngineError)
    ensures
        e.is(ErrorKind::NotSupported, transactions_refused()),
{
    EngineError::not_supported(
        "MongoDB transactions require a replica set. Standalone instances do not support transactions.",
    )
}

/// The outcome of a cancellation: nothing is cancelled, and the request
/// succeeds where the session exists.
pub fn acknowledge_cancel(session_exists: bool, session_id: &str) -> (r: Result<(), EngineError>)
    ensures
        session_exists ==> r is Ok,
        !session_exists ==> r is Err && r->Err_0.is(ErrorKind::SessionNotFound, session_id@),
{
    if session_exists {
        Ok(())
    } else {
        Err(EngineError::session_not_found(session_id))
    }
}

/// The columns of a result from the keys of its first document: the
/// store has no schema, so each column is of mixed type and may be null.
pub fn document_columns(keys: &Vec<String>) -> (out: Vec<crate::engine::types::ColumnInfo>)
    ensures
        out@.len() == keys@.len(),
        forall|i: int|
            0 <= i < out@.len() ==> (#[trigger] out@[i]).name@ == keys@[i]@ && out@[i].data_type@
                == "mixed"@ && out@[i].nullable,
{
    let mut out: Vec<crate::engine::types::ColumnInfo> = Vec::new();
    let mut i: usize = 0;
    while i < keys.len()
        invariant
            i <= keys.len(),
            out@.len() == i,
            forall|k: int|
                0 <= k < i ==> (#[trigger] out@[k]).name@ == keys@[k]@ && out@[k].data_type@
                    == "mixed"@ && out@[k].nullable,
        decreases keys.len() - i,
    {
        out.push(
            crate::engine::types::ColumnInfo {
                name: keys[i].clone(),
                data_type: String::from_str("mixed"),
                nullable: true,
            },
        );
        i += 1;
    }
    out
}

// ---------------------------------------------------------------------------
// Schema inference
// ---------------------------------------------------------------------------

/// The kinds of value a document holds.
#[derive(Debug, Clone, Copy, PartialEq, Eq, Structural)]
pub enum BsonKind {
    Null,
    Boolean,
    Int32,
    Int64,
    Double,
    Text,
    ObjectId,
    DateTime,
    Array,
    Document,
    Binary,
    Other,
}

impl BsonKind {
    /// The name under which the kind is reported.
    pub open spec fn name(&self) -> Seq<char> {
        match self {
            BsonKind::Null => "null"@,
            BsonKind::Boolean => "boolean"@,
            BsonKind::Int32 => "int32"@,
            BsonKind::Int64 => "int64"@,
            BsonKind::Double => "double"@,
            BsonKind::Text => "string"@,
            BsonKind::ObjectId => "ObjectId"@,
            BsonKind::DateTime => "datetime"@,
            BsonKind::Array => "array"@,
            BsonKind::Document => "document"@,
            BsonKind::Binary => "binary"@,
            BsonKind::Other => "mixed"@,
        }
    }

    /// The name under which the kind is reported.
    pub fn kind_name(&self) -> (s: &'static str)
        ensures
            s@ == self.name(),
    {
        match self {
            BsonKind::Null => "null",
            BsonKind::Boolean => "boolean",
            BsonKind::Int32 => "int32",
            BsonKind::Int64 => "int64",
            BsonKind::Double => "double",
            BsonKind::Text => "string",
            BsonKind::ObjectId => "ObjectId",
            BsonKind::DateTime => "datetime",
            BsonKind::Array => "array",
            BsonKind::Document => "document",
            BsonKind::Binary => "binary",
            BsonKind::Other => "mixed",
        }
    }
}

/// One field of a sampled document.
#[derive(Debug)]
pub struct FieldSample {
    pub name: String,
    pub kind: BsonKind,
}

/// The fields of a document, as names and kinds.
pub open spec fn samples_view(fields: Seq<FieldSample>) -> Seq<(Seq<char>, BsonKind)> {
    Seq::new(fields.len(), |i: int| (fields[i].name@, fields[i].kind))
}

/// The fields of all documents in a row: document after document, each
/// with its fields in order.
pub open spec fn all_fields(docs: Seq<Vec<FieldSample>>) -> Seq<(Seq<char>, BsonKind)>
    decreases docs.len(),
{
    if docs.len() == 0 {
        Seq::empty()
    } else {
        all_fields(docs.drop_last()) + samples_view(docs.last()@)
    }
}

/// The kind with which a field is seen first.
pub open spec fn first_kind(fields: Seq<(Seq<char>, BsonKind)>, name: Seq<char>) -> Option<BsonKind>
    decreases fields.len(),
{
    if fields.len() == 0 {
        None
    } else {
        match first_kind(fields.drop_last(), name) {
            Some(k) => Some(k),
            None => if fields.last().0 == name {
                Some(fields.last().1)
            } else {
                None
            },
        }
    }
}

/// Whether the entries stand in the order of their names, each name
/// once.
pub open spec fn sorted_by_name(entries: Seq<(Seq<char>, BsonKind)>) -> bool {
    forall|i: int, j: int|
        0 <= i < j < entries.len() ==> lex_lt((#[trigger] entries[i]).0, (#[trigger] entries[j]).0)
}

/// Whether `entries` holds each field of `fields` once, with the kind
/// with which it is seen first.
pub open spec fn summarizes(
    entries: Seq<(Seq<char>, BsonKind)>,
    fields: Seq<(Seq<char>, BsonKind)>,
) -> bool {
    &&& forall|i: int|
        0 <= i < entries.len() ==> first_kind(fields, (#[trigger] entries[i]).0) == Some(
            entries[i].1,
        )
    &&& forall|name: Seq<char>| #[trigger]
        first_kind(fields, name) is Some ==> exists|i: int|
            0 <= i < entries.len() && (#[trigger] entries[i]).0 == name
}

/// Adds one field to the summary: a field that is there stays as it is,
/// a new one is put in the place of its name.
fn note_field(entries: &mut Vec<FieldSample>, name: &str, kind: BsonKind, Ghost(seen): Ghost<
    Seq<(Seq<char>, BsonKind)>,
>)
    requires
        sorted_by_name(samples_view(old(entries)@)),
        summarizes(samples_view(old(entries)@), seen),
    ensures
        sorted_by_name(samples_view(final(entries)@)),
        summarizes(samples_view(final(entries)@), seen.push((name@, kind))),
{
    let ghost before = samples_view(entries@);
    let ghost next = seen.push((name@, kind));
    assert(next.drop_last() =~= seen);
    let mut i: usize = 0;
    while i < entries.len() && str_lt(entries[i].name.as_str(), name)
        invariant
            i <= entries.len(),
            entries@ == old(entries)@,
            before == samples_view(entries@),
            forall|k: int| 0 <= k < i ==> lex_lt((#[trigger] before[k]).0, name@),
        decreases entries.len() - i,
    {
        i += 1;
    }
    if i < entries.len() && str_eq(entries[i].name.as_str(), name) {
        proof {
            assert(before[i as int].0 == name@);
            assert forall|n: Seq<char>| #[trigger] first_kind(next, n) is Some implies exists|
                k: int,
            |
                0 <= k < before.len() && (#[trigger] before[k]).0 == n by {
                if first_kind(seen, n) is None {
                    assert(n == name@);
                }
            }
        }
    } else {
        entries.insert(i, FieldSample { name: String::from_str(name), kind });
        proof {
            let after = samples_view(entries@);
            let p = i as int;
            assert(after =~= before.insert(p, (name@, kind)));
            if p < before.len() {
                lemma_lex_total(before[p].0, name@);
            }
            assert forall|a: int, b: int| 0 <= a < b < after.len() implies lex_lt(
                (#[trigger] after[a]).0,
                (#[trigger] after[b]).0,
            ) by {
                if b < p {
                    assert(after[a] == before[a] && after[b] == before[b]);
                } else if b == p {
                    assert(after[a] == before[a]);
                } else if a == p {
                    assert(after[b] == before[b - 1]);
                    if b - 1 > p {
                        lemma_lex_transitive(name@, before[p].0, before[b - 1].0);
                    }
                } else if a < p {
                    assert(after[a] == before[a] && after[b] == before[b - 1]);
                } else {
                    assert(after[a] == before[a - 1] && after[b] == before[b - 1]);
                }
            }
            // The name is new: it is at no place before or after `p`.
            assert forall|k: int| 0 <= k < before.len() implies (#[trigger] before[k]).0
                != name@ by {
                if k < p {
                    lemma_lex_irreflexive(name@);
                } else if k > p {
                    lemma_lex_transitive(name@, before[p].0, before[k].0);
                    lemma_lex_irreflexive(name@);
                }
            }
            assert(first_kind(seen, name@) is None) by {
                if first_kind(seen, name@) is Some {
                    let k = choose|k: int| 0 <= k < before.len() && (#[trigger] before[k]).0 == name@;
                    assert(before[k].0 == name@);
                }
            }
            assert forall|k: int| 0 <= k < after.len() implies first_kind(
                next,
                (#[trigger] after[k]).0,
            ) == Some(after[k].1) by {
                if k < p {
                    assert(after[k] == before[k]);
                } else if k > p {
                    assert(after[k] == before[k - 1]);
                }
            }
            assert forall|n: Seq<char>| #[trigger] first_kind(next, n) is Some implies exists|
                k: int,
            |
                0 <= k < after.len() && (#[trigger] after[k]).0 == n by {
                if first_kind(seen, n) is Some {
                    let k = choose|k: int| 0 <= k < before.len() && (#[trigger] before[k]).0 == n;
                    if k < p {
                        assert(after[k].0 == n);
                    } else {
                        assert(after[k + 1].0 == n);
                    }
                } else {
                    assert(n == name@);
                    assert(after[p].0 == n);
                }
            }
        }
    }
}

/// The fields seen in the sampled documents, each once with the kind
/// with which it is seen first, in the order of their names.
pub fn summarize_fields(docs: &Vec<Vec<FieldSample>>) -> (entries: Vec<FieldSample>)
    ensures
        sorted_by_name(samples_view(entries@)),
        summarizes(samples_view(entries@), all_fields(docs@)),
{
    let mut entries: Vec<FieldSample> = Vec::new();
    let ghost mut seen: Seq<(Seq<char>, BsonKind)> = Seq::empty();
    let mut d: usize = 0;
    assert(docs@.take(0) =~= Seq::<Vec<FieldSample>>::empty());
    while d < docs.len()
        invariant
            d <= docs.len(),
            seen == all_fields(docs@.take(d as int)),
            sorted_by_name(samples_view(entries@)),
            summarizes(samples_view(entries@), seen),
        decreases docs.len() - d,
    {
        let doc = &docs[d];
        let ghost base = seen;
        let mut f: usize = 0;
        assert(samples_view(doc@).take(0) =~= Seq::<(Seq<char>, BsonKind)>::empty());
        assert(base + Seq::<(Seq<char>, BsonKind)>::empty() =~= base);
        while f < doc.len()
            invariant
                f <= doc.len(),
                seen == base + samples_view(doc@).take(f as int),
                sorted_by_name(samples_view(entries@)),
                summarizes(samples_view(entries@), seen),
            decreases doc.len() - f,
        {
            note_field(&mut entries, doc[f].name.as_str(), doc[f].kind, Ghost(seen));
            proof {
                let item = (doc@[f as int].name@, doc@[f as int].kind);
                assert(samples_view(doc@).take(f + 1) =~= samples_view(doc@).take(f as int).push(
                    item,
                ));
                assert(seen.push(item) =~= base + samples_view(doc@).take(f + 1));
                seen = seen.push(item);
            }
            f += 1;
        }
        proof {
            assert(samples_view(doc@).take(doc.len() as int) =~= samples_view(doc@));
            let next = docs@.take(d + 1);
            assert(next.drop_last() =~= docs@.take(d as int));
            assert(next.last() == docs@[d as int]);
        }
        d += 1;
    }
    assert(docs@.take(docs.len() as int) =~= docs@);
    entries
}

/// The column for a field of the summary: always nullable, without a
/// default, and part of the key exactly where it is `_id`.
pub fn field_column(field: &FieldSample) -> (c: TableColumn)
    ensures
        c.name@ == field.name@,
        c.data_type@ == field.kind.name(),
        c.nullable,
        c.default_value is None,
        c.is_primary_key == (field.name@ == "_id"@),
{
    TableColumn {
        name: field.name.clone(),
        data_type: String::from_str(field.kind.kind_name()),
        nullable: true,
        default_value: None,
        is_primary_key: str_eq(field.name.as_str(), "_id"),
    }
}

/// The fields in the order of the columns: `_id` first where there is
/// one, then the others as they stand.
pub open spec fn id_first(entries: Seq<(Seq<char>, BsonKind)>) -> Seq<(Seq<char>, BsonKind)>
    decreases entries.len(),
{
    if entries.len() == 0 {
        entries
    } else if entries.last().0 == "_id"@ {
        seq![entries.last()] + id_first(entries.drop_last())
    } else {
        id_first(entries.drop_last()).push(entries.last())
    }
}

/// Whether the columns are those of the summary `entries` of the fields
/// of the documents: `_id` first, the others in the order of their names,
/// each typed as the field is seen first.
pub open spec fn is_schema_of(
    columns: Seq<TableColumn>,
    entries: Seq<(Seq<char>, BsonKind)>,
    docs: Seq<Vec<FieldSample>>,
) -> bool {
    &&& sorted_by_name(entries)
    &&& summarizes(entries, all_fields(docs))
    &&& columns.len() == id_first(entries).len()
    &&& forall|i: int|
        0 <= i < columns.len() ==> {
            &&& (#[trigger] columns[i]).name@ == id_first(entries)[i].0
            &&& columns[i].data_type@ == id_first(entries)[i].1.name()
            &&& columns[i].nullable
            &&& columns[i].default_value is None
            &&& columns[i].is_primary_key == (id_first(entries)[i].0 == "_id"@)
        }
}

/// The columns of a collection, inferred from sampled documents: one for
/// each field seen, typed as the field is seen first; `_id` first, the
/// others in the order of their names.
pub fn infer_columns(docs: &Vec<Vec<FieldSample>>) -> (columns: Vec<TableColumn>)
    ensures
        exists|entries: Seq<(Seq<char>, BsonKind)>| is_schema_of(columns@, entries, docs@),
{
    let entries = summarize_fields(docs);
    let ghost view = samples_view(entries@);
    let mut columns: Vec<TableColumn> = Vec::new();
    let mut i: usize = 0;
    assert(view.take(0) =~= Seq::<(Seq<char>, BsonKind)>::empty());
    while i < entries.len()
        invariant
            i <= entries.len(),
            view == samples_view(entries@),
            columns@.len() == id_first(view.take(i as int)).len(),
            forall|k: int|
                0 <= k < columns@.len() ==> {
                    &&& (#[trigger] columns@[k]).name@ == id_first(view.take(i as int))[k].0
                    &&& columns@[k].data_type@ == id_first(view.take(i as int))[k].1.name()
                    &&& columns@[k].nullable
                    &&& columns@[k].default_value is None
                    &&& columns@[k].is_primary_key == (id_first(view.take(i as int))[k].0
                        == "_id"@)
                },
        decreases entries.len() - i,
    {
        proof {
            let next = view.take(i + 1);
            assert(next.drop_last() =~= view.take(i as int));
            assert(next.last() == view[i as int]);
        }
        let c = field_column(&entries[i]);
        if c.is_primary_key {
            columns.insert(0, c);
        } else {
            columns.push(c);
        }
        i += 1;
    }
    assert(view.take(entries.len() as int) =~= view);
    assert(is_schema_of(columns@, view, docs@));
    columns
}

/// The schema of a collection, inferred from sampled documents. The
/// key is `_id`, whatever the documents hold, and the number of rows is
/// the server's estimate where it gave one.
pub fn build_collection_schema(docs: &Vec<Vec<FieldSample>>, estimate: Option<u64>) -> (schema:
    TableSchema)
    ensures
        exists|entries: Seq<(Seq<char>, BsonKind)>|
            is_schema_of(schema.columns@, entries, docs@),
        schema.primary_key is Some,
        schema.primary_key->0@.len() == 1,
        schema.primary_key->0@[0]@ == "_id"@,
        schema.row_count_estimate == estimate,
{
    let columns = infer_columns(docs);
    let ghost entries = choose|entries: Seq<(Seq<char>, BsonKind)>|
        is_schema_of(columns@, entries, docs@);
    let mut key: Vec<String> = Vec::new();
    key.push(String::from_str("_id"));
    let schema = TableSchema { columns, primary_key: Some(key), row_count_estimate: estimate };
    assert(is_schema_of(schema.columns@, entries, docs@));
    schema
}

} // verus!
