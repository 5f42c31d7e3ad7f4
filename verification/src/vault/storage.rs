//! Where saved connections are kept in the platform's secret store, and
//! how the list of their identifiers is maintained.
//!
//! Each project has a service of its own, `qoredb_` followed by the
//! project's identifier. Under it a connection has two entries, `meta_` and
//! `creds_` followed by the connection's identifier, and the entry
//! `__connection_list__` holds the identifiers of all saved connections as
//! a JSON array of strings. Reading and writing entries is the caller's
//! part.

use crate::engine::error::{EngineError, ErrorKind};
use crate::text::{concat2, str_eq, strings_view};
use crate::vault::credentials::SavedConnection;
use crate::vault::lock::StoreLookup;
use vstd::prelude::*;
use vstd::string::*;

verus! {

/// What `serde_json::from_str` makes of a text read as an array of
/// strings: the strings, or the rendered error.
pub uninterp spec fn json_list_parse(text: Seq<char>) -> Result<Seq<Seq<char>>, Seq<char>>;

/// The JSON text that `serde_json::to_string` writes for a list of strings.
pub uninterp spec fn json_list_text(list: Seq<Seq<char>>) -> Seq<char>;

/// `serde_json::from_str::<Vec<String>>`: the array of strings that the
/// text holds, or the message of the error. Either depends on the text
/// alone.
#[verifier::external_body]
fn parse_string_list(text: &str) -> (r: Result<Vec<String>, String>)
    ensures
        match r {
            Ok(v) => json_list_parse(text@) == Ok::<Seq<Seq<char>>, Seq<char>>(strings_view(v@)),
            Err(e) => json_list_parse(text@) == Err::<Seq<Seq<char>>, Seq<char>>(e@),
        },
{
    match serde_json::from_str::<Vec<String>>(text) {
        Ok(v) => Ok(v),
        Err(e) => Err(e.to_string()),
    }
}

/// `serde_json::to_string` of a list of strings: its JSON text, which
/// depends on the list alone. The serialiser fails only where a value
/// refuses to be written or a map has keys that are no strings, and a
/// list of strings has neither, so the call succeeds.
#[verifier::external_body]
fn render_string_list(list: &Vec<String>) -> (r: Result<String, String>)
    ensures
        r is Ok,
        r->Ok_0@ == json_list_text(strings_view(list@)),
{
    match serde_json::to_string(list) {
        Ok(s) => Ok(s),
        Err(e) => Err(e.to_string()),
    }
}

/// The list with `id` added at the end, unless it is in the list.
pub open spec fn list_with(list: Seq<Seq<char>>, id: Seq<char>) -> Seq<Seq<char>> {
    if list.contains(id) {
        list
    } else {
        list.push(id)
    }
}

/// The list without any entry equal to `id`, the others in their order.
pub open spec fn list_without(list: Seq<Seq<char>>, id: Seq<char>) -> Seq<Seq<char>>
    decreases list.len(),
{
    if list.len() == 0 {
        list
    } else if list.last() == id {
        list_without(list.drop_last(), id)
    } else {
        list_without(list.drop_last(), id).push(list.last())
    }
}

/// The connections among the outcomes of fetching each, in order.
pub open spec fn fetched_ok(
    fetched: Seq<Result<SavedConnection, EngineError>>,
) -> Seq<SavedConnection>
    decreases fetched.len(),
{
    if fetched.len() == 0 {
        Seq::empty()
    } else {
        match fetched.last() {
            Ok(c) => fetched_ok(fetched.drop_last()).push(c),
            Err(_) => fetched_ok(fetched.drop_last()),
        }
    }
}

/// Removing an identifier leaves none equal to it, and keeps every other.
pub proof fn lemma_list_without(list: Seq<Seq<char>>, id: Seq<char>)
    ensures
        !list_without(list, id).contains(id),
        forall|other: Seq<char>|
            other != id ==> (#[trigger] list_without(list, id).contains(other) <==> list.contains(
                other,
            )),
        !list.contains(id) ==> list_without(list, id) == list,
        list_without(list, id).len() <= list.len(),
    decreases list.len(),
{
    if list.len() > 0 {
        let init = list.drop_last();
        lemma_list_without(init, id);
        let out = list_without(list, id);
        let prev = list_without(init, id);
        assert(list =~= init.push(list.last()));
        assert forall|other: Seq<char>| other != id implies (#[trigger] out.contains(other)
            <==> list.contains(other)) by {
            if list.contains(other) {
                let k = choose|k: int| 0 <= k < list.len() && list[k] == other;
                if k < list.len() - 1 {
                    assert(init[k] == other);
                    assert(init.contains(other));
                    assert(prev.contains(other));
                    let j = choose|j: int| 0 <= j < prev.len() && prev[j] == other;
                    assert(out[j] == other);
                } else {
                    assert(out.last() == other);
                }
            }
            if out.contains(other) {
                let j = choose|j: int| 0 <= j < out.len() && out[j] == other;
                if j < prev.len() {
                    assert(prev[j] == other);
                    assert(prev.contains(other));
                    assert(init.contains(other));
                    let k = choose|k: int| 0 <= k < init.len() && init[k] == other;
                    assert(list[k] == other);
                } else {
                    assert(list.last() == other);
                }
            }
        }
        if out.contains(id) {
            let j = choose|j: int| 0 <= j < out.len() && out[j] == id;
            if j < prev.len() {
                assert(prev[j] == id);
                assert(prev.contains(id));
            }
        }
        if !list.contains(id) {
            assert(list.last() != id);
            assert forall|k: int| 0 <= k < init.len() implies init[k] != id by {
                assert(list[k] == init[k]);
            }
            assert(!init.contains(id));
        }
    }
}

/// Adding an identifier twice is adding it once, and a list without
/// repetitions stays so.
pub proof fn lemma_list_with(list: Seq<Seq<char>>, id: Seq<char>)
    ensures
        list_with(list_with(list, id), id) == list_with(list, id),
        list_with(list, id).contains(id),
        list.no_duplicates() ==> list_with(list, id).no_duplicates(),
        forall|other: Seq<char>| list.contains(other) ==> list_with(list, id).contains(other),
{
    let out = list_with(list, id);
    if !list.contains(id) {
        assert(out[list.len() as int] == id);
        assert forall|other: Seq<char>| list.contains(other) implies out.contains(other) by {
            let k = choose|k: int| 0 <= k < list.len() && list[k] == other;
            assert(out[k] == other);
        }
    }
}

/// After an identifier is added and then removed it is gone, whatever the
/// list held.
pub proof fn lemma_add_then_remove(list: Seq<Seq<char>>, id: Seq<char>)
    ensures
        !list_without(list_with(list, id), id).contains(id),
{
    lemma_list_without(list_with(list, id), id);
}

/// What saving a connection writes.
#[derive(Debug)]
pub struct SavePlan {
    /// The service under which the entries are written.
    pub service: String,
    /// The entry that takes the connection's metadata.
    pub metadata_key: String,
    /// The entry that takes the connection's secrets.
    pub credentials_key: String,
    /// The new list of identifiers, where the list changes.
    pub list: Option<Vec<String>>,
}

/// What deleting a connection removes and writes, in this order: the
/// metadata entry, the secrets entry, then the list.
#[derive(Debug)]
pub struct DeletePlan {
    pub service: String,
    pub metadata_key: String,
    pub credentials_key: String,
    /// The list of identifiers without the connection's.
    pub list: Vec<String>,
}

/// The store of the saved connections of one project.
#[derive(Debug)]
pub struct VaultStorage {
    project_id: String,
}

impl VaultStorage {
    /// The project whose connections are stored.
    pub closed spec fn project(&self) -> Seq<char> {
        self.project_id@
    }

    /// The store of a project.
    pub fn new(project_id: &str) -> (s: Self)
        ensures
            s.project() == project_id@,
    {
        VaultStorage { project_id: String::from_str(project_id) }
    }

    /// The service under which the project's entries are kept.
    pub fn service_name(&self) -> (s: String)
        ensures
            s@ == "qoredb_"@ + self.project(),
    {
        concat2("qoredb_", self.project_id.as_str())
    }

    /// The entry that holds a connection's metadata.
    pub fn metadata_key(&self, connection_id: &str) -> (s: String)
        ensures
            s@ == "meta_"@ + connection_id@,
    {
        concat2("meta_", connection_id)
    }

    /// The entry that holds a connection's secrets.
    pub fn credentials_key(&self, connection_id: &str) -> (s: String)
        ensures
            s@ == "creds_"@ + connection_id@,
    {
        concat2("creds_", connection_id)
    }

    /// The entry that holds the list of identifiers.
    pub fn list_key(&self) -> (s: String)
        ensures
            s@ == "__connection_list__"@,
    {
        String::from_str("__connection_list__")
    }

    /// The identifiers of the saved connections, given the lookup of the
    /// list entry. A missing entry means that nothing is saved.
    pub fn list_connections(&self, lookup: &StoreLookup) -> (r: Result<Vec<String>, EngineError>)
        ensures
            match *lookup {
                StoreLookup::Found(text) => match json_list_parse(text@) {
                    Ok(list) => r is Ok && strings_view(r->Ok_0@) == list,
                    Err(m) => r is Err && r->Err_0.is(
                        ErrorKind::Internal,
                        "Invalid connection list JSON in keyring: "@ + m,
                    ),
                },
                StoreLookup::Missing(_) => r is Ok && r->Ok_0@.len() == 0,
                StoreLookup::Failed(m) => r is Err && r->Err_0.is(
                    ErrorKind::Internal,
                    "Failed to get list: "@ + m@,
                ),
                StoreLookup::Unavailable(m) => r is Err && r->Err_0.is(
                    ErrorKind::Internal,
                    "Keyring error: "@ + m@,
                ),
            },
    {
        match lookup {
            StoreLookup::Found(text) => match parse_string_list(text.as_str()) {
                Ok(list) => Ok(list),
                Err(m) => {
                    let text = concat2("Invalid connection list JSON in keyring: ", m.as_str());
                    Err(EngineError::internal(text.as_str()))
                },
            },
            StoreLookup::Missing(_) => Ok(Vec::new()),
            StoreLookup::Failed(m) => {
                let text = concat2("Failed to get list: ", m.as_str());
                Err(EngineError::internal(text.as_str()))
            },
            StoreLookup::Unavailable(m) => {
                let text = concat2("Keyring error: ", m.as_str());
                Err(EngineError::internal(text.as_str()))
            },
        }
    }

    /// The connections that could be fetched, in the order of the list;
    /// those that could not are left out.
    pub fn list_connections_full(
        &self,
        fetched: Vec<Result<SavedConnection, EngineError>>,
    ) -> (out: Vec<SavedConnection>)
        ensures
            out@ == fetched_ok(fetched@),
    {
        let mut out: Vec<SavedConnection> = Vec::new();
        let mut fetched = fetched;
        let ghost all = fetched@;
        let mut rest: Vec<Result<SavedConnection, EngineError>> = Vec::new();
        // Take the outcomes from the back, then restore their order.
        while fetched.len() > 0
            invariant
                fetched@.len() + rest@.len() == all.len(),
                fetched@ == all.take(fetched@.len() as int),
                forall|k: int| 0 <= k < rest@.len() ==> rest@[k] == all[all.len() - 1 - k],
            decreases fetched.len(),
        {
            let last = fetched.pop().unwrap();
            rest.push(last);
        }
        let ghost total = rest@.len();
        while rest.len() > 0
            invariant
                total == all.len(),
                rest@.len() <= total,
                forall|k: int| 0 <= k < rest@.len() ==> rest@[k] == all[all.len() - 1 - k],
                out@ == fetched_ok(all.take(total - rest@.len())),
            decreases rest.len(),
        {
            let ghost done = (total - rest@.len()) as int;
            let item = rest.pop().unwrap();
            proof {
                let next = all.take(done + 1);
                assert(next.drop_last() =~= all.take(done));
            }
            match item {
                Ok(c) => {
                    out.push(c);
                },
                Err(_) => {},
            }
        }
        out
    }

    /// The list after a connection is saved, and whether it changed: the
    /// identifier is added at the end unless it is in the list.
    pub fn add_to_list(&self, list: Vec<String>, connection_id: &str) -> (r: (Vec<String>, bool))
        ensures
            strings_view(r.0@) == list_with(strings_view(list@), connection_id@),
            r.1 == !strings_view(list@).contains(connection_id@),
    {
        let ghost before = strings_view(list@);
        let mut i: usize = 0;
        while i < list.len()
            invariant
                i <= list.len(),
                before == strings_view(list@),
                forall|k: int| 0 <= k < i ==> before[k] != connection_id@,
            decreases list.len() - i,
        {
            if str_eq(list[i].as_str(), connection_id) {
                assert(before[i as int] == connection_id@);
                return (list, false);
            }
            i += 1;
        }
        let mut items = list;
        items.push(String::from_str(connection_id));
        (items, true)
    }

    /// The list after a connection is deleted: every entry equal to the
    /// identifier is taken out.
    pub fn remove_from_list(&self, list: Vec<String>, connection_id: &str) -> (out: Vec<String>)
        ensures
            strings_view(out@) == list_without(strings_view(list@), connection_id@),
    {
        let ghost before = strings_view(list@);
        let mut out: Vec<String> = Vec::new();
        let mut i: usize = 0;
        while i < list.len()
            invariant
                i <= list.len(),
                before == strings_view(list@),
                strings_view(out@) == list_without(before.take(i as int), connection_id@),
            decreases list.len() - i,
        {
            proof {
                let next = before.take(i + 1);
                assert(next.drop_last() =~= before.take(i as int));
            }
            if !str_eq(list[i].as_str(), connection_id) {
                out.push(list[i].clone());
            }
            i += 1;
        }
        assert(before.take(list.len() as int) =~= before);
        out
    }

    /// The JSON text under which a list of identifiers is stored.
    pub fn save_list(&self, list: &Vec<String>) -> (r: Result<String, EngineError>)
        ensures
            r is Ok,
            r->Ok_0@ == json_list_text(strings_view(list@)),
    {
        match render_string_list(list) {
            Ok(text) => Ok(text),
            Err(m) => {
                let text = concat2("Serialization error: ", m.as_str());
                Err(EngineError::internal(text.as_str()))
            },
        }
    }

    /// What saving a connection writes, given the current list.
    pub fn save_connection(&self, connection_id: &str, list: Vec<String>) -> (plan: SavePlan)
        ensures
            plan.service@ == "qoredb_"@ + self.project(),
            plan.metadata_key@ == "meta_"@ + connection_id@,
            plan.credentials_key@ == "creds_"@ + connection_id@,
            strings_view(list@).contains(connection_id@) ==> plan.list is None,
            !strings_view(list@).contains(connection_id@) ==> plan.list is Some && strings_view(
                plan.list->0@,
            ) == strings_view(list@).push(connection_id@),
    {
        let (new_list, changed) = self.add_to_list(list, connection_id);
        SavePlan {
            service: self.service_name(),
            metadata_key: self.metadata_key(connection_id),
            credentials_key: self.credentials_key(connection_id),
            list: if changed {
                Some(new_list)
            } else {
                None
            },
        }
    }

    /// What deleting a connection removes and writes, given the current
    /// list. Entries that are missing are no obstacle.
    pub fn delete_connection(&self, connection_id: &str, list: Vec<String>) -> (plan: DeletePlan)
        ensures
            plan.service@ == "qoredb_"@ + self.project(),
            plan.metadata_key@ == "meta_"@ + connection_id@,
            plan.credentials_key@ == "creds_"@ + connection_id@,
            strings_view(plan.list@) == list_without(strings_view(list@), connection_id@),
    {
        DeletePlan {
            service: self.service_name(),
            metadata_key: self.metadata_key(connection_id),
            credentials_key: self.credentials_key(connection_id),
            list: self.remove_from_list(list, connection_id),
        }
    }
}

} // verus!
