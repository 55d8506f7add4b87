//! Tracking of the uploads that are under way.
//!
//! Two tables, both keyed by the identity of an upload. The task table has
//! an entry from the moment the upload's task exists: the handle by which
//! the caller can stop the task and, once a multipart session is open, the
//! session's id. The binding table has an entry only for uploads with an
//! open session: the handle of the client that opened it and the key of the
//! object, which is what it takes to abort the session from elsewhere.

use crate::typ::opt_text;
use dashmap::DashMap;
use std::collections::hash_map::RandomState;
use vstd::prelude::*;

verus! {

/// `dashmap::DashMap`, a concurrent hash map. Nothing inside it is visible
/// here: what a table holds is named by [`task_entries`] and
/// [`binding_entries`], and only the functions below touch it.
#[verifier::external_type_specification]
#[verifier::external_body]
#[verifier::reject_recursive_types(K)]
#[verifier::reject_recursive_types(V)]
#[verifier::reject_recursive_types(S)]
pub struct ExDashMap<K, V, S>(DashMap<K, V, S>);

/// The table of upload tasks: identity to task handle and session id.
pub type TaskTable = DashMap<String, (u64, Option<String>), RandomState>;

/// Mathematical value of a [`TaskTable`].
pub type TaskMap = Map<Seq<char>, (u64, Option<Seq<char>>)>;

/// The table of client bindings: identity to client handle and object key.
pub type BindingTable = DashMap<String, (u64, String), RandomState>;

/// Mathematical value of a [`BindingTable`].
pub type BindingMap = Map<Seq<char>, (u64, Seq<char>)>;

/// What a task table holds.
pub uninterp spec fn task_entries(table: TaskTable) -> TaskMap;

/// What a binding table holds.
pub uninterp spec fn binding_entries(table: BindingTable) -> BindingMap;

/// `DashMap::new`: a table that holds nothing.
#[verifier::external_body]
fn tasks_new() -> (table: TaskTable)
    ensures
        task_entries(table) == TaskMap::empty(),
{
    DashMap::new()
}

/// `DashMap::insert`: afterwards the key maps to the new value, whatever it
/// mapped to before, and no other key has changed.
#[verifier::external_body]
fn tasks_insert(table: &mut TaskTable, id: String, handle: u64, upload_id: Option<String>)
    ensures
        task_entries(*final(table)) == task_entries(*old(table)).insert(
            id@,
            (handle, opt_text(upload_id)),
        ),
{
    table.insert(id, (handle, upload_id));
}

/// `DashMap::get`: a copy of the value under the key, if there is one.
#[verifier::external_body]
fn tasks_get(table: &TaskTable, id: &str) -> (found: Option<(u64, Option<String>)>)
    ensures
        found is Some <==> task_entries(*table).contains_key(id@),
        found matches Some(entry) ==> task_entries(*table)[id@] == (entry.0, opt_text(entry.1)),
{
    table.get(id).map(|entry| entry.value().clone())
}

/// `DashMap::remove`: afterwards the key is absent and no other key has
/// changed.
#[verifier::external_body]
fn tasks_remove(table: &mut TaskTable, id: &str)
    ensures
        task_entries(*final(table)) == task_entries(*old(table)).remove(id@),
{
    table.remove(id);
}

/// `DashMap::new`: a table that holds nothing.
#[verifier::external_body]
fn bindings_new() -> (table: BindingTable)
    ensures
        binding_entries(table) == BindingMap::empty(),
{
    DashMap::new()
}

/// `DashMap::insert`: afterwards the key maps to the new value, whatever it
/// mapped to before, and no other key has changed.
#[verifier::external_body]
fn bindings_insert(table: &mut BindingTable, id: String, client: u64, remote_filename: String)
    ensures
        binding_entries(*final(table)) == binding_entries(*old(table)).insert(
            id@,
            (client, remote_filename@),
        ),
{
    table.insert(id, (client, remote_filename));
}

/// `DashMap::get`: a copy of the value under the key, if there is one.
#[verifier::external_body]
fn bindings_get(table: &BindingTable, id: &str) -> (found: Option<(u64, String)>)
    ensures
        found is Some <==> binding_entries(*table).contains_key(id@),
        found matches Some(entry) ==> binding_entries(*table)[id@] == (entry.0, entry.1@),
{
    table.get(id).map(|entry| entry.value().clone())
}

/// `DashMap::remove`: afterwards the key is absent and no other key has
/// changed.
#[verifier::external_body]
fn bindings_remove(table: &mut BindingTable, id: &str)
    ensures
        binding_entries(*final(table)) == binding_entries(*old(table)).remove(id@),
{
    table.remove(id);
}

/// Mathematical value of a [`Registry`].
pub struct RegistryView {
    pub tasks: TaskMap,
    pub bindings: BindingMap,
}

impl RegistryView {
    /// A registry without entries.
    pub open spec fn empty() -> RegistryView {
        RegistryView { tasks: Map::empty(), bindings: Map::empty() }
    }

    /// The registry after a task was entered: handle present, session absent.
    pub open spec fn register(self, id: Seq<char>, handle: u64) -> RegistryView {
        RegistryView { tasks: self.tasks.insert(id, (handle, None)), ..self }
    }

    /// The registry after a session was recorded: the binding is entered in
    /// any case, the session id only where the task has an entry.
    pub open spec fn record_session(
        self,
        id: Seq<char>,
        upload_id: Seq<char>,
        client: u64,
        remote_filename: Seq<char>,
    ) -> RegistryView {
        RegistryView {
            tasks: if self.tasks.contains_key(id) {
                self.tasks.insert(id, (self.tasks[id].0, Some(upload_id)))
            } else {
                self.tasks
            },
            bindings: self.bindings.insert(id, (client, remote_filename)),
        }
    }

    /// The registry after both entries of an identity were removed.
    pub open spec fn forget(self, id: Seq<char>) -> RegistryView {
        RegistryView { tasks: self.tasks.remove(id), bindings: self.bindings.remove(id) }
    }
}

/// The uploads that are under way.
pub struct Registry {
    tasks: TaskTable,
    bindings: BindingTable,
}

impl View for Registry {
    type V = RegistryView;

    closed spec fn view(&self) -> RegistryView {
        RegistryView {
            tasks: task_entries(self.tasks),
            bindings: binding_entries(self.bindings),
        }
    }
}

impl Registry {
    /// A registry without entries.
    pub fn new() -> (registry: Registry)
        ensures
            registry@ == RegistryView::empty(),
    {
        Registry { tasks: tasks_new(), bindings: bindings_new() }
    }

    /// Enters the task of an upload. An entry that the identity had before
    /// is replaced.
    pub fn register(&mut self, file_id: String, handle: u64)
        ensures
            final(self)@ == old(self)@.register(file_id@, handle),
    {
        tasks_insert(&mut self.tasks, file_id, handle, None);
    }

    /// Records the multipart session of an upload: the session id beside
    /// the task's handle, if the task has an entry, and the binding.
    pub fn record_session(
        &mut self,
        file_id: &str,
        upload_id: String,
        client: u64,
        remote_filename: String,
    )
        ensures
            final(self)@ == old(self)@.record_session(
                file_id@,
                upload_id@,
                client,
                remote_filename@,
            ),
    {
        match tasks_get(&self.tasks, file_id) {
            Some(entry) => {
                tasks_insert(&mut self.tasks, file_id.to_owned(), entry.0, Some(upload_id));
            },
            None => {},
        }
        bindings_insert(&mut self.bindings, file_id.to_owned(), client, remote_filename);
    }

    /// The task entry of an identity: its handle and, once known, its
    /// session id.
    pub fn task(&self, file_id: &str) -> (found: Option<(u64, Option<String>)>)
        ensures
            found is Some <==> self@.tasks.contains_key(file_id@),
            found matches Some(entry) ==> self@.tasks[file_id@] == (entry.0, opt_text(entry.1)),
    {
        tasks_get(&self.tasks, file_id)
    }

    /// The binding of an identity: its client's handle and the object's key.
    pub fn binding(&self, file_id: &str) -> (found: Option<(u64, String)>)
        ensures
            found is Some <==> self@.bindings.contains_key(file_id@),
            found matches Some(entry) ==> self@.bindings[file_id@] == (entry.0, entry.1@),
    {
        bindings_get(&self.bindings, file_id)
    }

    /// Removes both entries of an identity.
    pub fn forget(&mut self, file_id: &str)
        ensures
            final(self)@ == old(self)@.forget(file_id@),
    {
        tasks_remove(&mut self.tasks, file_id);
        bindings_remove(&mut self.bindings, file_id);
    }
}

} // verus!
