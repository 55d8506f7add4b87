//! Starting a batch of uploads, following each of them, cancelling one.
//!
//! All three work on a [`Registry`] that the caller owns. Starting a batch
//! enters every upload in the registry and prepares its task; the caller
//! then runs the tasks. Following an upload keeps the registry in step
//! with the answers of its task: the session goes on record when it is
//! open, and both entries go when the upload ends. Cancelling looks an
//! upload up, says which task to stop and which multipart session to
//! abort, removes the upload from the registry and builds the event to
//! publish.

use crate::progress::{emit_progress, remote_url, spec_remote_url};
use crate::registry::{Registry, RegistryView};
use crate::task::{admissible, Command, CommandView, TaskEventView, TaskView, UploadTask};
use crate::trace::lemma_step;
use crate::typ::{File, UploadHistory, UploadHistoryView, UploadStatus, UploadStatusView};
use vstd::prelude::*;

verus! {

/// One upload of a batch, ready to run.
pub struct Job {
    /// Handle under which the upload's task is entered in the registry.
    pub handle: u64,
    /// Public address of the object once it is stored.
    pub url: String,
    pub task: UploadTask,
}

/// The registry after the first `n` files were entered, file `i` under the
/// handle `first_handle + i`.
pub open spec fn spec_register_all(
    registry: RegistryView,
    files: Seq<File>,
    first_handle: u64,
    n: nat,
) -> RegistryView
    decreases n,
{
    if n == 0 {
        registry
    } else {
        spec_register_all(registry, files, first_handle, (n - 1) as nat).register(
            files[n - 1].id@,
            (first_handle + n - 1) as u64,
        )
    }
}

/// Starts a batch. Every file is entered in the registry, in order, under
/// consecutive handles from `first_handle`, and gets a job with that
/// handle, the object's public address under `domain` and a fresh task.
pub fn r2_upload(registry: &mut Registry, domain: &str, files: &Vec<File>, first_handle: u64) -> (jobs:
    Vec<Job>)
    requires
        first_handle + files@.len() <= u64::MAX,
    ensures
        final(registry)@ == spec_register_all(
            old(registry)@,
            files@,
            first_handle,
            files@.len(),
        ),
        jobs@.len() == files@.len(),
        forall|i: int|
            0 <= i < jobs@.len() ==> {
                &&& (#[trigger] jobs@[i]).handle == first_handle + i
                &&& jobs@[i].url@ == spec_remote_url(domain@, files@[i].remote_filename@)
                &&& jobs@[i].task.wf()
                &&& jobs@[i].task@ == TaskView::initial(files@[i].remote_filename@)
            },
{
    let mut jobs: Vec<Job> = Vec::new();
    let mut i: usize = 0;
    while i < files.len()
        invariant
            first_handle + files@.len() <= u64::MAX,
            i <= files@.len(),
            registry@ == spec_register_all(old(registry)@, files@, first_handle, i as nat),
            jobs@.len() == i,
            forall|j: int|
                0 <= j < i ==> {
                    &&& (#[trigger] jobs@[j]).handle == first_handle + j
                    &&& jobs@[j].url@ == spec_remote_url(domain@, files@[j].remote_filename@)
                    &&& jobs@[j].task.wf()
                    &&& jobs@[j].task@ == TaskView::initial(files@[j].remote_filename@)
                },
        decreases files@.len() - i,
    {
        let file = &files[i];
        let handle: u64 = first_handle + i as u64;
        registry.register(file.id.clone(), handle);
        let url = remote_url(domain, file.remote_filename.as_str());
        let task = UploadTask::new(file.remote_filename.clone());
        jobs.push(Job { handle, url, task });
        i = i + 1;
    }
    jobs
}

/// A multipart session to abort at the store.
#[derive(Debug, Clone, PartialEq, Eq)]
pub struct AbortRequest {
    /// Handle of the client that opened the session.
    pub client: u64,
    pub remote_filename: String,
    pub upload_id: String,
}

/// Mathematical value of an [`AbortRequest`].
pub struct AbortRequestView {
    pub client: u64,
    pub remote_filename: Seq<char>,
    pub upload_id: Seq<char>,
}

impl View for AbortRequest {
    type V = AbortRequestView;

    open spec fn view(&self) -> AbortRequestView {
        AbortRequestView {
            client: self.client,
            remote_filename: self.remote_filename@,
            upload_id: self.upload_id@,
        }
    }
}

/// What the caller is to do for a cancelled upload: stop the task, abort
/// the session if there is one (a failure of that request is ignored), and
/// publish the event.
#[derive(Debug, Clone, PartialEq, Eq)]
pub struct Cancellation {
    pub handle: u64,
    pub abort: Option<AbortRequest>,
    pub event: UploadHistory,
}

/// Mathematical value of a [`Cancellation`].
pub struct CancellationView {
    pub handle: u64,
    pub abort: Option<AbortRequestView>,
    pub event: UploadHistoryView,
}

/// Value of an optional abort request.
pub open spec fn opt_abort(abort: Option<AbortRequest>) -> Option<AbortRequestView> {
    match abort {
        Some(a) => Some(a@),
        None => None,
    }
}

impl View for Cancellation {
    type V = CancellationView;

    open spec fn view(&self) -> CancellationView {
        CancellationView {
            handle: self.handle,
            abort: opt_abort(self.abort),
            event: self.event@,
        }
    }
}

/// The session to abort when `id` is cancelled: the one recorded for it,
/// if a session id and a binding are both on record.
pub open spec fn spec_abort_request(registry: RegistryView, id: Seq<char>) -> Option<
    AbortRequestView,
> {
    if registry.tasks.contains_key(id) && registry.tasks[id].1 is Some
        && registry.bindings.contains_key(id) {
        Some(
            AbortRequestView {
                client: registry.bindings[id].0,
                remote_filename: registry.bindings[id].1,
                upload_id: registry.tasks[id].1->0,
            },
        )
    } else {
        None
    }
}

/// What cancelling `id` at time `timestamp` does to the registry and asks
/// of the caller.
pub open spec fn spec_cancel(registry: RegistryView, id: Seq<char>, timestamp: u64) -> (
    RegistryView,
    Option<CancellationView>,
) {
    if registry.tasks.contains_key(id) {
        let abort = spec_abort_request(registry, id);
        (
            registry.forget(id),
            Some(
                CancellationView {
                    handle: registry.tasks[id].0,
                    abort,
                    event: UploadHistoryView {
                        file_id: id,
                        filename: match abort {
                            Some(a) => a.remote_filename,
                            None => Seq::empty(),
                        },
                        url: Seq::empty(),
                        status: UploadStatusView::Cancelled,
                        timestamp: timestamp as nat,
                    },
                },
            ),
        )
    } else {
        (registry, None)
    }
}

/// Cancels one upload. An identity without a task entry is left alone:
/// nothing changes and there is nothing to do or to publish. Otherwise
/// both entries of the identity are removed and the answer names the task
/// to stop, the session to abort if one is on record, and the `Cancelled`
/// event, which has an empty address and carries the object's key only
/// where a session is aborted.
pub fn r2_cancel_upload(registry: &mut Registry, file_id: String, timestamp: u64) -> (outcome:
    Option<Cancellation>)
    ensures
        final(registry)@ == spec_cancel(old(registry)@, file_id@, timestamp).0,
        outcome is Some <==> old(registry)@.tasks.contains_key(file_id@),
        outcome matches Some(c) ==> Some(c@) == spec_cancel(
            old(registry)@,
            file_id@,
            timestamp,
        ).1,
{
    let task = registry.task(file_id.as_str());
    let binding = registry.binding(file_id.as_str());
    match task {
        None => None,
        Some(entry) => {
            let mut filename = String::new();
            let mut abort: Option<AbortRequest> = None;
            if let Some(upload_id) = entry.1 {
                if let Some(bound) = binding {
                    filename = bound.1.clone();
                    abort =
                    Some(AbortRequest { client: bound.0, remote_filename: bound.1, upload_id });
                }
            }
            registry.forget(file_id.as_str());
            let event = emit_progress(
                String::new(),
                file_id,
                filename,
                UploadStatus::Cancelled,
                timestamp,
            );
            Some(Cancellation { handle: entry.0, abort, event })
        },
    }
}

/// What one answer of an upload's task does to the registry: a session is
/// recorded, unless the upload has been cancelled meanwhile; the end of
/// the upload removes both of its entries; nothing else touches it.
pub open spec fn spec_track(
    registry: RegistryView,
    id: Seq<char>,
    client: u64,
    remote_filename: Seq<char>,
    command: CommandView,
) -> RegistryView {
    match command {
        CommandView::RecordSession { upload_id } => if registry.tasks.contains_key(id) {
            registry.record_session(id, upload_id, client, remote_filename)
        } else {
            registry
        },
        CommandView::Finish => registry.forget(id),
        _ => registry,
    }
}

/// Keeps the registry in step with an upload's task. Called with every
/// answer of the task before the answer's status is published. The result
/// says whether the upload still had its task entry: where it had not, the
/// upload was cancelled, and its task publishes nothing more and stops.
pub fn track(
    registry: &mut Registry,
    file_id: &str,
    client: u64,
    remote_filename: &str,
    command: &Command,
) -> (live: bool)
    ensures
        live == old(registry)@.tasks.contains_key(file_id@),
        final(registry)@ == spec_track(
            old(registry)@,
            file_id@,
            client,
            remote_filename@,
            command@,
        ),
{
    let live = registry.task(file_id).is_some();
    match command {
        Command::RecordSession { upload_id } => {
            if live {
                registry.record_session(
                    file_id,
                    upload_id.clone(),
                    client,
                    remote_filename.to_owned(),
                );
            }
        },
        Command::Finish => {
            registry.forget(file_id);
        },
        _ => {},
    }
    live
}

/// Every binding belongs to an upload that has a task entry.
pub open spec fn bound_tasks_only(registry: RegistryView) -> bool {
    forall|id: Seq<char>| #[trigger]
        registry.bindings.contains_key(id) ==> registry.tasks.contains_key(id)
}

/// A registry that is filled by batches, kept by `track` and emptied by
/// cancellations never holds a binding without its task entry.
pub proof fn lemma_bindings_belong_to_tasks(
    registry: RegistryView,
    id: Seq<char>,
    handle: u64,
    client: u64,
    remote_filename: Seq<char>,
    command: CommandView,
    timestamp: u64,
)
    requires
        bound_tasks_only(registry),
    ensures
        bound_tasks_only(RegistryView::empty()),
        bound_tasks_only(registry.register(id, handle)),
        bound_tasks_only(spec_track(registry, id, client, remote_filename, command)),
        bound_tasks_only(spec_cancel(registry, id, timestamp).0),
{
    let kept = spec_track(registry, id, client, remote_filename, command);
    assert forall|k: Seq<char>| #[trigger]
        kept.bindings.contains_key(k) implies kept.tasks.contains_key(k) by {
        if k != id {
            assert(registry.bindings.contains_key(k));
        }
    }
    let cancelled = spec_cancel(registry, id, timestamp).0;
    assert forall|k: Seq<char>| #[trigger]
        cancelled.bindings.contains_key(k) implies cancelled.tasks.contains_key(k) by {
        assert(registry.bindings.contains_key(k));
    }
    let registered = registry.register(id, handle);
    assert forall|k: Seq<char>| #[trigger]
        registered.bindings.contains_key(k) implies registered.tasks.contains_key(k) by {
        assert(registry.bindings.contains_key(k));
    }
}

/// An upload that has ended cannot be cancelled any more: once the answer
/// that carries a terminal status has been kept, cancelling the upload
/// changes nothing, stops nothing, aborts nothing and publishes nothing.
pub proof fn lemma_no_cancel_after_the_end(
    task: TaskView,
    event: TaskEventView,
    registry: RegistryView,
    id: Seq<char>,
    client: u64,
    remote_filename: Seq<char>,
    timestamp: u64,
)
    requires
        task.wf(),
        admissible(event),
        task.step(event).1.status matches Some(s) && s.is_terminal(),
    ensures
        task.step(event).1.command is Finish,
        ({
            let kept = spec_track(
                registry,
                id,
                client,
                remote_filename,
                task.step(event).1.command,
            );
            spec_cancel(kept, id, timestamp) == (kept, None::<CancellationView>)
        }),
{
    lemma_step(task, event);
}

/// An upload that was cancelled is no longer live: its task finds no entry
/// and publishes nothing more.
pub proof fn lemma_cancelled_upload_is_not_live(
    registry: RegistryView,
    id: Seq<char>,
    timestamp: u64,
)
    ensures
        !spec_cancel(registry, id, timestamp).0.tasks.contains_key(id),
{
}

/// Cancelling an upload whose multipart session is on record asks for the
/// abort of exactly that session: the id that was recorded, under the key
/// that was recorded, through the client that was recorded.
pub proof fn lemma_cancel_aborts_recorded_session(
    registry: RegistryView,
    id: Seq<char>,
    handle: u64,
    upload_id: Seq<char>,
    client: u64,
    remote_filename: Seq<char>,
    timestamp: u64,
)
    ensures
        ({
            let recorded = registry.register(id, handle).record_session(
                id,
                upload_id,
                client,
                remote_filename,
            );
            &&& spec_cancel(recorded, id, timestamp).1 matches Some(c)
            &&& c.handle == handle
            &&& c.abort == Some(AbortRequestView { client, remote_filename, upload_id })
            &&& c.event.status is Cancelled
            &&& !spec_cancel(recorded, id, timestamp).0.tasks.contains_key(id)
            &&& !spec_cancel(recorded, id, timestamp).0.bindings.contains_key(id)
        }),
{
}

/// Cancelling an identity that has no task entry changes nothing and
/// publishes nothing; so does cancelling an upload a second time.
pub proof fn lemma_cancel_unknown_is_silent(registry: RegistryView, id: Seq<char>, timestamp: u64)
    ensures
        !registry.tasks.contains_key(id) ==> spec_cancel(registry, id, timestamp) == (
            registry,
            None::<CancellationView>,
        ),
        spec_cancel(spec_cancel(registry, id, timestamp).0, id, timestamp).1 is None,
        spec_cancel(RegistryView::empty(), id, timestamp).1 is None,
{
}

/// Cancelling one upload leaves the entries of every other upload as they
/// were.
pub proof fn lemma_cancel_spares_others(
    registry: RegistryView,
    id: Seq<char>,
    other: Seq<char>,
    timestamp: u64,
)
    requires
        other != id,
    ensures
        spec_cancel(registry, id, timestamp).0.tasks.contains_key(other)
            == registry.tasks.contains_key(other),
        registry.tasks.contains_key(other) ==> spec_cancel(registry, id, timestamp).0.tasks[other]
            == registry.tasks[other],
        spec_cancel(registry, id, timestamp).0.bindings.contains_key(other)
            == registry.bindings.contains_key(other),
        registry.bindings.contains_key(other) ==> spec_cancel(
            registry,
            id,
            timestamp,
        ).0.bindings[other] == registry.bindings[other],
{
}

} // verus!
