//! What holds of every history of an upload task.
//!
//! A history is a sequence of events fed to a task one after the other.
//! The statements here are about all histories: the cap on parts in
//! flight, the order and range of the progress that is published, the
//! silence after the end, and what is handed over for assembly.

use crate::chunk::{
    lemma_part_count_bounded, lemma_prefix_of_all_parts, spec_part_count, spec_part_len,
    CHUNK_SIZE, MAX_CONCURRENT_TASKS,
};
use crate::client::guessed_content_type;
use crate::task::{
    acked, admissible, lemma_acked_bounds, lemma_fill_slot, lemma_push_empty_slot, pending,
    CommandView, Phase, StepView, TaskEventView, TaskView,
};
use crate::typ::UploadStatusView;
use vstd::prelude::*;

verus! {

/// The task that `start` becomes when it takes `events` in order.
pub open spec fn run(start: TaskView, events: Seq<TaskEventView>) -> TaskView
    decreases events.len(),
{
    if events.len() == 0 {
        start
    } else {
        run(start, events.drop_last()).step(events.last()).0
    }
}

/// The task just before it takes event `k` of `events`.
pub open spec fn state_before(start: TaskView, events: Seq<TaskEventView>, k: int) -> TaskView {
    run(start, events.take(k))
}

/// The task's answer to event `k` of `events`.
pub open spec fn answer(start: TaskView, events: Seq<TaskEventView>, k: int) -> StepView {
    state_before(start, events, k).step(events[k]).1
}

/// Every event of the history is one that a task can take.
pub open spec fn all_admissible(events: Seq<TaskEventView>) -> bool {
    forall|k: int| 0 <= k < events.len() ==> admissible(#[trigger] events[k])
}

/// The answer that changes nothing.
pub open spec fn silent() -> StepView {
    StepView { status: None, command: CommandView::Ignored }
}

/// The answer that ends an upload: a terminal status and nothing left to do.
pub open spec fn ends_upload(step: StepView) -> bool {
    &&& step.command is Finish
    &&& step.status matches Some(s)
    &&& s.is_terminal()
}

/// The state before event `k + 1` is the state before event `k` after one step.
pub proof fn lemma_state_unfold(start: TaskView, events: Seq<TaskEventView>, k: int)
    requires
        0 <= k < events.len(),
    ensures
        state_before(start, events, k + 1) == state_before(start, events, k).step(events[k]).0,
        state_before(start, events, 0) == start,
        state_before(start, events, events.len() as int) == run(start, events),
{
    assert(events.take(k + 1).drop_last() =~= events.take(k));
    assert(events.take(k + 1).last() == events[k]);
    assert(events.take(events.len() as int) =~= events);
}

proof fn lemma_advance(s: TaskView, status: Option<UploadStatusView>)
    requires
        s.wf(),
        s.phase is Streaming,
    ensures
        s.advance(status).0.wf(),
        s.advance(status).0.sent == s.sent,
        s.advance(status).0.total == s.total,
        s.advance(status).1.status == status,
        s.advance(status).1.command matches CommandView::UploadPart { chunk } ==> s.advance(
            status,
        ).0.awaits(chunk.part_number as int),
{
    lemma_push_empty_slot(s.total, s.slots);
    lemma_part_count_bounded(s.total);
}

/// One step keeps a task well formed. It never lowers the bytes
/// acknowledged, and a progress status that it publishes reports exactly
/// the bytes acknowledged after the step, out of the size of the source.
pub proof fn lemma_step(s: TaskView, event: TaskEventView)
    requires
        s.wf(),
        admissible(event),
    ensures
        s.step(event).0.wf(),
        s.sent <= s.step(event).0.sent,
        s.step(event).0.in_flight <= MAX_CONCURRENT_TASKS,
        s.step(event).1.status matches Some(
            UploadStatusView::Uploading { bytes_uploaded, total_bytes, .. },
        ) ==> bytes_uploaded == s.step(event).0.sent && total_bytes == s.step(event).0.total
            && bytes_uploaded <= total_bytes,
        s.step(event).1.status matches Some(status) ==> (status.is_terminal() <==> s.step(
            event,
        ).0.phase is Finished),
        s.step(event).1.command is Finish <==> ends_upload(s.step(event).1),
        s.step(event).1.command is Finish ==> s.step(event).0.phase is Finished,
        s.step(event).1.command matches CommandView::UploadPart { chunk } ==> s.step(
            event,
        ).0.awaits(chunk.part_number as int),
{
    match event {
        TaskEventView::SessionRecorded => {
            if s.phase is Registering {
                lemma_advance(TaskView { phase: Phase::Streaming, ..s }, None);
            }
        },
        TaskEventView::PartStarted => {
            if s.phase is Streaming {
                lemma_advance(s, None);
            }
        },
        TaskEventView::PartDone { part_number, e_tag, elapsed_nanos } => {
            if s.phase is Streaming && s.awaits(part_number) {
                if let Some(tag) = e_tag {
                    let filled = s.slots.update(part_number - 1, Some(tag));
                    let sent = s.sent + spec_part_len(s.total, part_number);
                    let next = TaskView {
                        slots: filled,
                        in_flight: (s.in_flight - 1) as nat,
                        sent,
                        ..s
                    };
                    lemma_fill_slot(s.total, s.slots, part_number - 1, tag);
                    lemma_acked_bounds(s.total, filled);
                    lemma_advance(
                        next,
                        Some(
                            UploadStatusView::Uploading {
                                bytes_uploaded: sent,
                                total_bytes: s.total,
                                elapsed_nanos,
                            },
                        ),
                    );
                }
            }
        },
        _ => {},
    }
}

/// Every task reached from a well-formed one is well formed, and the bytes
/// acknowledged only grow along a history.
pub proof fn lemma_run(start: TaskView, events: Seq<TaskEventView>, i: int, j: int)
    requires
        start.wf(),
        all_admissible(events),
        0 <= i <= j <= events.len(),
    ensures
        state_before(start, events, i).wf(),
        state_before(start, events, j).wf(),
        state_before(start, events, i).sent <= state_before(start, events, j).sent,
    decreases j,
{
    if j == 0 {
        assert(events.take(0) =~= Seq::empty());
    } else if i == j {
        lemma_run(start, events, i - 1, j - 1);
        lemma_state_unfold(start, events, j - 1);
        lemma_step(state_before(start, events, j - 1), events[j - 1]);
    } else {
        lemma_run(start, events, i, j - 1);
        lemma_state_unfold(start, events, j - 1);
        lemma_step(state_before(start, events, j - 1), events[j - 1]);
    }
}

/// At no point of a history are more than [`MAX_CONCURRENT_TASKS`] parts in
/// flight: the count of parts handed out and not yet answered stays at or
/// below the cap, and a part counts from the moment it is handed out.
pub proof fn lemma_concurrency_cap(key: Seq<char>, events: Seq<TaskEventView>, k: int)
    requires
        all_admissible(events),
        0 <= k < events.len(),
    ensures
        state_before(TaskView::initial(key), events, k).in_flight <= MAX_CONCURRENT_TASKS,
        state_before(TaskView::initial(key), events, k).in_flight == pending(
            state_before(TaskView::initial(key), events, k).slots,
        ),
        run(TaskView::initial(key), events).in_flight <= MAX_CONCURRENT_TASKS,
        answer(TaskView::initial(key), events, k).command matches CommandView::UploadPart {
            chunk,
        } ==> state_before(TaskView::initial(key), events, k + 1).awaits(
            chunk.part_number as int,
        ),
        state_before(TaskView::initial(key), events, k + 1).in_flight <= MAX_CONCURRENT_TASKS,
{
    let start = TaskView::initial(key);
    lemma_run(start, events, k, events.len() as int);
    lemma_state_unfold(start, events, k);
    lemma_step(state_before(start, events, k), events[k]);
}

/// Progress never goes back and never leaves the range from 0 to 1: of two
/// progress statuses published in one history the later reports at least
/// as many bytes as the earlier, and each reports at most the size of the
/// source.
pub proof fn lemma_progress_monotone(
    key: Seq<char>,
    events: Seq<TaskEventView>,
    i: int,
    j: int,
)
    requires
        all_admissible(events),
        0 <= i <= j < events.len(),
        answer(TaskView::initial(key), events, i).status matches Some(s) && s is Uploading,
        answer(TaskView::initial(key), events, j).status matches Some(s) && s is Uploading,
    ensures
        answer(TaskView::initial(key), events, i).status->0->bytes_uploaded <= answer(
            TaskView::initial(key),
            events,
            j,
        ).status->0->bytes_uploaded,
        answer(TaskView::initial(key), events, i).status->0.progress_in_unit_interval(),
        answer(TaskView::initial(key), events, j).status->0.progress_in_unit_interval(),
{
    let start = TaskView::initial(key);
    lemma_run(start, events, i, j);
    lemma_state_unfold(start, events, i);
    lemma_state_unfold(start, events, j);
    lemma_step(state_before(start, events, i), events[i]);
    lemma_step(state_before(start, events, j), events[j]);
    if i < j {
        lemma_run(start, events, i + 1, j);
    }
}

/// A finished task ignores every event.
pub proof fn lemma_finished_is_final(s: TaskView, event: TaskEventView)
    requires
        s.phase is Finished,
    ensures
        s.step(event) == (s, silent()),
{
}

proof fn lemma_finished_stays(start: TaskView, events: Seq<TaskEventView>, i: int, j: int)
    requires
        0 <= i <= j <= events.len(),
        state_before(start, events, i).phase is Finished,
    ensures
        state_before(start, events, j) == state_before(start, events, i),
    decreases j - i,
{
    if i < j {
        lemma_finished_stays(start, events, i, j - 1);
        lemma_state_unfold(start, events, j - 1);
    }
}

/// An upload has one end: once success or an error has been published,
/// every later event is ignored and nothing more is published.
pub proof fn lemma_silence_after_the_end(
    key: Seq<char>,
    events: Seq<TaskEventView>,
    i: int,
    j: int,
)
    requires
        all_admissible(events),
        0 <= i < j < events.len(),
        answer(TaskView::initial(key), events, i).status matches Some(s) && s.is_terminal(),
    ensures
        answer(TaskView::initial(key), events, j) == silent(),
{
    let start = TaskView::initial(key);
    lemma_run(start, events, i, j);
    lemma_state_unfold(start, events, i);
    lemma_step(state_before(start, events, i), events[i]);
    lemma_finished_stays(start, events, i + 1, j);
}

/// What is handed over for assembly is the whole file: one part for each
/// part of the file, in ascending order of part numbers from 1 without gap
/// or repeat, each with the tag that the store gave it, and their lengths
/// add up to the size of the file.
pub proof fn lemma_complete_names_every_part(s: TaskView, event: TaskEventView)
    requires
        s.wf(),
        admissible(event),
        s.step(event).1.command is Complete,
    ensures
        s.step(event).1.command->Complete_upload_id == s.upload_id,
        s.step(event).1.command->Complete_parts.len() == spec_part_count(s.total),
        s.total >= CHUNK_SIZE,
        forall|i: int|
            0 <= i < spec_part_count(s.total) ==> (#[trigger] s.step(
                event,
            ).1.command->Complete_parts[i]).part_number == i + 1,
        forall|i: int|
            0 <= i < spec_part_count(s.total) ==> s.step(event).0.slots[i] == Some(
                (#[trigger] s.step(event).1.command->Complete_parts[i]).e_tag,
            ),
        acked(s.total, s.step(event).0.slots) == s.total,
        s.step(event).0.sent == s.total,
{
    lemma_step(s, event);
    let after = s.step(event).0;
    lemma_acked_bounds(after.total, after.slots);
    lemma_prefix_of_all_parts(after.total);
}

/// A file below the chunk size, and inline content of any size, take one
/// request: the first answer publishes progress 0 of the full size and
/// asks for that request, and its success publishes `Success` and ends the
/// upload.
pub proof fn lemma_single_put(key: Seq<char>, size: nat, inline: bool)
    requires
        inline || size < CHUNK_SIZE,
    ensures
        ({
            let first = if inline {
                TaskEventView::ContentReady { len: size }
            } else {
                TaskEventView::FileOpened { size }
            };
            let events = seq![first, TaskEventView::PutDone];
            let start = TaskView::initial(key);
            &&& answer(start, events, 0) == (StepView {
                status: Some(
                    UploadStatusView::Uploading {
                        bytes_uploaded: 0,
                        total_bytes: size,
                        elapsed_nanos: 0,
                    },
                ),
                command: CommandView::PutObject { content_type: guessed_content_type(key) },
            })
            &&& answer(start, events, 1) == (StepView {
                status: Some(UploadStatusView::Success),
                command: CommandView::Finish,
            })
            &&& run(start, events).phase is Finished
        }),
{
    let first = if inline {
        TaskEventView::ContentReady { len: size }
    } else {
        TaskEventView::FileOpened { size }
    };
    let events = seq![first, TaskEventView::PutDone];
    let start = TaskView::initial(key);
    lemma_state_unfold(start, events, 0);
    lemma_state_unfold(start, events, 1);
}

/// However a single-request upload goes on after its first event, it
/// publishes no second progress status and never asks for a second
/// request: every later answer is silent or ends the upload.
pub proof fn lemma_single_put_asks_once(
    key: Seq<char>,
    size: nat,
    inline: bool,
    events: Seq<TaskEventView>,
    k: int,
)
    requires
        inline || size < CHUNK_SIZE,
        events.len() > 0,
        events[0] == if inline {
            TaskEventView::ContentReady { len: size }
        } else {
            TaskEventView::FileOpened { size }
        },
        0 < k < events.len(),
    ensures
        answer(TaskView::initial(key), events, k) == silent() || ends_upload(
            answer(TaskView::initial(key), events, k),
        ),
{
    lemma_single_put_phase(key, size, inline, events, k);
}

proof fn lemma_single_put_phase(
    key: Seq<char>,
    size: nat,
    inline: bool,
    events: Seq<TaskEventView>,
    k: int,
)
    requires
        inline || size < CHUNK_SIZE,
        events.len() > 0,
        events[0] == if inline {
            TaskEventView::ContentReady { len: size }
        } else {
            TaskEventView::FileOpened { size }
        },
        0 < k <= events.len(),
    ensures
        state_before(TaskView::initial(key), events, k).phase is Putting || state_before(
            TaskView::initial(key),
            events,
            k,
        ).phase is Finished,
    decreases k,
{
    let start = TaskView::initial(key);
    lemma_state_unfold(start, events, k - 1);
    if k > 1 {
        lemma_single_put_phase(key, size, inline, events, k - 1);
    }
}

} // verus!
