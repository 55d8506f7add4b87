//! One upload as a state machine.
//!
//! The caller owns the file, the network and the clock. It tells the task
//! what happened ([`TaskEvent`]) and the task answers with the status to
//! publish, if any, and the next thing to do ([`Command`]). A file below the
//! chunk size and inline content travel in one request; a larger file goes
//! through a multipart session whose parts are handed out in file order, at
//! most [`MAX_CONCURRENT_TASKS`] of them in flight at a time.

use crate::chunk::{
    chunk_at, choose_strategy, lemma_part_count_bounded, lemma_part_len_bounds, part_count,
    spec_chunk, spec_part_count, spec_part_len, spec_prefix_bytes, spec_strategy, Chunk, Strategy,
    CHUNK_SIZE, MAX_CONCURRENT_TASKS, MAX_FILE_SIZE, MAX_PARTS,
};
use crate::client::{
    content_type, guessed_content_type, part_from_response, spec_missing_e_tag,
    spec_missing_upload_id, upload_id_from_response, CompletedPart, ErrorKind, PartView,
    UploadError, UploadErrorView,
};
use crate::typ::{opt_text, UploadStatus, UploadStatusView};
use vstd::prelude::*;

verus! {

/// Where an upload stands.
#[derive(Debug, Clone, Copy, PartialEq, Eq, Structural)]
pub enum Phase {
    /// Nothing is known of the source yet.
    Idle,
    /// The one request that carries the whole object is under way.
    Putting,
    /// The request that opens the multipart session is under way.
    Creating,
    /// The session exists and is being entered in the registry.
    Registering,
    /// Parts are being read and uploaded.
    Streaming,
    /// All parts are acknowledged; the request that assembles them is under way.
    Completing,
    /// The upload has ended, well or badly.
    Finished,
}

/// What the caller reports to a task.
#[derive(Debug, Clone, PartialEq, Eq)]
pub enum TaskEvent {
    /// The source is text in memory, `len` bytes long.
    ContentReady { len: u64 },
    /// The source file is open and `size` bytes long.
    FileOpened { size: u64 },
    /// The store accepted the whole object.
    PutDone,
    /// The store answered the request for a multipart session.
    SessionCreated { upload_id: Option<String> },
    /// The session has been entered in the registry.
    SessionRecorded,
    /// The part last handed out has been read and its upload started.
    PartStarted,
    /// The store answered the upload of one part.
    PartDone { part_number: i32, e_tag: Option<String>, elapsed_nanos: u64 },
    /// The store assembled the object.
    Completed,
    /// Reading the source or talking to the store failed.
    Failed { error: UploadError },
}

/// Mathematical value of a [`TaskEvent`].
pub enum TaskEventView {
    ContentReady { len: nat },
    FileOpened { size: nat },
    PutDone,
    SessionCreated { upload_id: Option<Seq<char>> },
    SessionRecorded,
    PartStarted,
    PartDone { part_number: int, e_tag: Option<Seq<char>>, elapsed_nanos: nat },
    Completed,
    Failed { error: UploadErrorView },
}

/// Value of an optional status.
pub open spec fn opt_status(status: Option<UploadStatus>) -> Option<UploadStatusView> {
    match status {
        Some(s) => Some(s@),
        None => None,
    }
}

/// Value of a list of parts.
pub open spec fn parts_view(parts: Seq<CompletedPart>) -> Seq<PartView> {
    Seq::new(parts.len(), |i: int| parts[i]@)
}

/// Value of a list of part slots.
pub open spec fn slots_view(slots: Seq<Option<String>>) -> Seq<Option<Seq<char>>> {
    Seq::new(slots.len(), |i: int| opt_text(slots[i]))
}

impl View for TaskEvent {
    type V = TaskEventView;

    open spec fn view(&self) -> TaskEventView {
        match *self {
            TaskEvent::ContentReady { len } => TaskEventView::ContentReady { len: len as nat },
            TaskEvent::FileOpened { size } => TaskEventView::FileOpened { size: size as nat },
            TaskEvent::PutDone => TaskEventView::PutDone,
            TaskEvent::SessionCreated { upload_id } => TaskEventView::SessionCreated {
                upload_id: opt_text(upload_id),
            },
            TaskEvent::SessionRecorded => TaskEventView::SessionRecorded,
            TaskEvent::PartStarted => TaskEventView::PartStarted,
            TaskEvent::PartDone { part_number, e_tag, elapsed_nanos } => TaskEventView::PartDone {
                part_number: part_number as int,
                e_tag: opt_text(e_tag),
                elapsed_nanos: elapsed_nanos as nat,
            },
            TaskEvent::Completed => TaskEventView::Completed,
            TaskEvent::Failed { error } => TaskEventView::Failed { error: error@ },
        }
    }
}

/// Message of the error for a file with more parts than can be numbered.
pub open spec fn spec_too_many_parts() -> Seq<char> {
    "File is too large to upload in parts"@
}

impl TaskEvent {
    /// The event for a source file that was opened and is `size` bytes
    /// long: `FileOpened`, or a validation failure where the file has more
    /// parts than can be numbered. Either way a task can take the event.
    pub fn file_opened(size: u64) -> (event: TaskEvent)
        ensures
            admissible(event@),
            size <= MAX_FILE_SIZE ==> event@ == (TaskEventView::FileOpened { size: size as nat }),
            size > MAX_FILE_SIZE ==> event@ == (TaskEventView::Failed {
                error: UploadErrorView {
                    kind: ErrorKind::Validation,
                    message: spec_too_many_parts(),
                },
            }),
    {
        if size <= MAX_FILE_SIZE {
            TaskEvent::FileOpened { size }
        } else {
            TaskEvent::Failed {
                error: UploadError {
                    kind: ErrorKind::Validation,
                    message: "File is too large to upload in parts".to_owned(),
                },
            }
        }
    }
}

/// What the caller is to do next.
#[derive(Debug, Clone, PartialEq, Eq)]
pub enum Command {
    /// The event did not fit the task's phase and changed nothing.
    Ignored,
    /// Send the whole object in one request; answer with `PutDone`.
    PutObject { content_type: String },
    /// Open a multipart session; answer with `SessionCreated`.
    CreateMultipart { content_type: String },
    /// The session is open and goes on record in the registry; answer
    /// with `SessionRecorded`.
    RecordSession { upload_id: String },
    /// Read this byte range and start uploading it as this part; answer
    /// with `PartStarted`, and with `PartDone` once the store has answered.
    UploadPart { chunk: Chunk },
    /// Wait until the store has answered for one of the parts in flight.
    AwaitPart,
    /// Assemble the object from these parts; answer with `Completed`.
    Complete { upload_id: String, parts: Vec<CompletedPart> },
    /// The upload is over: remove it from the registry.
    Finish,
}

/// Mathematical value of a [`Command`].
pub enum CommandView {
    Ignored,
    PutObject { content_type: Seq<char> },
    CreateMultipart { content_type: Seq<char> },
    RecordSession { upload_id: Seq<char> },
    UploadPart { chunk: Chunk },
    AwaitPart,
    Complete { upload_id: Seq<char>, parts: Seq<PartView> },
    Finish,
}

impl View for Command {
    type V = CommandView;

    open spec fn view(&self) -> CommandView {
        match *self {
            Command::Ignored => CommandView::Ignored,
            Command::PutObject { content_type } => CommandView::PutObject {
                content_type: content_type@,
            },
            Command::CreateMultipart { content_type } => CommandView::CreateMultipart {
                content_type: content_type@,
            },
            Command::RecordSession { upload_id } => CommandView::RecordSession {
                upload_id: upload_id@,
            },
            Command::UploadPart { chunk } => CommandView::UploadPart { chunk },
            Command::AwaitPart => CommandView::AwaitPart,
            Command::Complete { upload_id, parts } => CommandView::Complete {
                upload_id: upload_id@,
                parts: parts_view(parts@),
            },
            Command::Finish => CommandView::Finish,
        }
    }
}

/// The task's answer to one event.
#[derive(Debug, Clone, PartialEq, Eq)]
pub struct Step {
    /// The status to publish, if the event changed it.
    pub status: Option<UploadStatus>,
    pub command: Command,
}

/// Mathematical value of a [`Step`].
pub struct StepView {
    pub status: Option<UploadStatusView>,
    pub command: CommandView,
}

impl View for Step {
    type V = StepView;

    open spec fn view(&self) -> StepView {
        StepView { status: opt_status(self.status), command: self.command@ }
    }
}

/// Code of every error status.
pub open spec fn spec_error_code() -> Seq<char> {
    "UPLOAD_ERROR"@
}

/// Number of parts handed out and not yet acknowledged.
pub open spec fn pending(slots: Seq<Option<Seq<char>>>) -> nat
    decreases slots.len(),
{
    if slots.len() == 0 {
        0
    } else {
        pending(slots.drop_last()) + if slots.last() is None {
            1nat
        } else {
            0nat
        }
    }
}

/// Bytes of the acknowledged parts of a file of `total` bytes.
pub open spec fn acked(total: nat, slots: Seq<Option<Seq<char>>>) -> nat
    decreases slots.len(),
{
    if slots.len() == 0 {
        0
    } else {
        acked(total, slots.drop_last()) + if slots.last() is Some {
            spec_part_len(total, slots.len() as int)
        } else {
            0nat
        }
    }
}

/// The parts in the order of their numbers, each with the tag in its slot.
pub open spec fn assembled(slots: Seq<Option<Seq<char>>>) -> Seq<PartView> {
    Seq::new(
        slots.len(),
        |i: int|
            PartView {
                part_number: i + 1,
                e_tag: match slots[i] {
                    Some(tag) => tag,
                    None => Seq::empty(),
                },
            },
    )
}

/// Mathematical value of an [`UploadTask`].
pub struct TaskView {
    pub phase: Phase,
    /// Key under which the object is stored.
    pub key: Seq<char>,
    /// Size of the source in bytes.
    pub total: nat,
    /// Id of the multipart session, empty before there is one.
    pub upload_id: Seq<char>,
    /// One slot per part handed out, in the order of the part numbers:
    /// empty while the part is in flight, then its entity tag.
    pub slots: Seq<Option<Seq<char>>>,
    /// Number of parts in flight.
    pub in_flight: nat,
    /// Bytes acknowledged by the store.
    pub sent: nat,
}

impl TaskView {
    /// A task before its first event.
    pub open spec fn initial(key: Seq<char>) -> TaskView {
        TaskView {
            phase: Phase::Idle,
            key,
            total: 0,
            upload_id: Seq::empty(),
            slots: Seq::empty(),
            in_flight: 0,
            sent: 0,
        }
    }

    /// What holds of every task that was reached from `initial`.
    pub open spec fn wf(self) -> bool {
        &&& self.slots.len() <= spec_part_count(self.total)
        &&& self.in_flight == pending(self.slots)
        &&& self.in_flight <= MAX_CONCURRENT_TASKS
        &&& self.sent == acked(self.total, self.slots)
        &&& self.sent <= self.total
        &&& self.phase is Idle ==> self.total == 0
        &&& (self.phase is Idle || self.phase is Putting || self.phase is Creating
            || self.phase is Registering) ==> self.slots.len() == 0
        &&& (self.phase is Creating || self.phase is Registering || self.phase is Streaming
            || self.phase is Completing) ==> CHUNK_SIZE <= self.total <= MAX_FILE_SIZE
        &&& self.slots.len() > 0 ==> self.total <= MAX_FILE_SIZE
        &&& self.phase is Completing ==> self.slots.len() == spec_part_count(self.total)
            && self.in_flight == 0
    }

    /// An event that does not fit the phase changes nothing.
    pub open spec fn ignore(self) -> (TaskView, StepView) {
        (self, StepView { status: None, command: CommandView::Ignored })
    }

    /// The upload ends with `status`.
    pub open spec fn finish(self, status: UploadStatusView) -> (TaskView, StepView) {
        (
            TaskView { phase: Phase::Finished, ..self },
            StepView { status: Some(status), command: CommandView::Finish },
        )
    }

    /// The upload ends with an error status that carries `message`.
    pub open spec fn fail(self, message: Seq<char>) -> (TaskView, StepView) {
        self.finish(UploadStatusView::Error { message, code: spec_error_code() })
    }

    /// The size of the source is known: publish progress 0 and send the
    /// first request.
    pub open spec fn begin(self, size: nat, strategy: Strategy) -> (TaskView, StepView) {
        let status = UploadStatusView::Uploading {
            bytes_uploaded: 0,
            total_bytes: size,
            elapsed_nanos: 0,
        };
        let content_type = guessed_content_type(self.key);
        match strategy {
            Strategy::SinglePut => (
                TaskView { phase: Phase::Putting, total: size, ..self },
                StepView { status: Some(status), command: CommandView::PutObject { content_type } },
            ),
            Strategy::Multipart => (
                TaskView { phase: Phase::Creating, total: size, ..self },
                StepView {
                    status: Some(status),
                    command: CommandView::CreateMultipart { content_type },
                },
            ),
        }
    }

    /// A part is left to hand out and a slot is free for it.
    pub open spec fn can_dispatch(self) -> bool {
        self.slots.len() < spec_part_count(self.total) && self.in_flight < MAX_CONCURRENT_TASKS
    }

    /// Part `number` was handed out and the store has not answered for it.
    pub open spec fn awaits(self, number: int) -> bool {
        1 <= number <= self.slots.len() && self.slots[number - 1] is None
    }

    /// While streaming: hand out the next part if one is left and fewer
    /// than the cap are in flight; else wait for a part in flight; else
    /// assemble.
    pub open spec fn advance(self, status: Option<UploadStatusView>) -> (TaskView, StepView) {
        if self.can_dispatch() {
            (
                TaskView {
                    slots: self.slots.push(None),
                    in_flight: self.in_flight + 1,
                    ..self
                },
                StepView {
                    status,
                    command: CommandView::UploadPart {
                        chunk: spec_chunk(self.total, self.slots.len() as int + 1),
                    },
                },
            )
        } else if self.in_flight > 0 {
            (self, StepView { status, command: CommandView::AwaitPart })
        } else {
            (
                TaskView { phase: Phase::Completing, ..self },
                StepView {
                    status,
                    command: CommandView::Complete {
                        upload_id: self.upload_id,
                        parts: assembled(self.slots),
                    },
                },
            )
        }
    }

    /// The store acknowledged part `number` with `tag`: fill its slot, count
    /// its bytes, publish the progress and go on.
    pub open spec fn acknowledge(self, number: int, tag: Seq<char>, elapsed_nanos: nat) -> (
        TaskView,
        StepView,
    ) {
        let sent = self.sent + spec_part_len(self.total, number);
        let next = TaskView {
            slots: self.slots.update(number - 1, Some(tag)),
            in_flight: (self.in_flight - 1) as nat,
            sent,
            ..self
        };
        next.advance(
            Some(
                UploadStatusView::Uploading {
                    bytes_uploaded: sent,
                    total_bytes: self.total,
                    elapsed_nanos,
                },
            ),
        )
    }

    /// The task after `event`, and its answer.
    pub open spec fn step(self, event: TaskEventView) -> (TaskView, StepView) {
        match event {
            TaskEventView::ContentReady { len } => if self.phase is Idle {
                self.begin(len, Strategy::SinglePut)
            } else {
                self.ignore()
            },
            TaskEventView::FileOpened { size } => if self.phase is Idle {
                self.begin(size, spec_strategy(size))
            } else {
                self.ignore()
            },
            TaskEventView::PutDone => if self.phase is Putting {
                self.finish(UploadStatusView::Success)
            } else {
                self.ignore()
            },
            TaskEventView::SessionCreated { upload_id } => if self.phase is Creating {
                match upload_id {
                    Some(id) => (
                        TaskView { phase: Phase::Registering, upload_id: id, ..self },
                        StepView {
                            status: None,
                            command: CommandView::RecordSession { upload_id: id },
                        },
                    ),
                    None => self.fail(spec_missing_upload_id()),
                }
            } else {
                self.ignore()
            },
            TaskEventView::SessionRecorded => if self.phase is Registering {
                TaskView { phase: Phase::Streaming, ..self }.advance(None)
            } else {
                self.ignore()
            },
            TaskEventView::PartStarted => if self.phase is Streaming {
                self.advance(None)
            } else {
                self.ignore()
            },
            TaskEventView::PartDone { part_number, e_tag, elapsed_nanos } => if self.phase
                is Streaming && self.awaits(part_number) {
                match e_tag {
                    Some(tag) => self.acknowledge(part_number, tag, elapsed_nanos),
                    None => self.fail(spec_missing_e_tag()),
                }
            } else {
                self.ignore()
            },
            TaskEventView::Completed => if self.phase is Completing {
                self.finish(UploadStatusView::Success)
            } else {
                self.ignore()
            },
            TaskEventView::Failed { error } => if self.phase is Finished {
                self.ignore()
            } else {
                self.fail(error.message)
            },
        }
    }
}

/// An event that a task can take: a file must be small enough for its part
/// numbers to fit.
pub open spec fn admissible(event: TaskEventView) -> bool {
    event matches TaskEventView::FileOpened { size } ==> size <= MAX_FILE_SIZE
}

/// Handing out a part adds one to the parts in flight and no bytes.
pub proof fn lemma_push_empty_slot(total: nat, slots: Seq<Option<Seq<char>>>)
    ensures
        pending(slots.push(None)) == pending(slots) + 1,
        acked(total, slots.push(None)) == acked(total, slots),
{
    assert(slots.push(None).drop_last() =~= slots);
}

/// Filling an empty slot takes one from the parts in flight and adds the
/// part's bytes.
pub proof fn lemma_fill_slot(total: nat, slots: Seq<Option<Seq<char>>>, i: int, tag: Seq<char>)
    requires
        0 <= i < slots.len(),
        slots[i] is None,
    ensures
        pending(slots.update(i, Some(tag))) + 1 == pending(slots),
        acked(total, slots.update(i, Some(tag))) == acked(total, slots) + spec_part_len(
            total,
            i + 1,
        ),
    decreases slots.len(),
{
    let filled = slots.update(i, Some(tag));
    if i == slots.len() - 1 {
        assert(filled.drop_last() =~= slots.drop_last());
    } else {
        lemma_fill_slot(total, slots.drop_last(), i, tag);
        assert(filled.drop_last() =~= slots.drop_last().update(i, Some(tag)));
    }
}

/// The acknowledged bytes never exceed what the parts handed out cover, and
/// reach it when no part is in flight.
pub proof fn lemma_acked_bounds(total: nat, slots: Seq<Option<Seq<char>>>)
    requires
        slots.len() <= spec_part_count(total),
    ensures
        acked(total, slots) <= spec_prefix_bytes(total, slots.len()),
        acked(total, slots) <= total,
        pending(slots) <= slots.len(),
        pending(slots) == 0 ==> acked(total, slots) == spec_prefix_bytes(total, slots.len()),
        pending(slots) == 0 ==> forall|i: int| 0 <= i < slots.len() ==> slots[i] is Some,
    decreases slots.len(),
{
    if slots.len() > 0 {
        lemma_acked_bounds(total, slots.drop_last());
        lemma_part_len_bounds(total, slots.len() as int);
        if pending(slots) == 0 {
            assert forall|i: int| 0 <= i < slots.len() implies slots[i] is Some by {
                if i < slots.len() - 1 {
                    assert(slots.drop_last()[i] == slots[i]);
                }
            }
        }
    }
}

/// One upload under way.
pub struct UploadTask {
    phase: Phase,
    key: String,
    total: u64,
    upload_id: String,
    slots: Vec<Option<String>>,
    in_flight: u64,
    sent: u64,
}

impl View for UploadTask {
    type V = TaskView;

    closed spec fn view(&self) -> TaskView {
        TaskView {
            phase: self.phase,
            key: self.key@,
            total: self.total as nat,
            upload_id: self.upload_id@,
            slots: slots_view(self.slots@),
            in_flight: self.in_flight as nat,
            sent: self.sent as nat,
        }
    }
}

fn ignored() -> (out: Step)
    ensures
        out@ == (StepView { status: None, command: CommandView::Ignored }),
{
    Step { status: None, command: Command::Ignored }
}

impl UploadTask {
    /// The task's counters agree with its slots and its phase.
    pub open spec fn wf(&self) -> bool {
        self@.wf()
    }

    /// A task for the object stored under `remote_filename`.
    pub fn new(remote_filename: String) -> (task: UploadTask)
        ensures
            task.wf(),
            task@ == TaskView::initial(remote_filename@),
    {
        let task = UploadTask {
            phase: Phase::Idle,
            key: remote_filename,
            total: 0,
            upload_id: String::new(),
            slots: Vec::new(),
            in_flight: 0,
            sent: 0,
        };
        assert(task@.slots =~= Seq::empty());
        task
    }

    /// Where the upload stands.
    pub fn phase(&self) -> (phase: Phase)
        ensures
            phase == self@.phase,
    {
        self.phase
    }

    /// Number of parts in flight.
    pub fn in_flight(&self) -> (n: u64)
        ensures
            n == self@.in_flight,
    {
        self.in_flight
    }

    /// Bytes acknowledged by the store.
    pub fn sent_bytes(&self) -> (n: u64)
        ensures
            n == self@.sent,
    {
        self.sent
    }

    /// Size of the source in bytes; 0 before it is known.
    pub fn total_bytes(&self) -> (n: u64)
        ensures
            n == self@.total,
    {
        self.total
    }

    fn finish(&mut self, status: UploadStatus) -> (out: Step)
        requires
            old(self).wf(),
        ensures
            final(self).wf(),
            final(self)@ == old(self)@.finish(status@).0,
            out@ == old(self)@.finish(status@).1,
    {
        self.phase = Phase::Finished;
        Step { status: Some(status), command: Command::Finish }
    }

    fn fail(&mut self, message: String) -> (out: Step)
        requires
            old(self).wf(),
        ensures
            final(self).wf(),
            final(self)@ == old(self)@.fail(message@).0,
            out@ == old(self)@.fail(message@).1,
    {
        self.finish(UploadStatus::Error { message, code: "UPLOAD_ERROR".to_owned() })
    }

    fn begin(&mut self, size: u64, strategy: Strategy) -> (out: Step)
        requires
            old(self).wf(),
            old(self)@.phase is Idle,
            strategy is Multipart ==> CHUNK_SIZE <= size <= MAX_FILE_SIZE,
        ensures
            final(self).wf(),
            final(self)@ == old(self)@.begin(size as nat, strategy).0,
            out@ == old(self)@.begin(size as nat, strategy).1,
    {
        let status = UploadStatus::Uploading {
            bytes_uploaded: 0,
            total_bytes: size,
            elapsed_nanos: 0,
        };
        let content_type = content_type(self.key.as_str());
        self.total = size;
        match strategy {
            Strategy::SinglePut => {
                self.phase = Phase::Putting;
                Step { status: Some(status), command: Command::PutObject { content_type } }
            },
            Strategy::Multipart => {
                self.phase = Phase::Creating;
                Step { status: Some(status), command: Command::CreateMultipart { content_type } }
            },
        }
    }

    fn collect_parts(&self) -> (parts: Vec<CompletedPart>)
        requires
            self.slots@.len() <= MAX_PARTS,
        ensures
            parts_view(parts@) == assembled(self@.slots),
    {
        let mut parts: Vec<CompletedPart> = Vec::new();
        let mut i: usize = 0;
        while i < self.slots.len()
            invariant
                self.slots@.len() <= MAX_PARTS,
                i <= self.slots@.len(),
                parts@.len() == i,
                forall|j: int| 0 <= j < i ==> (#[trigger] parts@[j])@ == assembled(self@.slots)[j],
            decreases self.slots@.len() - i,
        {
            let e_tag = match &self.slots[i] {
                Some(tag) => tag.clone(),
                None => String::new(),
            };
            parts.push(CompletedPart { part_number: (i + 1) as i32, e_tag });
            i = i + 1;
        }
        assert(parts_view(parts@) =~= assembled(self@.slots));
        parts
    }

    fn advance(&mut self, status: Option<UploadStatus>) -> (out: Step)
        requires
            old(self).wf(),
            old(self)@.phase is Streaming,
        ensures
            final(self).wf(),
            final(self)@ == old(self)@.advance(opt_status(status)).0,
            out@ == old(self)@.advance(opt_status(status)).1,
    {
        proof {
            lemma_part_count_bounded(self.total as nat);
        }
        let count: u64 = part_count(self.total);
        let issued: u64 = self.slots.len() as u64;
        if issued < count && self.in_flight < MAX_CONCURRENT_TASKS {
            let number: i32 = (issued + 1) as i32;
            let found = chunk_at(self.total, number);
            let chunk = found.unwrap();
            proof {
                lemma_push_empty_slot(self.total as nat, self@.slots);
                assert(slots_view(self.slots@.push(None)) =~= self@.slots.push(None));
            }
            self.slots.push(None);
            self.in_flight = self.in_flight + 1;
            Step { status, command: Command::UploadPart { chunk } }
        } else if self.in_flight > 0 {
            Step { status, command: Command::AwaitPart }
        } else {
            self.phase = Phase::Completing;
            let parts = self.collect_parts();
            Step { status, command: Command::Complete { upload_id: self.upload_id.clone(), parts } }
        }
    }

    fn awaits_part(&self, number: i32) -> (yes: bool)
        ensures
            yes == self@.awaits(number as int),
    {
        if number < 1 {
            return false;
        }
        let index: usize = (number - 1) as usize;
        if index >= self.slots.len() {
            return false;
        }
        self.slots[index].is_none()
    }

    fn acknowledge(&mut self, part: CompletedPart, elapsed_nanos: u64) -> (out: Step)
        requires
            old(self).wf(),
            old(self)@.phase is Streaming,
            old(self)@.awaits(part.part_number as int),
        ensures
            final(self).wf(),
            final(self)@ == old(self)@.acknowledge(
                part.part_number as int,
                part.e_tag@,
                elapsed_nanos as nat,
            ).0,
            out@ == old(self)@.acknowledge(
                part.part_number as int,
                part.e_tag@,
                elapsed_nanos as nat,
            ).1,
    {
        let number: i32 = part.part_number;
        let index: usize = (number - 1) as usize;
        proof {
            let filled = self@.slots.update(index as int, Some(part.e_tag@));
            lemma_part_count_bounded(self.total as nat);
            lemma_part_len_bounds(self.total as nat, number as int);
            lemma_fill_slot(self.total as nat, self@.slots, index as int, part.e_tag@);
            lemma_acked_bounds(self.total as nat, filled);
            assert(slots_view(self.slots@.update(index as int, Some(part.e_tag))) =~= filled);
        }
        let found = chunk_at(self.total, number);
        let len: u64 = found.unwrap().len;
        self.slots.set(index, Some(part.e_tag));
        self.in_flight = self.in_flight - 1;
        self.sent = self.sent + len;
        let status = UploadStatus::Uploading {
            bytes_uploaded: self.sent,
            total_bytes: self.total,
            elapsed_nanos,
        };
        self.advance(Some(status))
    }

    /// Takes one event and answers with the status to publish and the next
    /// thing to do. An event that does not fit the phase changes nothing
    /// and is answered with `Ignored`; a finished task ignores every event.
    pub fn step(&mut self, event: TaskEvent) -> (out: Step)
        requires
            old(self).wf(),
            admissible(event@),
        ensures
            final(self).wf(),
            final(self)@ == old(self)@.step(event@).0,
            out@ == old(self)@.step(event@).1,
    {
        match event {
            TaskEvent::ContentReady { len } => {
                if self.phase == Phase::Idle {
                    self.begin(len, Strategy::SinglePut)
                } else {
                    ignored()
                }
            },
            TaskEvent::FileOpened { size } => {
                if self.phase == Phase::Idle {
                    self.begin(size, choose_strategy(size))
                } else {
                    ignored()
                }
            },
            TaskEvent::PutDone => {
                if self.phase == Phase::Putting {
                    self.finish(UploadStatus::Success)
                } else {
                    ignored()
                }
            },
            TaskEvent::SessionCreated { upload_id } => {
                if self.phase == Phase::Creating {
                    match upload_id_from_response(upload_id) {
                        Ok(id) => {
                            self.phase = Phase::Registering;
                            self.upload_id = id.clone();
                            Step { status: None, command: Command::RecordSession { upload_id: id } }
                        },
                        Err(error) => self.fail(error.message),
                    }
                } else {
                    ignored()
                }
            },
            TaskEvent::SessionRecorded => {
                if self.phase == Phase::Registering {
                    self.phase = Phase::Streaming;
                    self.advance(None)
                } else {
                    ignored()
                }
            },
            TaskEvent::PartStarted => {
                if self.phase == Phase::Streaming {
                    self.advance(None)
                } else {
                    ignored()
                }
            },
            TaskEvent::PartDone { part_number, e_tag, elapsed_nanos } => {
                if self.phase == Phase::Streaming && self.awaits_part(part_number) {
                    match part_from_response(part_number, e_tag) {
                        Ok(part) => self.acknowledge(part, elapsed_nanos),
                        Err(error) => self.fail(error.message),
                    }
                } else {
                    ignored()
                }
            },
            TaskEvent::Completed => {
                if self.phase == Phase::Completing {
                    self.finish(UploadStatus::Success)
                } else {
                    ignored()
                }
            },
            TaskEvent::Failed { error } => {
                if self.phase == Phase::Finished {
                    ignored()
                } else {
                    self.fail(error.message)
                }
            },
        }
    }
}

} // verus!
