use vstd::prelude::*;

use crate::line::{end_marker, is_end_marker, strip_line_terminator, strip_terminator};

verus! {

/// Largest part number the storage service's API can carry.
pub const MAX_PART_NUMBER: i32 = 2147483647;

/// One uploaded part: its number (from 1) and the tag the service returned for it.
#[derive(Debug, PartialEq, Eq)]
pub struct PartDescriptor {
    pub part_number: i32,
    pub etag: String,
}

impl View for PartDescriptor {
    type V = (int, Seq<char>);

    open spec fn view(&self) -> (int, Seq<char>) {
        (self.part_number as int, self.etag@)
    }
}

/// The parts as (number, tag) pairs.
pub open spec fn parts_view(parts: Seq<PartDescriptor>) -> Seq<(int, Seq<char>)> {
    parts.map_values(|p: PartDescriptor| p@)
}

/// An optional string, seen as its characters.
pub open spec fn opt_view(o: Option<String>) -> Option<Seq<char>> {
    match o {
        Some(s) => Some(s@),
        None => None,
    }
}

/// Why an upload ended without completing.
#[derive(Debug, PartialEq, Eq)]
pub enum Failure {
    /// The service refused to start the upload.
    Initiate { message: String },
    /// The service started the upload but named no upload id.
    MissingUploadId,
    /// Uploading the part with this number failed.
    UploadPart { part_number: i32, message: String },
    /// The service accepted a part but returned no tag for it.
    MissingEtag { part_number: i32 },
    /// One more part would need a number above `MAX_PART_NUMBER`.
    TooManyParts,
    /// The service refused to complete the upload.
    Complete { message: String },
    /// The driver reported an outcome of a call that was not asked for.
    UnexpectedEvent,
}

pub enum FailureView {
    Initiate { message: Seq<char> },
    MissingUploadId,
    UploadPart { part_number: int, message: Seq<char> },
    MissingEtag { part_number: int },
    TooManyParts,
    Complete { message: Seq<char> },
    UnexpectedEvent,
}

impl View for Failure {
    type V = FailureView;

    open spec fn view(&self) -> FailureView {
        match self {
            Failure::Initiate { message } => FailureView::Initiate { message: message@ },
            Failure::MissingUploadId => FailureView::MissingUploadId,
            Failure::UploadPart { part_number, message } => FailureView::UploadPart {
                part_number: *part_number as int,
                message: message@,
            },
            Failure::MissingEtag { part_number } => FailureView::MissingEtag {
                part_number: *part_number as int,
            },
            Failure::TooManyParts => FailureView::TooManyParts,
            Failure::Complete { message } => FailureView::Complete { message: message@ },
            Failure::UnexpectedEvent => FailureView::UnexpectedEvent,
        }
    }
}

/// What the driver is to do next.
#[derive(Debug, PartialEq, Eq)]
pub enum Action {
    /// Start a multipart upload of `key` in `bucket`.
    Initiate { bucket: String, key: String },
    /// Read the next line of operator input.
    ReadLine,
    /// Upload the file at `path` as part `part_number` of the session.
    UploadPart { bucket: String, key: String, upload_id: String, part_number: i32, path: String },
    /// Complete the session with these parts, in this order.
    Complete { bucket: String, key: String, upload_id: String, parts: Vec<PartDescriptor> },
    /// The upload is complete: report success.
    Finish,
    /// The upload failed: report it. No remote call follows.
    Fail { failure: Failure },
    /// Nothing is left to do.
    Halt,
}

pub enum ActionView {
    Initiate { bucket: Seq<char>, key: Seq<char> },
    ReadLine,
    UploadPart {
        bucket: Seq<char>,
        key: Seq<char>,
        upload_id: Seq<char>,
        part_number: int,
        path: Seq<char>,
    },
    Complete {
        bucket: Seq<char>,
        key: Seq<char>,
        upload_id: Seq<char>,
        parts: Seq<(int, Seq<char>)>,
    },
    Finish,
    Fail { failure: FailureView },
    Halt,
}

impl View for Action {
    type V = ActionView;

    open spec fn view(&self) -> ActionView {
        match self {
            Action::Initiate { bucket, key } => ActionView::Initiate { bucket: bucket@, key: key@ },
            Action::ReadLine => ActionView::ReadLine,
            Action::UploadPart { bucket, key, upload_id, part_number, path } =>
                ActionView::UploadPart {
                    bucket: bucket@,
                    key: key@,
                    upload_id: upload_id@,
                    part_number: *part_number as int,
                    path: path@,
                },
            Action::Complete { bucket, key, upload_id, parts } => ActionView::Complete {
                bucket: bucket@,
                key: key@,
                upload_id: upload_id@,
                parts: parts_view(parts@),
            },
            Action::Finish => ActionView::Finish,
            Action::Fail { failure } => ActionView::Fail { failure: failure@ },
            Action::Halt => ActionView::Halt,
        }
    }
}

/// The outcome of an action, as the driver reports it.
#[derive(Debug, PartialEq, Eq)]
pub enum Event {
    /// The service started the upload; it may confirm the bucket's name.
    Initiated { upload_id: Option<String>, bucket: Option<String> },
    InitiateFailed { message: String },
    /// A line of operator input, as read (its terminator may still be there).
    LineRead { line: String },
    /// Operator input is exhausted.
    InputEnded,
    PartUploaded { etag: Option<String> },
    PartFailed { message: String },
    Completed,
    CompleteFailed { message: String },
}

pub enum EventView {
    Initiated { upload_id: Option<Seq<char>>, bucket: Option<Seq<char>> },
    InitiateFailed { message: Seq<char> },
    LineRead { line: Seq<char> },
    InputEnded,
    PartUploaded { etag: Option<Seq<char>> },
    PartFailed { message: Seq<char> },
    Completed,
    CompleteFailed { message: Seq<char> },
}

impl View for Event {
    type V = EventView;

    open spec fn view(&self) -> EventView {
        match self {
            Event::Initiated { upload_id, bucket } => EventView::Initiated {
                upload_id: opt_view(*upload_id),
                bucket: opt_view(*bucket),
            },
            Event::InitiateFailed { message } => EventView::InitiateFailed { message: message@ },
            Event::LineRead { line } => EventView::LineRead { line: line@ },
            Event::InputEnded => EventView::InputEnded,
            Event::PartUploaded { etag } => EventView::PartUploaded { etag: opt_view(*etag) },
            Event::PartFailed { message } => EventView::PartFailed { message: message@ },
            Event::Completed => EventView::Completed,
            Event::CompleteFailed { message } => EventView::CompleteFailed { message: message@ },
        }
    }
}

#[derive(Debug, Clone, Copy, PartialEq, Eq, Structural)]
pub enum Phase {
    /// Waiting for the service to start the upload.
    Initiating,
    /// Waiting for the next line of operator input.
    AwaitingLine,
    /// Waiting for the outcome of a part upload.
    UploadingPart,
    /// Waiting for the service to complete the upload.
    Completing,
    Completed,
    Failed,
}

/// The orchestrator's state, as a value.
pub struct UploadView {
    pub bucket: Seq<char>,
    pub key: Seq<char>,
    pub upload_id: Seq<char>,
    pub parts: Seq<(int, Seq<char>)>,
    pub phase: Phase,
}

impl UploadView {
    /// Parts are numbered 1, 2, ... in the order they were uploaded, and
    /// every number fits the service's API.
    pub open spec fn wf(self) -> bool {
        &&& self.parts.len() <= MAX_PART_NUMBER
        &&& self.phase == Phase::UploadingPart ==> self.parts.len() < MAX_PART_NUMBER
        &&& forall|i: int| 0 <= i < self.parts.len() ==> #[trigger] self.parts[i].0 == i + 1
    }

    pub open spec fn with_phase(self, phase: Phase) -> UploadView {
        UploadView { phase, ..self }
    }

    /// The number the next uploaded part gets.
    pub open spec fn next_part_number(self) -> int {
        self.parts.len() + 1 as int
    }

    pub open spec fn is_terminal(self) -> bool {
        self.phase == Phase::Completed || self.phase == Phase::Failed
    }
}

/// The state before anything was asked of the service.
pub open spec fn initial(bucket: Seq<char>, key: Seq<char>) -> UploadView {
    UploadView { bucket, key, upload_id: seq![], parts: seq![], phase: Phase::Initiating }
}

/// Whether an event closes the list of parts: the sentinel line, or the end of input.
pub open spec fn closes_parts(e: EventView) -> bool {
    match e {
        EventView::InputEnded => true,
        EventView::LineRead { line } => strip_terminator(line) == end_marker(),
        _ => false,
    }
}

pub open spec fn fail(s: UploadView, failure: FailureView) -> (UploadView, ActionView) {
    (s.with_phase(Phase::Failed), ActionView::Fail { failure })
}

/// One step of the orchestrator: the next state and the next action.
pub open spec fn next(s: UploadView, e: EventView) -> (UploadView, ActionView) {
    match s.phase {
        Phase::Initiating => match e {
            EventView::Initiated { upload_id, bucket } => match upload_id {
                Some(id) => (
                    UploadView {
                        bucket: match bucket {
                            Some(b) => b,
                            None => s.bucket,
                        },
                        upload_id: id,
                        phase: Phase::AwaitingLine,
                        ..s
                    },
                    ActionView::ReadLine,
                ),
                None => fail(s, FailureView::MissingUploadId),
            },
            EventView::InitiateFailed { message } => fail(s, FailureView::Initiate { message }),
            _ => fail(s, FailureView::UnexpectedEvent),
        },
        Phase::AwaitingLine => if closes_parts(e) {
            (
                UploadView { parts: seq![], phase: Phase::Completing, ..s },
                ActionView::Complete {
                    bucket: s.bucket,
                    key: s.key,
                    upload_id: s.upload_id,
                    parts: s.parts,
                },
            )
        } else {
            match e {
                EventView::LineRead { line } => if s.parts.len() >= MAX_PART_NUMBER {
                    fail(s, FailureView::TooManyParts)
                } else {
                    (
                        s.with_phase(Phase::UploadingPart),
                        ActionView::UploadPart {
                            bucket: s.bucket,
                            key: s.key,
                            upload_id: s.upload_id,
                            part_number: s.next_part_number(),
                            path: strip_terminator(line),
                        },
                    )
                },
                _ => fail(s, FailureView::UnexpectedEvent),
            }
        },
        Phase::UploadingPart => match e {
            EventView::PartUploaded { etag } => match etag {
                Some(t) => (
                    UploadView {
                        parts: s.parts.push((s.next_part_number(), t)),
                        phase: Phase::AwaitingLine,
                        ..s
                    },
                    ActionView::ReadLine,
                ),
                None => fail(s, FailureView::MissingEtag { part_number: s.next_part_number() }),
            },
            EventView::PartFailed { message } => fail(
                s,
                FailureView::UploadPart { part_number: s.next_part_number(), message },
            ),
            _ => fail(s, FailureView::UnexpectedEvent),
        },
        Phase::Completing => match e {
            EventView::Completed => (s.with_phase(Phase::Completed), ActionView::Finish),
            EventView::CompleteFailed { message } => fail(s, FailureView::Complete { message }),
            _ => fail(s, FailureView::UnexpectedEvent),
        },
        Phase::Completed | Phase::Failed => (s, ActionView::Halt),
    }
}

/// A step keeps the state well formed.
pub proof fn lemma_next_wf(s: UploadView, e: EventView)
    requires
        s.wf(),
    ensures
        next(s, e).0.wf(),
{
    let r = next(s, e).0;
    assert forall|i: int| 0 <= i < r.parts.len() implies #[trigger] r.parts[i].0 == i + 1 by {
        if i < s.parts.len() {
            assert(r.parts[i] == s.parts[i]);
        }
    }
}

/// The multipart-upload orchestrator: it says which call to make next and
/// takes in the outcome of each call.
pub struct MultipartUpload {
    bucket: String,
    key: String,
    upload_id: String,
    parts: Vec<PartDescriptor>,
    phase: Phase,
}

impl View for MultipartUpload {
    type V = UploadView;

    closed spec fn view(&self) -> UploadView {
        UploadView {
            bucket: self.bucket@,
            key: self.key@,
            upload_id: self.upload_id@,
            parts: parts_view(self.parts@),
            phase: self.phase,
        }
    }
}

impl MultipartUpload {
    /// A new upload of `key` in `bucket`, and its first action: starting the upload.
    pub fn start(bucket: String, key: String) -> (r: (MultipartUpload, Action))
        ensures
            r.0@ == initial(bucket@, key@),
            r.0@.wf(),
            r.1@ == (ActionView::Initiate { bucket: bucket@, key: key@ }),
    {
        let action = Action::Initiate { bucket: bucket.clone(), key: key.clone() };
        let upload = MultipartUpload {
            bucket,
            key,
            upload_id: String::new(),
            parts: Vec::new(),
            phase: Phase::Initiating,
        };
        assert(upload@.parts =~= seq![]);
        (upload, action)
    }

    /// Takes in the outcome of the last action and gives the next one.
    pub fn step(self, event: Event) -> (r: (MultipartUpload, Action))
        requires
            self@.wf(),
        ensures
            (r.0@, r.1@) == next(self@, event@),
            r.0@.wf(),
    {
        proof {
            lemma_next_wf(self@, event@);
        }
        let ghost s = self@;
        let MultipartUpload { bucket, key, upload_id, parts, phase } = self;
        match phase {
            Phase::Initiating => match event {
                Event::Initiated { upload_id: Some(id), bucket: confirmed } => {
                    let bucket = match confirmed {
                        Some(b) => b,
                        None => bucket,
                    };
                    (
                        MultipartUpload {
                            bucket,
                            key,
                            upload_id: id,
                            parts,
                            phase: Phase::AwaitingLine,
                        },
                        Action::ReadLine,
                    )
                },
                Event::Initiated { upload_id: None, bucket: _ } => Self::failed(
                    bucket,
                    key,
                    upload_id,
                    parts,
                    Failure::MissingUploadId,
                ),
                Event::InitiateFailed { message } => Self::failed(
                    bucket,
                    key,
                    upload_id,
                    parts,
                    Failure::Initiate { message },
                ),
                _ => Self::failed(bucket, key, upload_id, parts, Failure::UnexpectedEvent),
            },
            Phase::AwaitingLine => match event {
                Event::InputEnded => Self::complete(bucket, key, upload_id, parts),
                Event::LineRead { line } => {
                    let path = strip_line_terminator(line.as_str());
                    if is_end_marker(path.as_str()) {
                        Self::complete(bucket, key, upload_id, parts)
                    } else if parts.len() >= MAX_PART_NUMBER as usize {
                        Self::failed(bucket, key, upload_id, parts, Failure::TooManyParts)
                    } else {
                        let part_number = (parts.len() + 1) as i32;
                        let action = Action::UploadPart {
                            bucket: bucket.clone(),
                            key: key.clone(),
                            upload_id: upload_id.clone(),
                            part_number,
                            path,
                        };
                        (
                            MultipartUpload {
                                bucket,
                                key,
                                upload_id,
                                parts,
                                phase: Phase::UploadingPart,
                            },
                            action,
                        )
                    }
                },
                _ => Self::failed(bucket, key, upload_id, parts, Failure::UnexpectedEvent),
            },
            Phase::UploadingPart => {
                let part_number = (parts.len() + 1) as i32;
                match event {
                    Event::PartUploaded { etag: Some(etag) } => {
                        let mut parts = parts;
                        parts.push(PartDescriptor { part_number, etag });
                        let upload = MultipartUpload {
                            bucket,
                            key,
                            upload_id,
                            parts,
                            phase: Phase::AwaitingLine,
                        };
                        assert(upload@.parts =~= s.parts.push((s.next_part_number(), etag@)));
                        (upload, Action::ReadLine)
                    },
                    Event::PartUploaded { etag: None } => Self::failed(
                        bucket,
                        key,
                        upload_id,
                        parts,
                        Failure::MissingEtag { part_number },
                    ),
                    Event::PartFailed { message } => Self::failed(
                        bucket,
                        key,
                        upload_id,
                        parts,
                        Failure::UploadPart { part_number, message },
                    ),
                    _ => Self::failed(bucket, key, upload_id, parts, Failure::UnexpectedEvent),
                }
            },
            Phase::Completing => match event {
                Event::Completed => (
                    MultipartUpload { bucket, key, upload_id, parts, phase: Phase::Completed },
                    Action::Finish,
                ),
                Event::CompleteFailed { message } => Self::failed(
                    bucket,
                    key,
                    upload_id,
                    parts,
                    Failure::Complete { message },
                ),
                _ => Self::failed(bucket, key, upload_id, parts, Failure::UnexpectedEvent),
            },
            Phase::Completed => (
                MultipartUpload { bucket, key, upload_id, parts, phase: Phase::Completed },
                Action::Halt,
            ),
            Phase::Failed => (
                MultipartUpload { bucket, key, upload_id, parts, phase: Phase::Failed },
                Action::Halt,
            ),
        }
    }

    fn failed(
        bucket: String,
        key: String,
        upload_id: String,
        parts: Vec<PartDescriptor>,
        failure: Failure,
    ) -> (r: (MultipartUpload, Action))
        ensures
            r.0.bucket == bucket,
            r.0.key == key,
            r.0.upload_id == upload_id,
            r.0.parts == parts,
            r.0.phase == Phase::Failed,
            r.1 == (Action::Fail { failure }),
    {
        (MultipartUpload { bucket, key, upload_id, parts, phase: Phase::Failed }, Action::Fail { failure })
    }

    fn complete(bucket: String, key: String, upload_id: String, parts: Vec<PartDescriptor>) -> (r: (
        MultipartUpload,
        Action,
    ))
        ensures
            r.0@ == (UploadView {
                bucket: bucket@,
                key: key@,
                upload_id: upload_id@,
                parts: seq![],
                phase: Phase::Completing,
            }),
            r.1@ == (ActionView::Complete {
                bucket: bucket@,
                key: key@,
                upload_id: upload_id@,
                parts: parts_view(parts@),
            }),
    {
        let action = Action::Complete {
            bucket: bucket.clone(),
            key: key.clone(),
            upload_id: upload_id.clone(),
            parts,
        };
        let upload = MultipartUpload {
            bucket,
            key,
            upload_id,
            parts: Vec::new(),
            phase: Phase::Completing,
        };
        assert(upload@.parts =~= seq![]);
        (upload, action)
    }
}

} // verus!
