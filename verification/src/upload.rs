//! The upload orchestrator: one request is a state machine that is fed the
//! events of the connection and of the storage, and answers each with the
//! next thing to do. Fields are handled strictly one after another; the first
//! failure ends the request, and what was stored before it stays.

use vstd::prelude::*;
use crate::error::UploadError;
use crate::error::STATUS_BAD_REQUEST;
use crate::error::STATUS_INTERNAL_SERVER_ERROR;
use crate::error::STATUS_OK;
use crate::error::STATUS_PAYLOAD_TOO_LARGE;
use crate::error::STATUS_UNSUPPORTED_MEDIA_TYPE;
use crate::format::kind_of;
use crate::format::validate_content_type;
use crate::format::ImageKind;
use crate::guard::declared_length;
use crate::guard::declares_length;
use crate::guard::guard_outcome;
use crate::guard::MAX_CONTENT_LENGTH;
use crate::guard::size_guard;
use crate::identity::is_canonical;
use crate::identity::Identity;
use crate::layout::chunks_of;
use crate::layout::joined;
use crate::layout::law_chunks_reassemble;
use crate::layout::original_location;
use crate::layout::preview_location;
use crate::layout::split_chunks;
use crate::layout::StorageLayout;
use crate::preview::generate_preview;
use crate::preview::is_preview_in;
use crate::preview::outcome_view;

verus! {

/// Where a request stands.
#[derive(Debug, PartialEq, Eq)]
pub enum UploadState {
    /// Nothing of the request was looked at yet.
    Idle,
    /// The next field of the body, or its end, is awaited.
    ReadingField,
    /// The submitted bytes of a field are being written.
    Writing { identity: Identity, kind: ImageKind, payload: Vec<u8> },
    /// The preview of a field is being written.
    Previewing { identity: Identity, kind: ImageKind },
    /// Every field was stored; the request was answered.
    Done,
    /// The request ended with an error.
    Failed { error: UploadError },
}

/// What happened since the last step.
#[derive(Debug, PartialEq, Eq)]
pub enum Event {
    /// The head of the request arrived, with the value of its
    /// `Content-Length` header if it has one.
    Request { content_length: Option<Vec<u8>> },
    /// A field of the body was read in full, with the content type it declares
    /// if it declares one.
    Field { content_type: Option<String>, payload: Vec<u8> },
    /// The body has no further field.
    EndOfFields,
    /// The body could not be read as a field.
    Unreadable,
    /// The file asked for was created and written in full.
    Written,
    /// The file asked for could not be created or written.
    WriteFailed,
}

/// What is to be done next.
#[derive(Debug, PartialEq, Eq)]
pub enum Action {
    /// Read the next field of the body.
    ReadField,
    /// Create the file at `path`, which is not to exist yet, and write the
    /// chunks to it in order.
    WriteOriginal { path: String, chunks: Vec<Vec<u8>> },
    /// Create the file at `path`, which is not to exist yet, and write the
    /// bytes to it.
    WritePreview { path: String, bytes: Vec<u8> },
    /// Answer the request with `status` and an empty body.
    Respond { status: u16 },
}

/// A state as a mathematical value.
pub enum UploadStateView {
    Idle,
    ReadingField,
    Writing { identity: Seq<char>, kind: ImageKind, payload: Seq<u8> },
    Previewing { identity: Seq<char>, kind: ImageKind },
    Done,
    Failed { error: UploadError },
}

/// An event as a mathematical value.
pub enum EventView {
    Request { content_length: Option<Seq<u8>> },
    Field { content_type: Option<Seq<char>>, payload: Seq<u8> },
    EndOfFields,
    Unreadable,
    Written,
    WriteFailed,
}

/// An action as a mathematical value.
pub enum ActionView {
    ReadField,
    WriteOriginal { path: Seq<char>, chunks: Seq<Seq<u8>> },
    WritePreview { path: Seq<char>, bytes: Seq<u8> },
    Respond { status: u16 },
}

impl View for UploadState {
    type V = UploadStateView;

    open spec fn view(&self) -> UploadStateView {
        match *self {
            UploadState::Idle => UploadStateView::Idle,
            UploadState::ReadingField => UploadStateView::ReadingField,
            UploadState::Writing { identity, kind, payload } => UploadStateView::Writing {
                identity: identity@,
                kind,
                payload: payload@,
            },
            UploadState::Previewing { identity, kind } => UploadStateView::Previewing {
                identity: identity@,
                kind,
            },
            UploadState::Done => UploadStateView::Done,
            UploadState::Failed { error } => UploadStateView::Failed { error },
        }
    }
}

impl View for Event {
    type V = EventView;

    open spec fn view(&self) -> EventView {
        match *self {
            Event::Request { content_length } => EventView::Request {
                content_length: match content_length {
                    Some(value) => Some(value@),
                    None => None,
                },
            },
            Event::Field { content_type, payload } => EventView::Field {
                content_type: match content_type {
                    Some(declared) => Some(declared@),
                    None => None,
                },
                payload: payload@,
            },
            Event::EndOfFields => EventView::EndOfFields,
            Event::Unreadable => EventView::Unreadable,
            Event::Written => EventView::Written,
            Event::WriteFailed => EventView::WriteFailed,
        }
    }
}

impl View for Action {
    type V = ActionView;

    open spec fn view(&self) -> ActionView {
        match *self {
            Action::ReadField => ActionView::ReadField,
            Action::WriteOriginal { path, chunks } => ActionView::WriteOriginal {
                path: path@,
                chunks: chunks.deep_view(),
            },
            Action::WritePreview { path, bytes } => ActionView::WritePreview {
                path: path@,
                bytes: bytes@,
            },
            Action::Respond { status } => ActionView::Respond { status },
        }
    }
}

impl ActionView {
    /// The action creates a file.
    pub open spec fn writes_file(self) -> bool {
        self is WriteOriginal || self is WritePreview
    }
}

/// The request ends with `error`: it is answered with the error's status and
/// stays failed.
pub open spec fn ends_with(post: UploadStateView, action: ActionView, error: UploadError) -> bool {
    post == (UploadStateView::Failed { error }) && action == (ActionView::Respond {
        status: error.status(),
    })
}

/// The steps of a request under the storage root `root`: from the state `pre`
/// the event `event` leads to the state `post` with the action `action`.
///
/// An accepted field is given a canonical identity, which is not determined
/// by anything before it; its preview is a preview of whatever image the
/// decoder makes of its payload, and a payload that the decoder refuses ends
/// the request with a decode failure. Everything else is determined. An event that the state does not await ends
/// the request, and a request that has ended stays as it is.
pub open spec fn transition(
    root: Seq<char>,
    pre: UploadStateView,
    event: EventView,
    post: UploadStateView,
    action: ActionView,
) -> bool {
    match pre {
        UploadStateView::Idle => match event {
            EventView::Request { content_length } => match guard_outcome(content_length) {
                Ok(_) => post == UploadStateView::ReadingField && action == ActionView::ReadField,
                Err(error) => ends_with(post, action, error),
            },
            _ => ends_with(post, action, UploadError::OutOfSequence),
        },
        UploadStateView::ReadingField => match event {
            EventView::Field { content_type, payload } => match kind_of(content_type) {
                Some(kind) => {
                    &&& post matches UploadStateView::Writing {
                        identity,
                        kind: post_kind,
                        payload: post_payload,
                    }
                    &&& is_canonical(identity)
                    &&& post_kind == kind
                    &&& post_payload == payload
                    &&& action == (ActionView::WriteOriginal {
                        path: original_location(root, identity, kind),
                        chunks: chunks_of(payload),
                    })
                },
                None => ends_with(post, action, UploadError::UnsupportedFormat),
            },
            EventView::EndOfFields => post == UploadStateView::Done && action == (
            ActionView::Respond { status: STATUS_OK }),
            EventView::Unreadable => ends_with(post, action, UploadError::MalformedRequest),
            _ => ends_with(post, action, UploadError::OutOfSequence),
        },
        UploadStateView::Writing { identity, kind, payload } => match event {
            EventView::Written => {
                ||| {
                    &&& action matches ActionView::WritePreview { path, bytes }
                    &&& path == preview_location(root, identity, kind)
                    &&& is_preview_in(kind, Ok(bytes))
                    &&& post == (UploadStateView::Previewing { identity, kind })
                }
                ||| {
                    &&& post matches UploadStateView::Failed { error }
                    &&& is_preview_in(kind, Err(error))
                    &&& ends_with(post, action, error)
                }
            },
            EventView::WriteFailed => ends_with(post, action, UploadError::StorageFailure),
            _ => ends_with(post, action, UploadError::OutOfSequence),
        },
        UploadStateView::Previewing { identity, kind } => match event {
            EventView::Written => post == UploadStateView::ReadingField && action
                == ActionView::ReadField,
            EventView::WriteFailed => ends_with(post, action, UploadError::StorageFailure),
            _ => ends_with(post, action, UploadError::OutOfSequence),
        },
        UploadStateView::Done => post == UploadStateView::Done && action == (ActionView::Respond {
            status: STATUS_OK,
        }),
        UploadStateView::Failed { error } => ends_with(post, action, error),
    }
}

/// Ends the request with `error`.
pub fn fail(error: UploadError) -> (next: (UploadState, Action))
    ensures
        ends_with(next.0@, next.1@, error),
{
    (UploadState::Failed { error }, Action::Respond { status: error.status_code() })
}

/// The step that the head of a request takes: the size guard decides whether
/// the body is read at all.
pub fn open_request(content_length: Option<Vec<u8>>) -> (next: (UploadState, Action))
    ensures
        match guard_outcome(
            match content_length {
                Some(value) => Some(value@),
                None => None,
            },
        ) {
            Ok(_) => next.0@ == UploadStateView::ReadingField && next.1@ == ActionView::ReadField,
            Err(error) => ends_with(next.0@, next.1@, error),
        },
{
    let outcome = match &content_length {
        Some(value) => size_guard(Some(value.as_slice())),
        None => size_guard(None),
    };
    match outcome {
        Ok(_) => (UploadState::ReadingField, Action::ReadField),
        Err(error) => fail(error),
    }
}

/// The step that a field of codec `kind` takes once it was given `identity`:
/// its submitted bytes are to be written, chunk by chunk, to the file that
/// the identity names.
pub fn begin_field(layout: &StorageLayout, identity: Identity, kind: ImageKind, payload: Vec<u8>) -> (next:
    (UploadState, Action))
    ensures
        next.0@ == (UploadStateView::Writing { identity: identity@, kind, payload: payload@ }),
        next.1@ == (ActionView::WriteOriginal {
            path: original_location(layout@, identity@, kind),
            chunks: chunks_of(payload@),
        }),
        is_canonical(identity@),
{
    proof {
        use_type_invariant(&identity);
        identity.lemma_canonical();
    }
    let path = layout.original_path(&identity, kind);
    let chunks = split_chunks(payload.as_slice());
    (UploadState::Writing { identity, kind, payload }, Action::WriteOriginal { path, chunks })
}

/// The step that a field takes once its submitted bytes are written and its
/// preview was attempted: the preview is to be written under the same name,
/// or the request ends with the error of the attempt.
pub fn continue_field(
    layout: &StorageLayout,
    identity: Identity,
    kind: ImageKind,
    preview: Result<Vec<u8>, UploadError>,
) -> (next: (UploadState, Action))
    ensures
        match preview {
            Ok(bytes) => next.0@ == (UploadStateView::Previewing { identity: identity@, kind })
                && next.1@ == (ActionView::WritePreview {
                path: preview_location(layout@, identity@, kind),
                bytes: bytes@,
            }),
            Err(error) => ends_with(next.0@, next.1@, error),
        },
{
    match preview {
        Ok(bytes) => {
            let path = layout.preview_path(&identity, kind);
            (UploadState::Previewing { identity, kind }, Action::WritePreview { path, bytes })
        },
        Err(error) => fail(error),
    }
}

/// Takes one step of a request: from `state`, on `event`, to the state and
/// the action returned.
pub fn step(layout: &StorageLayout, state: UploadState, event: Event) -> (next: (
    UploadState,
    Action,
))
    ensures
        transition(layout@, state@, event@, next.0@, next.1@),
{
    match state {
        UploadState::Idle => match event {
            Event::Request { content_length } => open_request(content_length),
            _ => fail(UploadError::OutOfSequence),
        },
        UploadState::ReadingField => match event {
            Event::Field { content_type, payload } => {
                let validated = match &content_type {
                    Some(declared) => validate_content_type(Some(declared.as_str())),
                    None => validate_content_type(None),
                };
                match validated {
                    Ok(kind) => begin_field(layout, Identity::allocate(), kind, payload),
                    Err(error) => fail(error),
                }
            },
            Event::EndOfFields => (UploadState::Done, Action::Respond { status: STATUS_OK }),
            Event::Unreadable => fail(UploadError::MalformedRequest),
            _ => fail(UploadError::OutOfSequence),
        },
        UploadState::Writing { identity, kind, payload } => match event {
            Event::Written => {
                let preview = generate_preview(payload.as_slice(), kind);
                assert(is_preview_in(kind, outcome_view(preview)));
                continue_field(layout, identity, kind, preview)
            },
            Event::WriteFailed => fail(UploadError::StorageFailure),
            _ => fail(UploadError::OutOfSequence),
        },
        UploadState::Previewing { identity, kind } => match event {
            Event::Written => (UploadState::ReadingField, Action::ReadField),
            Event::WriteFailed => fail(UploadError::StorageFailure),
            _ => fail(UploadError::OutOfSequence),
        },
        UploadState::Done => (UploadState::Done, Action::Respond { status: STATUS_OK }),
        UploadState::Failed { error } => fail(error),
    }
}

/// The history of a request: the states it went through, the events that
/// arrived and the actions that answered them.
pub struct Run {
    pub states: Seq<UploadStateView>,
    pub events: Seq<EventView>,
    pub actions: Seq<ActionView>,
}

impl Run {
    /// Step `i` of the history is a step of a request.
    pub open spec fn step_holds(self, root: Seq<char>, i: int) -> bool {
        transition(root, self.states[i], self.events[i], self.states[i + 1], self.actions[i])
    }

    /// The history is one of a request under the storage root `root`: it
    /// starts idle, and every event led to the next state and its action.
    pub open spec fn is_history(self, root: Seq<char>) -> bool {
        &&& self.states.len() == self.events.len() + 1
        &&& self.actions.len() == self.events.len()
        &&& self.states[0] == UploadStateView::Idle
        &&& forall|i: int| 0 <= i < self.events.len() ==> #[trigger] self.step_holds(root, i)
    }
}

/// A failure is final: once a request has failed, every later event is
/// answered with the status of that failure, and no file is written.
pub proof fn law_failure_is_final(root: Seq<char>, run: Run, failed_at: int, later: int)
    requires
        run.is_history(root),
        0 <= failed_at <= later < run.events.len(),
        run.states[failed_at] is Failed,
    ensures
        run.states[later + 1] == run.states[failed_at],
        run.actions[later] == (ActionView::Respond {
            status: run.states[failed_at]->error.status(),
        }),
        !run.actions[later].writes_file(),
    decreases later - failed_at,
{
    if later > failed_at {
        law_failure_is_final(root, run, failed_at, later - 1);
    }
    assert(run.step_holds(root, later));
}

/// A request that declares more than the ceiling is answered with the
/// payload-too-large status at its first step and at every later one: no
/// field of it is read and no file is written.
pub proof fn law_oversized_request_writes_nothing(
    root: Seq<char>,
    run: Run,
    declared: Seq<u8>,
    step: int,
)
    requires
        run.is_history(root),
        0 <= step < run.events.len(),
        run.events[0] == (EventView::Request { content_length: Some(declared) }),
        declares_length(declared),
        declared_length(declared) > MAX_CONTENT_LENGTH,
    ensures
        run.actions[step] == (ActionView::Respond { status: STATUS_PAYLOAD_TOO_LARGE }),
        run.states[step + 1] == (UploadStateView::Failed { error: UploadError::RequestTooLarge }),
        !run.actions[step].writes_file(),
{
    assert(run.step_holds(root, 0));
    if step > 0 {
        law_failure_is_final(root, run, 1, step);
    }
}

/// A field whose declared content type is outside the supported set ends the
/// request with the unsupported-media-type status: neither for it nor after
/// it is any file written.
pub proof fn law_unsupported_field_writes_nothing(
    root: Seq<char>,
    run: Run,
    field_at: int,
    step: int,
)
    requires
        run.is_history(root),
        0 <= field_at <= step < run.events.len(),
        run.states[field_at] == UploadStateView::ReadingField,
        run.events[field_at] is Field,
        kind_of(run.events[field_at]->content_type) is None,
    ensures
        run.actions[step] == (ActionView::Respond { status: STATUS_UNSUPPORTED_MEDIA_TYPE }),
        run.states[step + 1] == (UploadStateView::Failed { error: UploadError::UnsupportedFormat }),
        !run.actions[step].writes_file(),
{
    assert(run.step_holds(root, field_at));
    if step > field_at {
        law_failure_is_final(root, run, field_at + 1, step);
    }
}

/// A field that was accepted and handled to its end caused exactly two
/// writes, and then the reading of the next field: its submitted bytes went
/// to the file that its identity names under the storage root, its preview
/// to the file of the same name in the preview directory.
pub proof fn law_accepted_field_writes_one_pair(root: Seq<char>, run: Run, field_at: int)
    requires
        run.is_history(root),
        0 <= field_at,
        field_at + 3 <= run.events.len(),
        run.states[field_at] == UploadStateView::ReadingField,
        run.events[field_at] is Field,
        run.states[field_at + 3] == UploadStateView::ReadingField,
    ensures
        kind_of(run.events[field_at]->content_type) is Some,
        run.states[field_at + 1] is Writing,
        ({
            let kind = kind_of(run.events[field_at]->content_type)->0;
            let identity = run.states[field_at + 1]->Writing_identity;
            &&& is_canonical(identity)
            &&& run.actions[field_at] == (ActionView::WriteOriginal {
                path: original_location(root, identity, kind),
                chunks: chunks_of(run.events[field_at]->payload),
            })
            &&& run.actions[field_at + 1] is WritePreview
            &&& run.actions[field_at + 1]->WritePreview_path == preview_location(
                root,
                identity,
                kind,
            )
            &&& run.actions[field_at + 2] == ActionView::ReadField
        }),
{
    assert(run.step_holds(root, field_at));
    assert(run.step_holds(root, field_at + 1));
    assert(run.step_holds(root, field_at + 2));
}

/// Whatever is written as the submitted bytes of a field is the field's
/// payload, byte for byte: read back chunk after chunk, the file holds
/// exactly what was submitted.
pub proof fn law_original_is_stored_verbatim(
    root: Seq<char>,
    pre: UploadStateView,
    event: EventView,
    post: UploadStateView,
    action: ActionView,
)
    requires
        transition(root, pre, event, post, action),
        action is WriteOriginal,
    ensures
        event is Field,
        joined(action->chunks) == event->payload,
{
    law_chunks_reassemble(event->payload);
}

/// No preview is written without its image: the write of a preview follows
/// at once on the write of the submitted bytes of the same field, under the
/// same identity and codec.
pub proof fn law_preview_follows_its_original(root: Seq<char>, run: Run, step: int)
    requires
        run.is_history(root),
        0 <= step < run.events.len(),
        run.actions[step] is WritePreview,
    ensures
        step >= 1,
        run.states[step] is Writing,
        ({
            let identity = run.states[step]->Writing_identity;
            let kind = run.states[step]->Writing_kind;
            let payload = run.states[step]->Writing_payload;
            &&& is_canonical(identity)
            &&& run.actions[step - 1] == (ActionView::WriteOriginal {
                path: original_location(root, identity, kind),
                chunks: chunks_of(payload),
            })
            &&& run.actions[step]->WritePreview_path == preview_location(root, identity, kind)
            &&& run.events[step - 1] is Field
            &&& run.events[step - 1]->payload == payload
        }),
{
    assert(run.step_holds(root, step));
    assert(run.step_holds(root, step - 1));
}

/// Every answer carries one of five statuses, whatever happened.
pub proof fn law_answers_are_bounded(
    root: Seq<char>,
    pre: UploadStateView,
    event: EventView,
    post: UploadStateView,
    action: ActionView,
)
    requires
        transition(root, pre, event, post, action),
        action is Respond,
    ensures
        action->status == STATUS_OK || action->status == STATUS_BAD_REQUEST || action->status
            == STATUS_PAYLOAD_TOO_LARGE || action->status == STATUS_UNSUPPORTED_MEDIA_TYPE
            || action->status == STATUS_INTERNAL_SERVER_ERROR,
        post is Done || post is Failed,
{
}

/// A request is answered with the success status only when its body has come
/// to its end with every field before it handled in full.
pub proof fn law_success_needs_every_field(
    root: Seq<char>,
    pre: UploadStateView,
    event: EventView,
    post: UploadStateView,
    action: ActionView,
)
    requires
        transition(root, pre, event, post, action),
        action == (ActionView::Respond { status: STATUS_OK }),
    ensures
        post == UploadStateView::Done,
        pre == UploadStateView::Done || (pre == UploadStateView::ReadingField && event
            == EventView::EndOfFields),
{
}

} // verus!
