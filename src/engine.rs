use crate::compression::{compressed_by, decompressed_by, Compression};
use crate::error::ParseError;
use crate::file_type::FileType;
use crate::parsers::ParseResult;
use crate::storage_key::{decode_key, failed_path, get_failed_path, get_parsed_path, parsed_path, FileData, KeyModel};
use crate::text::bytes_eq;
use vstd::prelude::*;
use vstd::slice::slice_to_vec;

verus! {

/// The two tiers that run the engine: the validating tier publishes the
/// relocated key downstream; the loading tier writes the record to the
/// analytical store first.
#[derive(Debug, Clone, Copy, PartialEq, Eq, Structural)]
pub enum Stage {
    Validate,
    Load,
}

/// The queues the engine publishes to.
#[derive(Debug, Clone, Copy, PartialEq, Eq, Structural)]
pub enum Queue {
    /// The queue of the next stage.
    Downstream,
    /// The queue that collects relocated failures.
    ParseError,
}

/// The bytes to store for the next stage: the original object verbatim when
/// the parser recommends the codec and payload the object already had, else
/// the recommended payload encoded with the recommended codec.
pub fn prepare_output(
    input_compression: Compression,
    original: &[u8],
    content: &[u8],
    compression: Compression,
    data: &[u8],
) -> (r: Vec<u8>)
    ensures
        input_compression == compression && content@ == data@ ==> r@ == original@,
        !(input_compression == compression && content@ == data@) ==> r@ == compressed_by(
            compression,
            data@,
        ),
{
    if input_compression == compression && bytes_eq(content, data) {
        slice_to_vec(original)
    } else {
        compression.compress(data).unwrap()
    }
}

/// A decoded key with the key itself.
pub ghost struct FileView {
    pub path: Seq<char>,
    pub key: KeyModel,
}

impl View for FileData {
    type V = FileView;

    open spec fn view(&self) -> FileView {
        FileView { path: self.file_path@, key: self.model() }
    }
}

/// What a parser recommends, as the engine sees it.
pub ghost struct Recommendation {
    pub file_type: FileType,
    pub compression: Compression,
    pub data: Seq<u8>,
}

/// Where a delivery stands.
#[derive(Debug)]
pub enum DeliveryState {
    /// Nothing has happened yet.
    Received,
    /// The object of a decoded key is being fetched.
    Fetching { file: FileData },
    /// The decompressed object is with its parser.
    Parsing { file: FileData, original: Vec<u8>, content: Vec<u8> },
    /// The record is being written to the analytical store.
    Storing { file: FileData, original: Vec<u8>, output: Vec<u8>, target: String },
    /// The output is being uploaded to its next-stage key.
    Uploading { file: FileData, original: Vec<u8>, target: String },
    /// The next-stage key is being published downstream.
    Publishing { file: FileData, original: Vec<u8>, target: String },
    /// The source object is being deleted after success.
    Deleting { file: FileData, original: Vec<u8> },
    /// Failure path: the source object is being deleted.
    FailDeleting { file: FileData, fetched: Option<Vec<u8>> },
    /// Failure path: the store is asked whether the failed-object key exists.
    FailChecking { file: FileData, original: Vec<u8>, failed: String },
    /// Failure path: the original bytes are being uploaded to the failed key.
    FailUploading { failed: String },
    /// Failure path: the failed key is being published to the error queue.
    FailPublishing,
    /// The delivery was acknowledged.
    Acked,
    /// The delivery was rejected, without requeueing.
    Rejected,
}

pub ghost enum StateView {
    Received,
    Fetching { file: FileView },
    Parsing { file: FileView, original: Seq<u8>, content: Seq<u8> },
    Storing { file: FileView, original: Seq<u8>, output: Seq<u8>, target: Seq<char> },
    Uploading { file: FileView, original: Seq<u8>, target: Seq<char> },
    Publishing { file: FileView, original: Seq<u8>, target: Seq<char> },
    Deleting { file: FileView, original: Seq<u8> },
    FailDeleting { file: FileView, fetched: Option<Seq<u8>> },
    FailChecking { file: FileView, original: Seq<u8>, failed: Seq<char> },
    FailUploading { failed: Seq<char> },
    FailPublishing,
    Acked,
    Rejected,
}

pub open spec fn opt_bytes(o: Option<Vec<u8>>) -> Option<Seq<u8>> {
    match o {
        Some(b) => Some(b@),
        None => None,
    }
}

impl View for DeliveryState {
    type V = StateView;

    open spec fn view(&self) -> StateView {
        match self {
            DeliveryState::Received => StateView::Received,
            DeliveryState::Fetching { file } => StateView::Fetching { file: file@ },
            DeliveryState::Parsing { file, original, content } => StateView::Parsing {
                file: file@,
                original: original@,
                content: content@,
            },
            DeliveryState::Storing { file, original, output, target } => StateView::Storing {
                file: file@,
                original: original@,
                output: output@,
                target: target@,
            },
            DeliveryState::Uploading { file, original, target } => StateView::Uploading {
                file: file@,
                original: original@,
                target: target@,
            },
            DeliveryState::Publishing { file, original, target } => StateView::Publishing {
                file: file@,
                original: original@,
                target: target@,
            },
            DeliveryState::Deleting { file, original } => StateView::Deleting {
                file: file@,
                original: original@,
            },
            DeliveryState::FailDeleting { file, fetched } => StateView::FailDeleting {
                file: file@,
                fetched: opt_bytes(*fetched),
            },
            DeliveryState::FailChecking { file, original, failed } => StateView::FailChecking {
                file: file@,
                original: original@,
                failed: failed@,
            },
            DeliveryState::FailUploading { failed } => StateView::FailUploading { failed: failed@ },
            DeliveryState::FailPublishing => StateView::FailPublishing,
            DeliveryState::Acked => StateView::Acked,
            DeliveryState::Rejected => StateView::Rejected,
        }
    }
}

/// What the outside world reports back to the engine.
#[derive(Debug)]
pub enum Event {
    /// A delivery arrived with this key as its payload.
    Delivered { key: String },
    /// The object's bytes, or `None` when it is missing or cannot be read.
    Fetched { bytes: Option<Vec<u8>> },
    /// What the parser made of the content; the record stays with the caller.
    Parsed { result: Result<ParseResult<()>, ParseError> },
    /// Whether an upload, publish, delete or store write succeeded.
    Done { ok: bool },
    /// Whether the failed-object key exists.
    Exists { found: bool },
}

pub ghost enum EventView {
    Delivered { key: Seq<char> },
    Fetched { bytes: Option<Seq<u8>> },
    Parsed { result: Result<Recommendation, ParseError> },
    Done { ok: bool },
    Exists { found: bool },
}

impl View for Event {
    type V = EventView;

    open spec fn view(&self) -> EventView {
        match self {
            Event::Delivered { key } => EventView::Delivered { key: key@ },
            Event::Fetched { bytes } => EventView::Fetched { bytes: opt_bytes(*bytes) },
            Event::Parsed { result } => EventView::Parsed {
                result: match result {
                    Ok(p) => Ok(
                        Recommendation {
                            file_type: p.file_type,
                            compression: p.compression,
                            data: p.data@,
                        },
                    ),
                    Err(e) => Err(*e),
                },
            },
            Event::Done { ok } => EventView::Done { ok: *ok },
            Event::Exists { found } => EventView::Exists { found: *found },
        }
    }
}

/// What the engine asks the outside world to do next.
#[derive(Debug)]
pub enum Action {
    /// Download the object at this key.
    Fetch { path: String },
    /// Run the parser of this record type on the content.
    Parse { file_type: FileType, content: Vec<u8> },
    /// Write the parsed record to the analytical store, as one batch.
    Store,
    /// Upload bytes to a key.
    Upload { path: String, bytes: Vec<u8> },
    /// Publish a key on a queue.
    Publish { queue: Queue, key: String },
    /// Delete the object at a key.
    Delete { path: String },
    /// Ask whether an object exists at a key.
    CheckExists { path: String },
    /// Acknowledge the delivery.
    Ack,
    /// Reject the delivery without requeueing it.
    Reject,
    /// The delivery is settled; nothing is left to do.
    Idle,
}

pub ghost enum ActionView {
    Fetch { path: Seq<char> },
    Parse { file_type: FileType, content: Seq<u8> },
    Store,
    Upload { path: Seq<char>, bytes: Seq<u8> },
    Publish { queue: Queue, key: Seq<char> },
    Delete { path: Seq<char> },
    CheckExists { path: Seq<char> },
    Ack,
    Reject,
    Idle,
}

impl View for Action {
    type V = ActionView;

    open spec fn view(&self) -> ActionView {
        match self {
            Action::Fetch { path } => ActionView::Fetch { path: path@ },
            Action::Parse { file_type, content } => ActionView::Parse {
                file_type: *file_type,
                content: content@,
            },
            Action::Store => ActionView::Store,
            Action::Upload { path, bytes } => ActionView::Upload { path: path@, bytes: bytes@ },
            Action::Publish { queue, key } => ActionView::Publish { queue: *queue, key: key@ },
            Action::Delete { path } => ActionView::Delete { path: path@ },
            Action::CheckExists { path } => ActionView::CheckExists { path: path@ },
            Action::Ack => ActionView::Ack,
            Action::Reject => ActionView::Reject,
            Action::Idle => ActionView::Idle,
        }
    }
}

/// Enter the failure path: delete the source object first.
pub open spec fn fail(file: FileView, fetched: Option<Seq<u8>>) -> (StateView, ActionView) {
    (StateView::FailDeleting { file, fetched }, ActionView::Delete { path: file.path })
}

pub open spec fn rejected() -> (StateView, ActionView) {
    (StateView::Rejected, ActionView::Reject)
}

/// The engine's transition on an event.
pub open spec fn next(stage: Stage, s: StateView, e: EventView) -> (
    StateView,
    ActionView,
) {
    match s {
        StateView::Received => match e {
            EventView::Delivered { key } => match decode_key(key) {
                Ok(m) => (
                    StateView::Fetching { file: FileView { path: key, key: m } },
                    ActionView::Fetch { path: key },
                ),
                Err(_) => rejected(),
            },
            _ => rejected(),
        },
        StateView::Fetching { file } => match e {
            EventView::Fetched { bytes: Some(b) } => match decompressed_by(file.key.compression, b) {
                Some(c) => (
                    StateView::Parsing { file, original: b, content: c },
                    ActionView::Parse { file_type: file.key.file_type, content: c },
                ),
                None => fail(file, Some(b)),
            },
            EventView::Fetched { bytes: None } => fail(file, None),
            _ => rejected(),
        },
        StateView::Parsing { file, original, content } => match e {
            EventView::Parsed { result: Err(_) } => fail(file, Some(original)),
            EventView::Parsed { result: Ok(rec) } => {
                let reuse = rec.compression == file.key.compression && rec.data == content;
                let output = if reuse {
                    original
                } else {
                    compressed_by(rec.compression, rec.data)
                };
                let target = parsed_path(file.key.name, rec.file_type, rec.compression);
                match stage {
                    Stage::Load => (
                        StateView::Storing { file, original, output, target },
                        ActionView::Store,
                    ),
                    Stage::Validate => (
                        StateView::Uploading { file, original, target },
                        ActionView::Upload { path: target, bytes: output },
                    ),
                }
            },
            _ => rejected(),
        },
        StateView::Storing { file, original, output, target } => match e {
            EventView::Done { ok: true } => (
                StateView::Uploading { file, original, target },
                ActionView::Upload { path: target, bytes: output },
            ),
            EventView::Done { ok: false } => fail(file, Some(original)),
            _ => rejected(),
        },
        StateView::Uploading { file, original, target } => match e {
            EventView::Done { ok: true } => match stage {
                Stage::Validate => (
                    StateView::Publishing { file, original, target },
                    ActionView::Publish { queue: Queue::Downstream, key: target },
                ),
                Stage::Load => (
                    StateView::Deleting { file, original },
                    ActionView::Delete { path: file.path },
                ),
            },
            EventView::Done { ok: false } => fail(file, Some(original)),
            _ => rejected(),
        },
        StateView::Publishing { file, original, target } => match e {
            EventView::Done { ok: true } => (
                StateView::Deleting { file, original },
                ActionView::Delete { path: file.path },
            ),
            EventView::Done { ok: false } => fail(file, Some(original)),
            _ => rejected(),
        },
        StateView::Deleting { file, original } => match e {
            EventView::Done { ok: true } => (StateView::Acked, ActionView::Ack),
            EventView::Done { ok: false } => fail(file, Some(original)),
            _ => rejected(),
        },
        StateView::FailDeleting { file, fetched } => match e {
            EventView::Done { ok: true } => match fetched {
                Some(b) => {
                    let failed = failed_path(
                        file.key.name,
                        file.key.file_type,
                        file.key.compression,
                    );
                    (
                        StateView::FailChecking { file, original: b, failed },
                        ActionView::CheckExists { path: failed },
                    )
                },
                None => rejected(),
            },
            _ => rejected(),
        },
        StateView::FailChecking { file, original, failed } => match e {
            EventView::Exists { found: false } => (
                StateView::FailUploading { failed },
                ActionView::Upload { path: failed, bytes: original },
            ),
            _ => rejected(),
        },
        StateView::FailUploading { failed } => match e {
            EventView::Done { ok: true } => (
                StateView::FailPublishing,
                ActionView::Publish { queue: Queue::ParseError, key: failed },
            ),
            _ => rejected(),
        },
        StateView::FailPublishing => rejected(),
        StateView::Acked => (StateView::Acked, ActionView::Idle),
        StateView::Rejected => (StateView::Rejected, ActionView::Idle),
    }
}

fn fail_with(file: FileData, fetched: Option<Vec<u8>>) -> (r: (DeliveryState, Action))
    ensures
        (r.0@, r.1@) == fail(file@, opt_bytes(fetched)),
{
    let path = file.file_path.clone();
    (DeliveryState::FailDeleting { file, fetched }, Action::Delete { path })
}

fn reject() -> (r: (DeliveryState, Action))
    ensures
        (r.0@, r.1@) == rejected(),
{
    (DeliveryState::Rejected, Action::Reject)
}

/// Advances a delivery by one event: returns the new state and the action
/// the caller performs next, whose outcome is the next event.
pub fn step(stage: Stage, state: DeliveryState, event: Event) -> (r: (DeliveryState, Action))
    ensures
        (r.0@, r.1@) == next(stage, state@, event@),
{
    let ghost s0 = state@;
    let ghost e0 = event@;
    let r = match state {
        DeliveryState::Received => match event {
            Event::Delivered { key } => match FileData::try_from(key.as_str()) {
                Ok(file) => {
                    let path = file.file_path.clone();
                    (DeliveryState::Fetching { file }, Action::Fetch { path })
                },
                Err(_) => reject(),
            },
            _ => reject(),
        },
        DeliveryState::Fetching { file } => match event {
            Event::Fetched { bytes: Some(original) } => match file.compression.decompress(
                original.as_slice(),
            ) {
                Ok(content) => {
                    let copy = slice_to_vec(content.as_slice());
                    let file_type = file.file_type;
                    (
                        DeliveryState::Parsing { file, original, content },
                        Action::Parse { file_type, content: copy },
                    )
                },
                Err(_) => fail_with(file, Some(original)),
            },
            Event::Fetched { bytes: None } => fail_with(file, None),
            _ => reject(),
        },
        DeliveryState::Parsing { file, original, content } => match event {
            Event::Parsed { result: Err(_) } => fail_with(file, Some(original)),
            Event::Parsed { result: Ok(rec) } => {
                let output = prepare_output(
                    file.compression,
                    original.as_slice(),
                    content.as_slice(),
                    rec.compression,
                    rec.data.as_slice(),
                );
                let target = get_parsed_path(
                    file.file_name.as_str(),
                    rec.file_type,
                    rec.compression,
                );
                match stage {
                    Stage::Load => (
                        DeliveryState::Storing { file, original, output, target },
                        Action::Store,
                    ),
                    Stage::Validate => {
                        let path = target.clone();
                        (
                            DeliveryState::Uploading { file, original, target },
                            Action::Upload { path, bytes: output },
                        )
                    },
                }
            },
            _ => reject(),
        },
        DeliveryState::Storing { file, original, output, target } => match event {
            Event::Done { ok: true } => {
                let path = target.clone();
                (
                    DeliveryState::Uploading { file, original, target },
                    Action::Upload { path, bytes: output },
                )
            },
            Event::Done { ok: false } => fail_with(file, Some(original)),
            _ => reject(),
        },
        DeliveryState::Uploading { file, original, target } => match event {
            Event::Done { ok: true } => match stage {
                Stage::Validate => {
                    let key = target.clone();
                    (
                        DeliveryState::Publishing { file, original, target },
                        Action::Publish { queue: Queue::Downstream, key },
                    )
                },
                Stage::Load => {
                    let path = file.file_path.clone();
                    (DeliveryState::Deleting { file, original }, Action::Delete { path })
                },
            },
            Event::Done { ok: false } => fail_with(file, Some(original)),
            _ => reject(),
        },
        DeliveryState::Publishing { file, original, target } => match event {
            Event::Done { ok: true } => {
                let path = file.file_path.clone();
                (DeliveryState::Deleting { file, original }, Action::Delete { path })
            },
            Event::Done { ok: false } => fail_with(file, Some(original)),
            _ => reject(),
        },
        DeliveryState::Deleting { file, original } => match event {
            Event::Done { ok: true } => (DeliveryState::Acked, Action::Ack),
            Event::Done { ok: false } => fail_with(file, Some(original)),
            _ => reject(),
        },
        DeliveryState::FailDeleting { file, fetched } => match event {
            Event::Done { ok: true } => match fetched {
                Some(original) => {
                    let failed = get_failed_path(
                        file.file_name.as_str(),
                        file.file_type,
                        file.compression,
                    );
                    let path = failed.clone();
                    (
                        DeliveryState::FailChecking { file, original, failed },
                        Action::CheckExists { path },
                    )
                },
                None => reject(),
            },
            _ => reject(),
        },
        DeliveryState::FailChecking { file, original, failed } => match event {
            Event::Exists { found: false } => {
                let path = failed.clone();
                (DeliveryState::FailUploading { failed }, Action::Upload { path, bytes: original })
            },
            _ => reject(),
        },
        DeliveryState::FailUploading { failed } => match event {
            Event::Done { ok: true } => (
                DeliveryState::FailPublishing,
                Action::Publish { queue: Queue::ParseError, key: failed },
            ),
            _ => reject(),
        },
        DeliveryState::FailPublishing => reject(),
        DeliveryState::Acked => (DeliveryState::Acked, Action::Idle),
        DeliveryState::Rejected => (DeliveryState::Rejected, Action::Idle),
    };
    assert((r.0@, r.1@) == next(stage, s0, e0));
    r
}

/// An object whose parser recommends the codec and payload it already had is
/// stored for the next stage byte for byte as it was fetched: the validating
/// tier uploads the original bytes, the loading tier keeps them as the output
/// it uploads once the record is stored.
pub proof fn lemma_unchanged_object_kept(
    stage: Stage,
    file: FileView,
    original: Seq<u8>,
    content: Seq<u8>,
    rec: Recommendation,
)
    requires
        rec.compression == file.key.compression,
        rec.data == content,
    ensures
        ({
            let (s, a) = next(
                stage,
                StateView::Parsing { file, original, content },
                EventView::Parsed { result: Ok(rec) },
            );
            let target = parsed_path(file.key.name, rec.file_type, rec.compression);
            match stage {
                Stage::Validate => a == ActionView::Upload { path: target, bytes: original },
                Stage::Load => next(stage, s, EventView::Done { ok: true }).1
                    == ActionView::Upload { path: target, bytes: original },
            }
        }),
{
}

/// The states of the failure path, the rejected end included.
pub open spec fn failing(s: StateView) -> bool {
    ||| s is FailDeleting
    ||| s is FailChecking
    ||| s is FailUploading
    ||| s is FailPublishing
    ||| s is Rejected
}

/// Once a delivery is on the failure path it stays there and is never
/// acknowledged, whatever happens next.
pub proof fn lemma_failure_never_acked(stage: Stage, s: StateView, e: EventView)
    requires
        failing(s),
    ensures
        failing(next(stage, s, e).0),
        next(stage, s, e).1 != ActionView::Ack,
{
}

/// A delivery whose object is missing or cannot be read takes the failure
/// path: its key is deleted and the delivery rejected, never acknowledged.
pub proof fn lemma_missing_object_rejected(
    stage: Stage,
    file: FileView,
    e: EventView,
    later: EventView,
)
    ensures
        next(stage, StateView::Fetching { file }, EventView::Fetched { bytes: None })
            == fail(file, None),
        next(stage, StateView::FailDeleting { file, fetched: None }, e) == rejected(),
        next(stage, StateView::Rejected, later) == (StateView::Rejected, ActionView::Idle),
        failing(fail(file, None).0),
{
}

/// How an object store answers the engine's actions, for objects that no
/// parser accepts: every other operation succeeds.
pub open spec fn answer_poison(w: Map<Seq<char>, Seq<u8>>, a: ActionView) -> (
    Map<Seq<char>, Seq<u8>>,
    EventView,
) {
    match a {
        ActionView::Fetch { path } => (
            w,
            EventView::Fetched {
                bytes: if w.contains_key(path) {
                    Some(w[path])
                } else {
                    None
                },
            },
        ),
        ActionView::Parse { .. } => (w, EventView::Parsed { result: Err(ParseError::ProtobufDecode) }),
        ActionView::Upload { path, bytes } => (w.insert(path, bytes), EventView::Done { ok: true }),
        ActionView::Delete { path } => (w.remove(path), EventView::Done { ok: true }),
        ActionView::CheckExists { path } => (w, EventView::Exists { found: w.contains_key(path) }),
        _ => (w, EventView::Done { ok: true }),
    }
}

/// Runs a delivery against such a store for at most `fuel` steps: the store
/// after it, and the actions the engine took.
pub open spec fn run_poison(
    stage: Stage,
    s: StateView,
    e: EventView,
    w: Map<Seq<char>, Seq<u8>>,
    fuel: nat,
) -> (Map<Seq<char>, Seq<u8>>, Seq<ActionView>)
    decreases fuel,
{
    if fuel == 0 {
        (w, Seq::empty())
    } else {
        let (s2, a) = next(stage, s, e);
        if a is Ack || a is Reject || a is Idle {
            (w, seq![a])
        } else {
            let (w2, e2) = answer_poison(w, a);
            let (w3, rest) = run_poison(stage, s2, e2, w2, (fuel - 1) as nat);
            (w3, seq![a] + rest)
        }
    }
}

/// One delivery of `key`, run to its end.
pub open spec fn deliver_poison(stage: Stage, key: Seq<char>, w: Map<Seq<char>, Seq<u8>>) -> (
    Map<Seq<char>, Seq<u8>>,
    Seq<ActionView>,
) {
    run_poison(stage, StateView::Received, EventView::Delivered { key }, w, 10)
}

/// How many of the actions upload to `path`.
pub open spec fn uploads_to(t: Seq<ActionView>, path: Seq<char>) -> nat
    decreases t.len(),
{
    if t.len() == 0 {
        0
    } else {
        uploads_to(t.drop_last(), path) + if t.last() matches ActionView::Upload { path: p, .. }
            && p == path {
            1nat
        } else {
            0nat
        }
    }
}

/// How many of the actions publish on `queue`.
pub open spec fn publishes_on(t: Seq<ActionView>, queue: Queue) -> nat
    decreases t.len(),
{
    if t.len() == 0 {
        0
    } else {
        publishes_on(t.drop_last(), queue) + if t.last() matches ActionView::Publish { queue: q, .. }
            && q == queue {
            1nat
        } else {
            0nat
        }
    }
}

proof fn lemma_counts_concat(a: Seq<ActionView>, b: Seq<ActionView>, path: Seq<char>, queue: Queue)
    ensures
        uploads_to(a + b, path) == uploads_to(a, path) + uploads_to(b, path),
        publishes_on(a + b, queue) == publishes_on(a, queue) + publishes_on(b, queue),
    decreases b.len(),
{
    if b.len() == 0 {
        assert(a + b =~= a);
    } else {
        lemma_counts_concat(a, b.drop_last(), path, queue);
        assert((a + b).drop_last() =~= a + b.drop_last());
        assert((a + b).last() == b.last());
    }
}

proof fn lemma_count_one(x: ActionView, path: Seq<char>, queue: Queue)
    ensures
        uploads_to(seq![x], path) == if x matches ActionView::Upload { path: p, .. } && p == path {
            1nat
        } else {
            0nat
        },
        publishes_on(seq![x], queue) == if x matches ActionView::Publish { queue: q, .. } && q
            == queue {
            1nat
        } else {
            0nat
        },
{
    assert(seq![x].drop_last() =~= Seq::<ActionView>::empty());
    assert(uploads_to(seq![x].drop_last(), path) == 0);
    assert(publishes_on(seq![x].drop_last(), queue) == 0);
    assert(seq![x].last() == x);
}

/// The end of the failure path when the object was fetched and no failed
/// copy exists yet: check, upload, publish, reject.
proof fn lemma_relocation_tail(
    stage: Stage,
    file: FileView,
    b: Seq<u8>,
    w: Map<Seq<char>, Seq<u8>>,
    fuel: nat,
)
    requires
        fuel >= 4,
        !w.contains_key(failed_path(file.key.name, file.key.file_type, file.key.compression)),
    ensures
        ({
            let failed = failed_path(file.key.name, file.key.file_type, file.key.compression);
            run_poison(stage, StateView::FailDeleting { file, fetched: Some(b) }, EventView::Done { ok: true }, w, fuel)
                == (w.insert(failed, b), seq![
                ActionView::CheckExists { path: failed },
                ActionView::Upload { path: failed, bytes: b },
                ActionView::Publish { queue: Queue::ParseError, key: failed },
                ActionView::Reject,
            ])
        }),
{
    let failed = failed_path(file.key.name, file.key.file_type, file.key.compression);
    let w1 = w.insert(failed, b);
    let f = (fuel - 3) as nat;
    assert(run_poison(stage, StateView::FailPublishing, EventView::Done { ok: true }, w1, f) == (
        w1,
        seq![ActionView::Reject],
    ));
    assert(run_poison(stage, StateView::FailUploading { failed }, EventView::Done { ok: true }, w1, f + 1)
        == (w1, seq![ActionView::Publish { queue: Queue::ParseError, key: failed }] + seq![ActionView::Reject]));
    assert(run_poison(
        stage,
        StateView::FailChecking { file, original: b, failed },
        EventView::Exists { found: false },
        w,
        f + 2,
    ) == (w1, seq![ActionView::Upload { path: failed, bytes: b }] + (seq![
        ActionView::Publish { queue: Queue::ParseError, key: failed },
    ] + seq![ActionView::Reject])));
    assert(run_poison(
        stage,
        StateView::FailDeleting { file, fetched: Some(b) },
        EventView::Done { ok: true },
        w,
        f + 3,
    ) == (w1, seq![ActionView::CheckExists { path: failed }] + (seq![
        ActionView::Upload { path: failed, bytes: b },
    ] + (seq![ActionView::Publish { queue: Queue::ParseError, key: failed }] + seq![
        ActionView::Reject,
    ]))));
    assert(seq![ActionView::CheckExists { path: failed }] + (seq![
        ActionView::Upload { path: failed, bytes: b },
    ] + (seq![ActionView::Publish { queue: Queue::ParseError, key: failed }] + seq![
        ActionView::Reject,
    ])) =~= seq![
        ActionView::CheckExists { path: failed },
        ActionView::Upload { path: failed, bytes: b },
        ActionView::Publish { queue: Queue::ParseError, key: failed },
        ActionView::Reject,
    ]);
}

/// Delivering the same poison key twice relocates its object exactly once and
/// publishes exactly one error message; both deliveries end rejected. Since
/// `step` is exactly `next`, this holds of the actions `step` asks for when
/// the store answers them faithfully. (A key
/// that is its own failed-object key is left out: relocating it removes
/// nothing.)
pub proof fn lemma_poison_relocated_once(stage: Stage, key: Seq<char>, w: Map<Seq<char>, Seq<u8>>)
    requires
        decode_key(key) is Ok,
        w.contains_key(key),
        !w.contains_key(
            failed_path(
                decode_key(key)->Ok_0.name,
                decode_key(key)->Ok_0.file_type,
                decode_key(key)->Ok_0.compression,
            ),
        ),
        key != failed_path(
            decode_key(key)->Ok_0.name,
            decode_key(key)->Ok_0.file_type,
            decode_key(key)->Ok_0.compression,
        ),
    ensures
        ({
            let m = decode_key(key)->Ok_0;
            let failed = failed_path(m.name, m.file_type, m.compression);
            let (w1, t1) = deliver_poison(stage, key, w);
            let (w2, t2) = deliver_poison(stage, key, w1);
            &&& uploads_to(t1 + t2, failed) == 1
            &&& publishes_on(t1 + t2, Queue::ParseError) == 1
            &&& t1.last() == ActionView::Reject
            &&& t2.last() == ActionView::Reject
        }),
{
    let m = decode_key(key)->Ok_0;
    let failed = failed_path(m.name, m.file_type, m.compression);
    let file = FileView { path: key, key: m };
    let b = w[key];
    let wr = w.remove(key);
    let w1 = wr.insert(failed, b);
    let tail = seq![
        ActionView::CheckExists { path: failed },
        ActionView::Upload { path: failed, bytes: b },
        ActionView::Publish { queue: Queue::ParseError, key: failed },
        ActionView::Reject,
    ];
    let del = ActionView::Delete { path: key };
    let fetch = ActionView::Fetch { path: key };
    let start = StateView::Received;
    let delivered = EventView::Delivered { key };
    let fetching = StateView::Fetching { file };
    let failing_state = StateView::FailDeleting { file, fetched: Some(b) };
    let t1 = if decompressed_by(m.compression, b) is Some {
        let c = decompressed_by(m.compression, b)->Some_0;
        let parse = ActionView::Parse { file_type: m.file_type, content: c };
        lemma_relocation_tail(stage, file, b, wr, 7);
        let parsing = StateView::Parsing { file, original: b, content: c };
        assert(run_poison(stage, parsing, EventView::Parsed { result: Err(ParseError::ProtobufDecode) }, w, 8)
            == (w1, seq![del] + tail));
        assert(run_poison(stage, fetching, EventView::Fetched { bytes: Some(b) }, w, 9) == (
            w1,
            seq![parse] + (seq![del] + tail),
        ));
        assert(run_poison(stage, start, delivered, w, 10) == (
            w1,
            seq![fetch] + (seq![parse] + (seq![del] + tail)),
        ));
        lemma_counts_concat(seq![parse], seq![del] + tail, failed, Queue::ParseError);
        lemma_counts_concat(seq![fetch], seq![parse] + (seq![del] + tail), failed, Queue::ParseError);
        lemma_count_one(parse, failed, Queue::ParseError);
        seq![fetch] + (seq![parse] + (seq![del] + tail))
    } else {
        lemma_relocation_tail(stage, file, b, wr, 8);
        assert(run_poison(stage, fetching, EventView::Fetched { bytes: Some(b) }, w, 9) == (
            w1,
            seq![del] + tail,
        ));
        assert(run_poison(stage, start, delivered, w, 10) == (w1, seq![fetch] + (seq![del] + tail)));
        lemma_counts_concat(seq![fetch], seq![del] + tail, failed, Queue::ParseError);
        seq![fetch] + (seq![del] + tail)
    };
    assert(deliver_poison(stage, key, w) == (w1, t1));
    lemma_counts_concat(seq![del], tail, failed, Queue::ParseError);
    lemma_count_one(fetch, failed, Queue::ParseError);
    lemma_count_one(del, failed, Queue::ParseError);
    assert(tail =~= seq![ActionView::CheckExists { path: failed }] + (seq![
        ActionView::Upload { path: failed, bytes: b },
    ] + (seq![ActionView::Publish { queue: Queue::ParseError, key: failed }] + seq![
        ActionView::Reject,
    ])));
    lemma_count_one(ActionView::CheckExists { path: failed }, failed, Queue::ParseError);
    lemma_count_one(ActionView::Upload { path: failed, bytes: b }, failed, Queue::ParseError);
    lemma_count_one(ActionView::Publish { queue: Queue::ParseError, key: failed }, failed, Queue::ParseError);
    lemma_count_one(ActionView::Reject, failed, Queue::ParseError);
    lemma_counts_concat(seq![ActionView::Publish { queue: Queue::ParseError, key: failed }], seq![ActionView::Reject], failed, Queue::ParseError);
    lemma_counts_concat(seq![ActionView::Upload { path: failed, bytes: b }], seq![ActionView::Publish { queue: Queue::ParseError, key: failed }] + seq![ActionView::Reject], failed, Queue::ParseError);
    lemma_counts_concat(seq![ActionView::CheckExists { path: failed }], seq![ActionView::Upload { path: failed, bytes: b }] + (seq![ActionView::Publish { queue: Queue::ParseError, key: failed }] + seq![ActionView::Reject]), failed, Queue::ParseError);
    assert(uploads_to(t1, failed) == 1);
    assert(publishes_on(t1, Queue::ParseError) == 1);
    // The second delivery finds the object gone.
    assert(!w1.contains_key(key));
    let rejected_tail = seq![ActionView::Reject];
    assert(run_poison(stage, StateView::FailDeleting { file, fetched: None }, EventView::Done { ok: true }, w1.remove(key), 8)
        == (w1.remove(key), rejected_tail));
    assert(run_poison(stage, fetching, EventView::Fetched { bytes: None }, w1, 9) == (
        w1.remove(key),
        seq![del] + rejected_tail,
    ));
    assert(run_poison(stage, start, delivered, w1, 10) == (
        w1.remove(key),
        seq![fetch] + (seq![del] + rejected_tail),
    ));
    let t2 = seq![fetch] + (seq![del] + rejected_tail);
    lemma_counts_concat(seq![del], rejected_tail, failed, Queue::ParseError);
    lemma_counts_concat(seq![fetch], seq![del] + rejected_tail, failed, Queue::ParseError);
    lemma_counts_concat(t1, t2, failed, Queue::ParseError);
    assert(t1.last() == ActionView::Reject);
    assert(t2.last() == ActionView::Reject);
}

} // verus!
