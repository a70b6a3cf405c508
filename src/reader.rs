//! The reader's state machine. Worker-side work comes back to the owner as
//! tasks stamped with the generation that was current when the read began;
//! the owner replays a task only while that generation is still current.
use crate::codec::{base64_of, dataurl_spec, label_view, text_decode_spec, FileReaderSharedFunctionality};
use vstd::prelude::*;

verus! {

/// The kind of result a read produces.
#[derive(Clone, Copy, Debug, PartialEq, Eq, Structural)]
pub enum FileReaderFunction {
    ReadAsText,
    ReadAsDataUrl,
    ReadAsArrayBuffer,
}

/// What a read needs besides the bytes, fixed when the read starts.
pub struct ReadMetaData {
    pub blobtype: String,
    pub label: Option<String>,
    pub function: FileReaderFunction,
}

impl ReadMetaData {
    pub fn new(blobtype: String, label: Option<String>, function: FileReaderFunction) -> (r: ReadMetaData)
        ensures
            r.blobtype@ == blobtype@,
            label_view(r.label) == label_view(label),
            r.function == function,
    {
        ReadMetaData { blobtype: blobtype, label: label, function: function }
    }
}

/// The token that tells the live read apart from superseded ones.
#[derive(Clone, Copy, Debug, PartialEq, Eq, Structural)]
pub struct GenerationId(pub u32);

#[derive(Clone, Copy, Debug, PartialEq, Eq, Structural)]
pub enum FileReaderReadyState {
    Empty,
    Loading,
    Done,
}

/// The outcome of a successful read.
pub enum FileReaderResult {
    ArrayBuffer(Vec<u8>),
    String(String),
}

/// A read result as a mathematical value.
pub enum ResultView {
    ArrayBuffer(Seq<u8>),
    Text(Seq<char>),
}

impl View for FileReaderResult {
    type V = ResultView;

    open spec fn view(&self) -> ResultView {
        match self {
            FileReaderResult::ArrayBuffer(b) => ResultView::ArrayBuffer(b@),
            FileReaderResult::String(s) => ResultView::Text(s@),
        }
    }
}

/// The error conditions a reader can record.
#[derive(Clone, Copy, Debug, PartialEq, Eq, Structural)]
pub enum DOMErrorName {
    AbortError,
    NotFoundError,
    NotReadableError,
    SecurityError,
    EncodingError,
}

/// Why a read could not start.
#[derive(Clone, Copy, Debug, PartialEq, Eq, Structural)]
pub enum Error {
    InvalidState,
}

/// The named signals a reader emits.
#[derive(Clone, Copy, Debug, PartialEq, Eq, Structural)]
pub enum ProgressEventType {
    LoadStart,
    Progress,
    Load,
    Abort,
    Error,
    LoadEnd,
}

/// A signal to deliver to listeners, with its progress figures.
#[derive(Clone, Copy, Debug, PartialEq, Eq, Structural)]
pub struct ProgressEvent {
    pub event_type: ProgressEventType,
    pub length_computable: bool,
    pub loaded: u64,
    pub total: u64,
}

/// The signal of the given type as this reader sends it: nothing loaded,
/// no total known.
pub open spec fn signal(t: ProgressEventType) -> ProgressEvent {
    ProgressEvent { event_type: t, length_computable: false, loaded: 0, total: 0 }
}

/// The signals of an abort.
pub open spec fn abort_signals() -> Seq<ProgressEvent> {
    seq![signal(ProgressEventType::Abort), signal(ProgressEventType::LoadEnd)]
}

/// The next generation; the counter wraps rather than overflowing.
pub open spec fn next_generation(g: u32) -> u32 {
    if g == u32::MAX {
        0
    } else {
        (g + 1) as u32
    }
}

/// The owner-side state of a reader.
pub struct ReaderState {
    pub ready_state: FileReaderReadyState,
    pub error: Option<DOMErrorName>,
    pub result: Option<ResultView>,
    pub generation: u32,
}

impl ReaderState {
    /// Result and error are never both set, and a read in progress has neither.
    pub open spec fn wf(self) -> bool {
        &&& !(self.result is Some && self.error is Some)
        &&& self.ready_state == FileReaderReadyState::Loading ==> self.result is None && self.error is None
    }
}

/// A fresh reader.
pub open spec fn initial_state() -> ReaderState {
    ReaderState { ready_state: FileReaderReadyState::Empty, error: None, result: None, generation: 0 }
}

/// The state after a read starts (from any state but `Loading`).
pub open spec fn start_spec(s: ReaderState) -> ReaderState {
    ReaderState { ready_state: FileReaderReadyState::Loading, error: None, result: None, generation: s.generation }
}

/// The state after an abort.
pub open spec fn abort_spec(s: ReaderState) -> ReaderState {
    ReaderState {
        ready_state: if s.ready_state == FileReaderReadyState::Loading {
            FileReaderReadyState::Done
        } else {
            s.ready_state
        },
        error: Some(DOMErrorName::AbortError),
        result: None,
        generation: next_generation(s.generation),
    }
}

/// What a read of the given kind makes of the bytes.
pub open spec fn read_result_spec(blobtype: Seq<char>, label: Option<Seq<char>>, function: FileReaderFunction, bytes: Seq<u8>) -> ResultView {
    match function {
        FileReaderFunction::ReadAsText => ResultView::Text(text_decode_spec(bytes, blobtype, label)),
        FileReaderFunction::ReadAsDataUrl => ResultView::Text(dataurl_spec(blobtype, base64_of(bytes))),
        FileReaderFunction::ReadAsArrayBuffer => ResultView::ArrayBuffer(bytes),
    }
}

/// The state after the completion task of generation `g` is replayed.
pub open spec fn eof_spec(s: ReaderState, g: u32, result: ResultView) -> ReaderState {
    if g != s.generation {
        s
    } else {
        ReaderState {
            ready_state: FileReaderReadyState::Done,
            error: None,
            result: Some(result),
            generation: next_generation(s.generation),
        }
    }
}

/// The signals of replaying the completion task of generation `g`.
pub open spec fn eof_signals(s: ReaderState, g: u32) -> Seq<ProgressEvent> {
    if g != s.generation {
        seq![]
    } else {
        seq![signal(ProgressEventType::Load), signal(ProgressEventType::LoadEnd)]
    }
}

/// The state after the error task of generation `g` is replayed.
pub open spec fn read_error_spec(s: ReaderState, g: u32, e: DOMErrorName) -> ReaderState {
    if g != s.generation {
        s
    } else {
        ReaderState {
            ready_state: FileReaderReadyState::Done,
            error: Some(e),
            result: None,
            generation: next_generation(s.generation),
        }
    }
}

/// The signals of replaying the error task of generation `g`.
pub open spec fn read_error_signals(s: ReaderState, g: u32) -> Seq<ProgressEvent> {
    if g != s.generation {
        seq![]
    } else {
        seq![signal(ProgressEventType::Error), signal(ProgressEventType::LoadEnd)]
    }
}

/// The one signal a notification task of generation `g` sends, if `g` is current.
pub open spec fn notify_signals(s: ReaderState, g: u32, t: ProgressEventType) -> Seq<ProgressEvent> {
    if g != s.generation {
        seq![]
    } else {
        seq![signal(t)]
    }
}


/// The bytes a read works on: the source's, or none if it could not give them.
pub open spec fn snapshot_spec(blob_bytes: Result<Vec<u8>, ()>) -> Seq<u8> {
    match blob_bytes {
        Ok(b) => b@,
        Err(_) => Seq::empty(),
    }
}

/// The numeric code of a ready state.
pub open spec fn ready_state_code(s: FileReaderReadyState) -> u16 {
    match s {
        FileReaderReadyState::Empty => 0,
        FileReaderReadyState::Loading => 1,
        FileReaderReadyState::Done => 2,
    }
}

/// What starting a read does: refused while one is in progress (nothing
/// changes); otherwise the reader is loading, with no result or error, and
/// the operation carries the current generation, the read's metadata and
/// the byte snapshot.
pub open spec fn read_outcome(
    s: ReaderState,
    s2: ReaderState,
    r: Result<ReadOperation, Error>,
    function: FileReaderFunction,
    blob_type: Seq<char>,
    label: Option<Seq<char>>,
    snapshot: Seq<u8>,
) -> bool {
    if s.ready_state == FileReaderReadyState::Loading {
        &&& r == Err::<ReadOperation, Error>(Error::InvalidState)
        &&& s2 == s
    } else {
        &&& r is Ok
        &&& s2 == start_spec(s)
        &&& r->Ok_0.gen_id.0 == s.generation
        &&& r->Ok_0.data.blobtype@ == blob_type
        &&& label_view(r->Ok_0.data.label) == label
        &&& r->Ok_0.data.function == function
        &&& r->Ok_0.blob_contents@ == snapshot
    }
}

/// A read that has started: what the worker needs to produce its tasks.
pub struct ReadOperation {
    pub gen_id: GenerationId,
    pub data: ReadMetaData,
    pub blob_contents: Vec<u8>,
}

/// A notification from a read operation, replayed on the owner.
pub enum FileReadingTask {
    ProcessRead(GenerationId),
    ProcessReadData(GenerationId),
    ProcessReadError(GenerationId, DOMErrorName),
    ProcessReadEOF(GenerationId, ReadMetaData, Vec<u8>),
}

/// A reader: its ready state, its last result or error, and the generation
/// of the read it currently accepts notifications from.
pub struct FileReader {
    ready_state: FileReaderReadyState,
    error: Option<DOMErrorName>,
    result: Option<FileReaderResult>,
    generation_id: GenerationId,
}

/// The view of an optional result.
pub open spec fn result_view(r: Option<FileReaderResult>) -> Option<ResultView> {
    match r {
        Some(x) => Some(x@),
        None => None,
    }
}

impl View for FileReader {
    type V = ReaderState;

    closed spec fn view(&self) -> ReaderState {
        ReaderState {
            ready_state: self.ready_state,
            error: self.error,
            result: result_view(self.result),
            generation: self.generation_id.0,
        }
    }
}

/// The signal with the given figures; `total` is known only when given.
fn dispatch_progress_event(type_: ProgressEventType, loaded: u64, total: Option<u64>) -> (r: ProgressEvent)
    ensures
        r.event_type == type_,
        r.loaded == loaded,
        r.length_computable == (total is Some),
        r.total == match total {
            Some(t) => t,
            None => 0,
        },
{
    let t: u64 = match total {
        Some(t) => t,
        None => 0,
    };
    ProgressEvent { event_type: type_, length_computable: total.is_some(), loaded: loaded, total: t }
}

impl FileReader {
    pub fn new_inherited() -> (r: FileReader)
        ensures
            r@ == initial_state(),
            r@.wf(),
    {
        FileReader {
            ready_state: FileReaderReadyState::Empty,
            error: None,
            result: None,
            generation_id: GenerationId(0),
        }
    }

    pub fn new() -> (r: FileReader)
        ensures
            r@ == initial_state(),
    {
        FileReader::new_inherited()
    }

    #[allow(non_snake_case)]
    pub fn Constructor() -> (r: Result<FileReader, Error>)
        ensures
            r matches Ok(fr) && fr@ == initial_state(),
    {
        Ok(FileReader::new())
    }

    /// Ends the current read: any task still carrying its generation becomes stale.
    fn terminate_ongoing_reading(&mut self)
        ensures
            final(self).ready_state == old(self).ready_state,
            final(self).error == old(self).error,
            final(self).result == old(self).result,
            final(self).generation_id.0 == next_generation(old(self).generation_id.0),
    {
        let GenerationId(prev_id) = self.generation_id;
        self.generation_id = GenerationId(prev_id.wrapping_add(1));
    }

    /// Replays the start notification of generation `gen_id`.
    pub fn process_read(&mut self, gen_id: GenerationId) -> (r: Vec<ProgressEvent>)
        ensures
            final(self)@ == old(self)@,
            r@ == notify_signals(old(self)@, gen_id.0, ProgressEventType::LoadStart),
    {
        let mut events: Vec<ProgressEvent> = Vec::new();
        if gen_id != self.generation_id {
            return events;
        }
        events.push(dispatch_progress_event(ProgressEventType::LoadStart, 0, None));
        events
    }

    /// Replays the progress notification of generation `gen_id`. No byte
    /// counts are tracked: the signal only keeps the order of events.
    pub fn process_read_data(&mut self, gen_id: GenerationId) -> (r: Vec<ProgressEvent>)
        ensures
            final(self)@ == old(self)@,
            r@ == notify_signals(old(self)@, gen_id.0, ProgressEventType::Progress),
    {
        let mut events: Vec<ProgressEvent> = Vec::new();
        if gen_id != self.generation_id {
            return events;
        }
        events.push(dispatch_progress_event(ProgressEventType::Progress, 0, None));
        events
    }

    /// Replays a failure of the read of generation `gen_id`: the reader is
    /// done, holds the error and no result, and the read is over.
    pub fn process_read_error(&mut self, gen_id: GenerationId, error: DOMErrorName) -> (r: Vec<ProgressEvent>)
        ensures
            final(self)@ == read_error_spec(old(self)@, gen_id.0, error),
            r@ == read_error_signals(old(self)@, gen_id.0),
            old(self)@.wf() ==> final(self)@.wf(),
    {
        let mut events: Vec<ProgressEvent> = Vec::new();
        if gen_id != self.generation_id {
            return events;
        }
        self.change_ready_state(FileReaderReadyState::Done);
        self.result = None;
        self.error = Some(error);
        events.push(dispatch_progress_event(ProgressEventType::Error, 0, None));
        events.push(dispatch_progress_event(ProgressEventType::LoadEnd, 0, None));
        self.terminate_ongoing_reading();
        proof {
            assert(events@ =~= read_error_signals(old(self)@, gen_id.0));
        }
        events
    }

    /// Replays the completion of the read of generation `gen_id`: the
    /// reader is done and holds the decoded result, and the read is over.
    pub fn process_read_eof(&mut self, gen_id: GenerationId, data: ReadMetaData, blob_contents: Vec<u8>) -> (r: Vec<
        ProgressEvent,
    >)
        ensures
            final(self)@ == eof_spec(
                old(self)@,
                gen_id.0,
                read_result_spec(data.blobtype@, label_view(data.label), data.function, blob_contents@),
            ),
            r@ == eof_signals(old(self)@, gen_id.0),
            old(self)@.wf() ==> final(self)@.wf(),
    {
        let mut events: Vec<ProgressEvent> = Vec::new();
        if gen_id != self.generation_id {
            return events;
        }
        self.change_ready_state(FileReaderReadyState::Done);
        let result = match data.function {
            FileReaderFunction::ReadAsDataUrl => FileReader::perform_readasdataurl(data, &blob_contents),
            FileReaderFunction::ReadAsText => FileReader::perform_readastext(data, &blob_contents),
            FileReaderFunction::ReadAsArrayBuffer => FileReader::perform_readasarraybuffer(data, blob_contents),
        };
        self.result = Some(result);
        self.error = None;
        events.push(dispatch_progress_event(ProgressEventType::Load, 0, None));
        if self.ready_state != FileReaderReadyState::Loading {
            events.push(dispatch_progress_event(ProgressEventType::LoadEnd, 0, None));
        }
        self.terminate_ongoing_reading();
        proof {
            assert(events@ =~= eof_signals(old(self)@, gen_id.0));
        }
        events
    }

    fn perform_readastext(data: ReadMetaData, blob_bytes: &[u8]) -> (r: FileReaderResult)
        ensures
            r@ == ResultView::Text(text_decode_spec(blob_bytes@, data.blobtype@, label_view(data.label))),
    {
        let blob_label = &data.label;
        let blob_type = &data.blobtype;
        let output = FileReaderSharedFunctionality::text_decode(blob_bytes, blob_type.as_str(), blob_label);
        FileReaderResult::String(output)
    }

    fn perform_readasdataurl(data: ReadMetaData, bytes: &[u8]) -> (r: FileReaderResult)
        ensures
            r@ == ResultView::Text(dataurl_spec(data.blobtype@, base64_of(bytes@))),
    {
        let output = FileReaderSharedFunctionality::dataurl_format(bytes, data.blobtype);
        FileReaderResult::String(output)
    }

    fn perform_readasarraybuffer(_data: ReadMetaData, bytes: Vec<u8>) -> (r: FileReaderResult)
        ensures
            r@ == ResultView::ArrayBuffer(bytes@),
    {
        FileReaderResult::ArrayBuffer(bytes)
    }

    /// Starts a read unless one is in progress. The byte snapshot is taken
    /// now; a source that cannot give its bytes reads as empty. The returned
    /// operation carries the current generation, to be run off the owner.
    fn read(
        &mut self,
        function: FileReaderFunction,
        blob_bytes: Result<Vec<u8>, ()>,
        blob_type: String,
        label: Option<String>,
    ) -> (r: Result<ReadOperation, Error>)
        ensures
            read_outcome(old(self)@, final(self)@, r, function, blob_type@, label_view(label), snapshot_spec(blob_bytes)),
    {
        if self.ready_state == FileReaderReadyState::Loading {
            return Err(Error::InvalidState);
        }
        self.change_ready_state(FileReaderReadyState::Loading);
        self.result = None;
        self.error = None;
        let blob_contents = match blob_bytes {
            Ok(bytes) => bytes,
            Err(_) => Vec::new(),
        };
        let load_data = ReadMetaData::new(blob_type, label, function);
        let gen_id = self.generation_id;
        Ok(ReadOperation { gen_id: gen_id, data: load_data, blob_contents: blob_contents })
    }

    #[allow(non_snake_case)]
    pub fn ReadAsArrayBuffer(&mut self, blob_bytes: Result<Vec<u8>, ()>, blob_type: String) -> (r: Result<
        ReadOperation,
        Error,
    >)
        ensures
            read_outcome(old(self)@, final(self)@, r, FileReaderFunction::ReadAsArrayBuffer, blob_type@, None, snapshot_spec(blob_bytes)),
    {
        self.read(FileReaderFunction::ReadAsArrayBuffer, blob_bytes, blob_type, None)
    }

    #[allow(non_snake_case)]
    pub fn ReadAsDataURL(&mut self, blob_bytes: Result<Vec<u8>, ()>, blob_type: String) -> (r: Result<
        ReadOperation,
        Error,
    >)
        ensures
            read_outcome(old(self)@, final(self)@, r, FileReaderFunction::ReadAsDataUrl, blob_type@, None, snapshot_spec(blob_bytes)),
    {
        self.read(FileReaderFunction::ReadAsDataUrl, blob_bytes, blob_type, None)
    }

    #[allow(non_snake_case)]
    pub fn ReadAsText(&mut self, blob_bytes: Result<Vec<u8>, ()>, blob_type: String, label: Option<String>) -> (r:
        Result<ReadOperation, Error>)
        ensures
            read_outcome(old(self)@, final(self)@, r, FileReaderFunction::ReadAsText, blob_type@, label_view(label), snapshot_spec(blob_bytes)),
    {
        self.read(FileReaderFunction::ReadAsText, blob_bytes, blob_type, label)
    }

    /// Cancels the current read, if any: the reader records an abort error
    /// and drops its result, and tasks of the cancelled read become stale.
    #[allow(non_snake_case)]
    pub fn Abort(&mut self) -> (r: Vec<ProgressEvent>)
        ensures
            final(self)@ == abort_spec(old(self)@),
            r@ == abort_signals(),
            final(self)@.wf(),
    {
        if self.ready_state == FileReaderReadyState::Loading {
            self.change_ready_state(FileReaderReadyState::Done);
        }
        self.result = None;
        self.error = Some(DOMErrorName::AbortError);
        self.terminate_ongoing_reading();
        let mut events: Vec<ProgressEvent> = Vec::new();
        events.push(dispatch_progress_event(ProgressEventType::Abort, 0, None));
        events.push(dispatch_progress_event(ProgressEventType::LoadEnd, 0, None));
        proof {
            assert(events@ =~= abort_signals());
        }
        events
    }

    #[allow(non_snake_case)]
    pub fn GetError(&self) -> (r: Option<DOMErrorName>)
        ensures
            r == self@.error,
    {
        self.error
    }

    #[allow(non_snake_case)]
    pub fn GetResult(&self) -> (r: Option<&FileReaderResult>)
        ensures
            match r {
                Some(x) => self@.result == Some(x@),
                None => self@.result is None,
            },
    {
        self.result.as_ref()
    }

    /// The ready state as its numeric code: 0 empty, 1 loading, 2 done.
    #[allow(non_snake_case)]
    pub fn ReadyState(&self) -> (r: u16)
        ensures
            r == ready_state_code(self@.ready_state),
    {
        match self.ready_state {
            FileReaderReadyState::Empty => 0,
            FileReaderReadyState::Loading => 1,
            FileReaderReadyState::Done => 2,
        }
    }

    fn change_ready_state(&mut self, state: FileReaderReadyState)
        ensures
            final(self).ready_state == state,
            final(self).error == old(self).error,
            final(self).result == old(self).result,
            final(self).generation_id == old(self).generation_id,
    {
        self.ready_state = state;
    }
}


/// The worker side of a read: the three notifications it sends to the
/// owner, in order, each stamped with the read's generation.
pub fn perform_annotated_read_operation(gen_id: GenerationId, data: ReadMetaData, blob_contents: Vec<u8>) -> (r: Vec<
    FileReadingTask,
>)
    ensures
        r@ == seq![
            FileReadingTask::ProcessRead(gen_id),
            FileReadingTask::ProcessReadData(gen_id),
            FileReadingTask::ProcessReadEOF(gen_id, data, blob_contents),
        ],
{
    let mut tasks: Vec<FileReadingTask> = Vec::new();
    tasks.push(FileReadingTask::ProcessRead(gen_id));
    tasks.push(FileReadingTask::ProcessReadData(gen_id));
    tasks.push(FileReadingTask::ProcessReadEOF(gen_id, data, blob_contents));
    proof {
        assert(tasks@ =~= seq![
            FileReadingTask::ProcessRead(gen_id),
            FileReadingTask::ProcessReadData(gen_id),
            FileReadingTask::ProcessReadEOF(gen_id, data, blob_contents),
        ]);
    }
    tasks
}

impl FileReadingTask {
    /// Hands the notification to the reader it belongs to.
    pub fn handle_task(self, reader: &mut FileReader) -> (r: Vec<ProgressEvent>)
        ensures
            match self {
                FileReadingTask::ProcessRead(g) => final(reader)@ == old(reader)@ && r@ == notify_signals(
                    old(reader)@,
                    g.0,
                    ProgressEventType::LoadStart,
                ),
                FileReadingTask::ProcessReadData(g) => final(reader)@ == old(reader)@ && r@ == notify_signals(
                    old(reader)@,
                    g.0,
                    ProgressEventType::Progress,
                ),
                FileReadingTask::ProcessReadError(g, e) => final(reader)@ == read_error_spec(old(reader)@, g.0, e)
                    && r@ == read_error_signals(old(reader)@, g.0),
                FileReadingTask::ProcessReadEOF(g, data, bytes) => final(reader)@ == eof_spec(
                    old(reader)@,
                    g.0,
                    read_result_spec(data.blobtype@, label_view(data.label), data.function, bytes@),
                ) && r@ == eof_signals(old(reader)@, g.0),
            },
    {
        match self {
            FileReadingTask::ProcessRead(gen_id) => reader.process_read(gen_id),
            FileReadingTask::ProcessReadData(gen_id) => reader.process_read_data(gen_id),
            FileReadingTask::ProcessReadError(gen_id, error) => reader.process_read_error(gen_id, error),
            FileReadingTask::ProcessReadEOF(gen_id, data, blob_contents) => reader.process_read_eof(
                gen_id,
                data,
                blob_contents,
            ),
        }
    }
}

/// Every transition keeps a reader well formed: result and error are never
/// both set, and a read in progress has neither.
pub proof fn lemma_transitions_preserve_wf(s: ReaderState, g: u32, result: ResultView, e: DOMErrorName)
    requires
        s.wf(),
    ensures
        initial_state().wf(),
        s.ready_state != FileReaderReadyState::Loading ==> start_spec(s).wf(),
        abort_spec(s).wf(),
        eof_spec(s, g, result).wf(),
        read_error_spec(s, g, e).wf(),
{
}

/// A read that completes leaves the reader done with exactly one of result
/// and error set: the result on success, the error on failure.
pub proof fn lemma_completion_sets_exactly_one(s: ReaderState, result: ResultView, e: DOMErrorName)
    ensures
        eof_spec(s, s.generation, result).ready_state == FileReaderReadyState::Done,
        eof_spec(s, s.generation, result).result == Some(result),
        eof_spec(s, s.generation, result).error is None,
        read_error_spec(s, s.generation, e).ready_state == FileReaderReadyState::Done,
        read_error_spec(s, s.generation, e).result is None,
        read_error_spec(s, s.generation, e).error == Some(e),
{
}

/// After an abort during a read, that read's completion changes nothing
/// and sends nothing, even once a new read has started.
pub proof fn lemma_abort_discards_completion(s: ReaderState, result: ResultView)
    requires
        s.ready_state == FileReaderReadyState::Loading,
    ensures
        eof_spec(abort_spec(s), s.generation, result) == abort_spec(s),
        eof_signals(abort_spec(s), s.generation) == Seq::<ProgressEvent>::empty(),
        abort_spec(s).ready_state != FileReaderReadyState::Loading,
        eof_spec(start_spec(abort_spec(s)), s.generation, result) == start_spec(abort_spec(s)),
        eof_signals(start_spec(abort_spec(s)), s.generation) == Seq::<ProgressEvent>::empty(),
{
}

/// The signals of a read come in a fixed order: `loadstart`, `progress`,
/// `load`, `loadend` when it succeeds; `error`, `loadend` when it fails;
/// `abort`, `loadend` when it is aborted.
pub proof fn lemma_signal_order(s: ReaderState)
    requires
        s.ready_state != FileReaderReadyState::Loading,
    ensures
        ({
            let s1 = start_spec(s);
            let g = s.generation;
            notify_signals(s1, g, ProgressEventType::LoadStart) + notify_signals(s1, g, ProgressEventType::Progress)
                + eof_signals(s1, g) == seq![
                signal(ProgressEventType::LoadStart),
                signal(ProgressEventType::Progress),
                signal(ProgressEventType::Load),
                signal(ProgressEventType::LoadEnd),
            ]
        }),
        notify_signals(start_spec(s), s.generation, ProgressEventType::LoadStart) + notify_signals(
            start_spec(s),
            s.generation,
            ProgressEventType::Progress,
        ) + read_error_signals(start_spec(s), s.generation) == seq![
            signal(ProgressEventType::LoadStart),
            signal(ProgressEventType::Progress),
            signal(ProgressEventType::Error),
            signal(ProgressEventType::LoadEnd),
        ],
        abort_signals() == seq![signal(ProgressEventType::Abort), signal(ProgressEventType::LoadEnd)],
{
    let s1 = start_spec(s);
    let g = s.generation;
    assert(notify_signals(s1, g, ProgressEventType::LoadStart) + notify_signals(s1, g, ProgressEventType::Progress)
        + eof_signals(s1, g) =~= seq![
        signal(ProgressEventType::LoadStart),
        signal(ProgressEventType::Progress),
        signal(ProgressEventType::Load),
        signal(ProgressEventType::LoadEnd),
    ]);
    assert(notify_signals(s1, g, ProgressEventType::LoadStart) + notify_signals(s1, g, ProgressEventType::Progress)
        + read_error_signals(s1, g) =~= seq![
        signal(ProgressEventType::LoadStart),
        signal(ProgressEventType::Progress),
        signal(ProgressEventType::Error),
        signal(ProgressEventType::LoadEnd),
    ]);
}

/// A read may start again once the previous one completed: the reader goes
/// from done back to loading, under a generation other than the first read's.
pub proof fn lemma_restart_after_done(s: ReaderState, result: ResultView)
    requires
        s.ready_state != FileReaderReadyState::Loading,
    ensures
        ({
            let done = eof_spec(start_spec(s), s.generation, result);
            &&& done.ready_state == FileReaderReadyState::Done
            &&& start_spec(done).ready_state == FileReaderReadyState::Loading
            &&& start_spec(done).generation != s.generation
        }),
{
}

} // verus!
