use crate::codec::{decode, encode_lossless, encodes, holds_webp_header, DecodedImage};
use crate::error::{
    device_hint, formats_hint, names_heic, outcome_view, rendered, status_of, AppError,
    AppErrorView, ErrorResponse,
};
use crate::ingest::{ingested, IngestedPayload, MAX_FILE_SIZE};
use crate::mime::{
    classification, classify, declared_content_type, declared_type, is_recognized_unsupported,
    is_supported_type, lemma_supported_not_recognized, name_view, MimeClassification,
};
use crate::text::same_text;
use vstd::prelude::*;

verus! {

/// What the transport reports back to the handler.
#[derive(Debug)]
pub enum Event {
    /// The next part of the form, with its name and its file name.
    Field { name: String, filename: Option<String> },
    /// The form has no further part, or could not be read further.
    EndOfFields,
    /// The next chunk of the part's body.
    Chunk(Vec<u8>),
    /// The part's body could not be read further.
    ChunkError(String),
    /// The part's body has ended.
    EndOfChunks,
    /// What decoding the upload gave.
    Decoded(Result<DecodedImage, AppError>),
    /// What encoding the image gave.
    Encoded(Result<Vec<u8>, AppError>),
}

/// Where the handling of one request stands.
#[derive(Debug)]
pub enum State {
    /// Looking through the parts of the form for the one named "image".
    AwaitingField,
    /// Reading the body of the image part.
    Ingesting(IngestedPayload),
    /// The body is read whole and waits to be decoded.
    Ingested(Vec<u8>),
    /// The image is decoded and waits to be encoded.
    Decoded(DecodedImage),
    /// The request is answered with the encoded image.
    Responded(Vec<u8>),
    /// The request is answered with an error.
    Failed(AppError),
}

/// What is to be done next for a request.
#[derive(Clone, Copy, Debug, PartialEq, Eq, Structural)]
pub enum Action {
    /// Read the next part of the form.
    ReadField,
    /// Read the next chunk of the part's body.
    ReadChunk,
    /// Decode the bytes that the state holds.
    Decode,
    /// Encode the image that the state holds.
    Encode,
    /// Send the encoded image that the state holds, as `image/webp`, with
    /// status 200.
    SendImage,
    /// Send the response for the error that the state holds.
    SendError,
}

/// What is sent back for a request.
#[derive(Debug)]
pub enum Reply {
    /// The encoded image, with its status and content type.
    Image { status: u16, content_type: String, body: Vec<u8> },
    /// An error, with its status and the members of its JSON body.
    Error(ErrorResponse),
}

/// An event with its texts and bytes as sequences.
pub enum EventView {
    Field { name: Seq<char>, filename: Option<Seq<char>> },
    EndOfFields,
    Chunk(Seq<u8>),
    ChunkError(Seq<char>),
    EndOfChunks,
    Decoded(Result<DecodedImage, AppErrorView>),
    Encoded(Result<Seq<u8>, AppErrorView>),
}

/// A state with its texts and bytes as sequences.
pub enum StateView {
    AwaitingField,
    Ingesting { bytes: Seq<u8>, limit: nat },
    Ingested(Seq<u8>),
    Decoded(DecodedImage),
    Responded(Seq<u8>),
    Failed(AppErrorView),
}

impl View for Event {
    type V = EventView;

    open spec fn view(&self) -> EventView {
        match *self {
            Event::Field { name, filename } => EventView::Field {
                name: name@,
                filename: match filename {
                    Some(f) => Some(f@),
                    None => None,
                },
            },
            Event::EndOfFields => EventView::EndOfFields,
            Event::Chunk(data) => EventView::Chunk(data@),
            Event::ChunkError(detail) => EventView::ChunkError(detail@),
            Event::EndOfChunks => EventView::EndOfChunks,
            Event::Decoded(outcome) => EventView::Decoded(
                match outcome {
                    Ok(image) => Ok(image),
                    Err(e) => Err(e@),
                },
            ),
            Event::Encoded(outcome) => EventView::Encoded(outcome_view(outcome)),
        }
    }
}

impl View for State {
    type V = StateView;

    open spec fn view(&self) -> StateView {
        match *self {
            State::AwaitingField => StateView::AwaitingField,
            State::Ingesting(payload) => StateView::Ingesting {
                bytes: payload@.bytes,
                limit: payload@.limit,
            },
            State::Ingested(bytes) => StateView::Ingested(bytes@),
            State::Decoded(image) => StateView::Decoded(image),
            State::Responded(bytes) => StateView::Responded(bytes@),
            State::Failed(e) => StateView::Failed(e@),
        }
    }
}

/// The detail of the internal error for an event that the state does not
/// wait for.
pub open spec fn unexpected_detail() -> Seq<char> {
    "unexpected event"@
}

/// The state after a part of the form was found. A part with another name
/// than "image" is passed over. The image part is taken if its declared
/// content type is supported, and ends the request otherwise.
pub open spec fn field_outcome(name: Seq<char>, filename: Option<Seq<char>>) -> StateView {
    if name != "image"@ {
        StateView::AwaitingField
    } else if classification(declared_type(filename)) == MimeClassification::Supported {
        StateView::Ingesting { bytes: Seq::empty(), limit: MAX_FILE_SIZE as nat }
    } else {
        StateView::Failed(AppErrorView::UnsupportedMediaType(declared_type(filename)))
    }
}

/// The state after a chunk of the body was read: the chunk is added, or
/// the request ends because the body passes the limit.
pub open spec fn chunk_outcome(bytes: Seq<u8>, limit: nat, chunk: Seq<u8>) -> StateView {
    if bytes.len() + chunk.len() > limit {
        StateView::Failed(AppErrorView::PayloadTooLarge(limit))
    } else {
        StateView::Ingesting { bytes: bytes + chunk, limit }
    }
}

/// The state that follows `state` on `event`. A request that is answered
/// stays as it is. An event that the state does not wait for ends the
/// request with an internal error.
pub open spec fn transition(state: StateView, event: EventView) -> StateView {
    match state {
        StateView::AwaitingField => match event {
            EventView::Field { name, filename } => field_outcome(name, filename),
            EventView::EndOfFields => StateView::Failed(AppErrorView::InvalidFileFormat),
            _ => StateView::Failed(AppErrorView::InternalError(unexpected_detail())),
        },
        StateView::Ingesting { bytes, limit } => match event {
            EventView::Chunk(chunk) => chunk_outcome(bytes, limit, chunk),
            EventView::ChunkError(detail) => StateView::Failed(AppErrorView::DecodeFailure(detail)),
            EventView::EndOfChunks => StateView::Ingested(bytes),
            _ => StateView::Failed(AppErrorView::InternalError(unexpected_detail())),
        },
        StateView::Ingested(_) => match event {
            EventView::Decoded(Ok(image)) => StateView::Decoded(image),
            EventView::Decoded(Err(e)) => StateView::Failed(e),
            _ => StateView::Failed(AppErrorView::InternalError(unexpected_detail())),
        },
        StateView::Decoded(_) => match event {
            EventView::Encoded(Ok(bytes)) => StateView::Responded(bytes),
            EventView::Encoded(Err(e)) => StateView::Failed(e),
            _ => StateView::Failed(AppErrorView::InternalError(unexpected_detail())),
        },
        StateView::Responded(_) => state,
        StateView::Failed(_) => state,
    }
}

/// What a state waits for.
pub open spec fn awaited(state: StateView) -> Action {
    match state {
        StateView::AwaitingField => Action::ReadField,
        StateView::Ingesting { .. } => Action::ReadChunk,
        StateView::Ingested(_) => Action::Decode,
        StateView::Decoded(_) => Action::Encode,
        StateView::Responded(_) => Action::SendImage,
        StateView::Failed(_) => Action::SendError,
    }
}

/// Whether a state is one in which a conversion can end: the request is
/// answered with the image, or with a decode failure or a conversion
/// failure.
pub open spec fn ends_conversion(state: StateView) -> bool {
    match state {
        StateView::Responded(_) => true,
        StateView::Failed(e) => e is DecodeFailure || e is ConversionFailed,
        _ => false,
    }
}

/// The answer that a state holds: the encoded image, or the error. A
/// request that is not answered yet holds none.
pub open spec fn answer_of(state: StateView) -> Option<Result<Seq<u8>, AppErrorView>> {
    match state {
        StateView::Responded(bytes) => Some(Ok(bytes)),
        StateView::Failed(e) => Some(Err(e)),
        _ => None,
    }
}

/// Whether a state holds the answer that encoding `image` gives.
pub open spec fn answers_encoding(image: DecodedImage, state: StateView) -> bool {
    answer_of(state) matches Some(outcome) && encodes(image, outcome)
}

/// Lets a declared content type pass if it is supported, and refuses it as
/// an unsupported media type otherwise.
pub fn require_supported(content_type: String) -> (outcome: Result<(), AppError>)
    ensures
        classification(content_type@) == MimeClassification::Supported ==> outcome is Ok,
        classification(content_type@) != MimeClassification::Supported ==> outcome == Err::<
            (),
            AppError,
        >(AppError::UnsupportedMediaType(content_type)),
{
    match classify(content_type.as_str()) {
        MimeClassification::Supported => Ok(()),
        _ => Err(AppError::UnsupportedMediaType(content_type)),
    }
}

/// The failure for an event that the state does not wait for.
fn unexpected() -> (state: State)
    ensures
        state@ == StateView::Failed(AppErrorView::InternalError(unexpected_detail())),
{
    State::Failed(AppError::InternalError(String::from_str("unexpected event")))
}

impl State {
    /// The state in which the handling of a request begins.
    pub fn new() -> (state: State)
        ensures
            state@ == StateView::AwaitingField,
    {
        State::AwaitingField
    }

    /// The reply that an answered request sends: the image as `image/webp`
    /// with status 200, or the response for the error. A request that is not
    /// answered yet has none.
    pub fn into_reply(self) -> (reply: Option<Reply>)
        ensures
            match self@ {
                StateView::Responded(bytes) => reply matches Some(
                    Reply::Image { status, content_type, body },
                ) && status == 200 && content_type@ == "image/webp"@ && body@ == bytes,
                StateView::Failed(e) => reply matches Some(Reply::Error(response)) && response@
                    == rendered(e),
                _ => reply is None,
            },
    {
        match self {
            State::Responded(bytes) => Some(
                Reply::Image {
                    status: 200,
                    content_type: String::from_str("image/webp"),
                    body: bytes,
                },
            ),
            State::Failed(e) => Some(Reply::Error(e.error_response())),
            _ => None,
        }
    }

    /// What this state waits for.
    pub fn action(&self) -> (action: Action)
        ensures
            action == awaited(self@),
    {
        match self {
            State::AwaitingField => Action::ReadField,
            State::Ingesting(_) => Action::ReadChunk,
            State::Ingested(_) => Action::Decode,
            State::Decoded(_) => Action::Encode,
            State::Responded(_) => Action::SendImage,
            State::Failed(_) => Action::SendError,
        }
    }
}

/// The state after a part of the form with this name and file name.
pub fn on_field(name: &str, filename: Option<&str>) -> (next: State)
    ensures
        next@ == field_outcome(name@, name_view(filename)),
{
    if !same_text(name, "image") {
        return State::AwaitingField;
    }
    match require_supported(declared_content_type(filename)) {
        Ok(()) => State::Ingesting(IngestedPayload::new(MAX_FILE_SIZE)),
        Err(e) => State::Failed(e),
    }
}

/// The state after one more chunk of the body.
pub fn on_chunk(payload: IngestedPayload, chunk: &[u8]) -> (next: State)
    ensures
        next@ == chunk_outcome(payload@.bytes, payload@.limit, chunk@),
{
    let mut payload = payload;
    match payload.push_chunk(chunk) {
        Ok(()) => State::Ingesting(payload),
        Err(e) => State::Failed(e),
    }
}

/// One step of the handler: the state that follows on an event, and what
/// is to be done next.
pub fn step(state: State, event: Event) -> (next: (State, Action))
    ensures
        next.0@ == transition(state@, event@),
        next.1 == awaited(next.0@),
{
    let following = match state {
        State::AwaitingField => match event {
            Event::Field { name, filename } => match &filename {
                Some(f) => on_field(name.as_str(), Some(f.as_str())),
                None => on_field(name.as_str(), None),
            },
            Event::EndOfFields => State::Failed(AppError::InvalidFileFormat),
            _ => unexpected(),
        },
        State::Ingesting(payload) => match event {
            Event::Chunk(chunk) => on_chunk(payload, chunk.as_slice()),
            Event::ChunkError(detail) => State::Failed(AppError::DecodeFailure(detail)),
            Event::EndOfChunks => State::Ingested(payload.into_bytes()),
            _ => unexpected(),
        },
        State::Ingested(bytes) => match event {
            Event::Decoded(Ok(image)) => State::Decoded(image),
            Event::Decoded(Err(e)) => State::Failed(e),
            _ => unexpected(),
        },
        State::Decoded(image) => match event {
            Event::Encoded(Ok(bytes)) => State::Responded(bytes),
            Event::Encoded(Err(e)) => State::Failed(e),
            _ => unexpected(),
        },
        State::Responded(bytes) => State::Responded(bytes),
        State::Failed(e) => State::Failed(e),
    };
    let action = following.action();
    (following, action)
}

/// One step of the handler with the codec's work done in it: where the
/// step leaves bytes to decode or an image to encode, they are decoded and
/// encoded at once, and the handler goes on from what the codec gave.
///
/// Where the step leaves an image to encode, the answer is what encoding
/// that image gives. Where it leaves bytes to decode, the answer is a
/// decode failure or what encoding the decoded image gives; which of them,
/// the decoder decides.
pub fn advance(state: State, event: Event) -> (next: (State, Action))
    ensures
        next.1 == awaited(next.0@),
        next.1 != Action::Decode && next.1 != Action::Encode,
        awaited(transition(state@, event@)) != Action::Decode && awaited(transition(state@, event@))
            != Action::Encode ==> next.0@ == transition(state@, event@),
        awaited(transition(state@, event@)) == Action::Decode || awaited(transition(state@, event@))
            == Action::Encode ==> ends_conversion(next.0@),
        transition(state@, event@) matches StateView::Decoded(image) ==> answers_encoding(
            image,
            next.0@,
        ),
        transition(state@, event@) is Ingested ==> (next.0@ matches StateView::Failed(
            AppErrorView::DecodeFailure(_),
        ) || (exists|image: DecodedImage| answers_encoding(image, next.0@))),
        transition(state@, event@) is Ingested || transition(state@, event@) is Decoded ==> (
        next.0@ matches StateView::Responded(bytes) ==> holds_webp_header(bytes)),
{
    let (reached, _) = step(state, event);
    let decoded = match reached {
        State::Ingested(bytes) => {
            let outcome = decode(bytes.as_slice());
            step(State::Ingested(bytes), Event::Decoded(outcome)).0
        },
        other => other,
    };
    let encoded = match decoded {
        State::Decoded(image) => {
            let outcome = encode_lossless(&image);
            let ghost held = image;
            let answered = step(State::Decoded(image), Event::Encoded(outcome)).0;
            assert(answers_encoding(held, answered@));
            answered
        },
        other => other,
    };
    let action = encoded.action();
    (encoded, action)
}

/// The state that a run of events leads to, one step after the other.
pub open spec fn run(state: StateView, events: Seq<EventView>) -> StateView
    decreases events.len(),
{
    if events.len() == 0 {
        state
    } else {
        run(transition(state, events[0]), events.drop_first())
    }
}

/// Whether every event of a run is a part of the form under another name
/// than "image".
pub open spec fn only_other_fields(events: Seq<EventView>) -> bool {
    forall|i: int|
        0 <= i < events.len() ==> (#[trigger] events[i] matches EventView::Field { name, .. }
            && name != "image"@)
}

/// A form without a part named "image" is an invalid file format, which is
/// answered with status 400: parts under other names are passed over, and
/// the end of the form then ends the request.
pub proof fn lemma_no_image_field(fields: Seq<EventView>)
    requires
        only_other_fields(fields),
    ensures
        run(StateView::AwaitingField, fields) == StateView::AwaitingField,
        run(StateView::AwaitingField, fields.push(EventView::EndOfFields)) == StateView::Failed(
            AppErrorView::InvalidFileFormat,
        ),
        status_of(AppErrorView::InvalidFileFormat) == 400,
    decreases fields.len(),
{
    let whole = fields.push(EventView::EndOfFields);
    if fields.len() == 0 {
        assert(whole.drop_first() =~= Seq::<EventView>::empty());
        assert(run(
            transition(StateView::AwaitingField, whole[0]),
            whole.drop_first(),
        ) == StateView::Failed(AppErrorView::InvalidFileFormat));
    } else {
        let rest = fields.drop_first();
        assert(fields[0] is Field);
        assert forall|i: int| 0 <= i < rest.len() implies (#[trigger] rest[i] matches EventView::Field {
            name,
            ..
        } && name != "image"@) by {
            assert(rest[i] == fields[i + 1]);
        }
        lemma_no_image_field(rest);
        assert(whole.drop_first() =~= rest.push(EventView::EndOfFields));
        assert(whole[0] == fields[0]);
    }
}

/// A content type that names the HEIC family is classified as recognized
/// and unsupported, and refusing it is answered with status 415. Where
/// "heic" or "heif" occurs in the type, the hint is the one about the
/// device's settings; where only "hif" does, it is the list of the
/// supported formats.
pub proof fn lemma_heic_family_is_refused(t: Seq<char>)
    requires
        is_recognized_unsupported(t),
    ensures
        classification(t) == MimeClassification::UnsupportedRecognized,
        rendered(AppErrorView::UnsupportedMediaType(t)).status == 415,
        names_heic(t) ==> rendered(AppErrorView::UnsupportedMediaType(t)).hint == Some(
            device_hint(),
        ),
        !names_heic(t) ==> rendered(AppErrorView::UnsupportedMediaType(t)).hint == Some(
            formats_hint(),
        ),
{
    if is_supported_type(t) {
        lemma_supported_not_recognized(t);
    }
}

/// A content type that is neither supported nor of the HEIC family is
/// classified as unknown, and refusing it is answered with status 415 and
/// the hint that lists the supported formats.
pub proof fn lemma_unknown_type_is_refused(t: Seq<char>)
    requires
        !is_supported_type(t),
        !is_recognized_unsupported(t),
    ensures
        classification(t) == MimeClassification::UnsupportedUnknown,
        rendered(AppErrorView::UnsupportedMediaType(t)).status == 415,
        rendered(AppErrorView::UnsupportedMediaType(t)).hint == Some(formats_hint()),
{
}

/// An image part is taken exactly if its declared content type is one of
/// the supported ones. Any other ends the request as an unsupported media
/// type that carries the declared type, whether the type is recognized or
/// not.
pub proof fn lemma_image_field_is_taken_or_refused(filename: Option<Seq<char>>)
    ensures
        is_supported_type(declared_type(filename)) ==> field_outcome("image"@, filename)
            == (StateView::Ingesting { bytes: Seq::empty(), limit: MAX_FILE_SIZE as nat }),
        !is_supported_type(declared_type(filename)) ==> field_outcome("image"@, filename)
            == StateView::Failed(AppErrorView::UnsupportedMediaType(declared_type(filename))),
{
}

/// Once a request is answered, no event changes the answer: the first
/// image part decides, and nothing is tried again after a failure.
pub proof fn lemma_answer_is_final(state: StateView, events: Seq<EventView>)
    requires
        state is Responded || state is Failed,
    ensures
        run(state, events) == state,
    decreases events.len(),
{
    if events.len() > 0 {
        lemma_answer_is_final(state, events.drop_first());
    }
}

/// The events that reading a stream of chunks reports, one for each chunk:
/// the bytes of a chunk that was read, or the detail of a failure to read.
pub open spec fn chunk_events(chunks: Seq<Result<Vec<u8>, String>>) -> Seq<EventView> {
    Seq::new(
        chunks.len(),
        |i: int|
            match chunks[i] {
                Ok(data) => EventView::Chunk(data@),
                Err(detail) => EventView::ChunkError(detail@),
            },
    )
}

/// Reading a body chunk by chunk and then reaching its end leads where
/// reading the whole stream at once does: to the body whole, where
/// `ingested` gives all its bytes, and to the failure that `ingested`
/// gives otherwise. A body that is taken whole is within the limit.
pub proof fn lemma_run_of_chunks(acc: Seq<u8>, chunks: Seq<Result<Vec<u8>, String>>, max: nat)
    ensures
        run(
            StateView::Ingesting { bytes: acc, limit: max },
            chunk_events(chunks).push(EventView::EndOfChunks),
        ) == (match ingested(acc, chunks, max) {
            Ok(all) => StateView::Ingested(all),
            Err(e) => StateView::Failed(e),
        }),
        acc.len() <= max ==> (ingested(acc, chunks, max) matches Ok(all) ==> all.len() <= max),
    decreases chunks.len(),
{
    let start = StateView::Ingesting { bytes: acc, limit: max };
    let events = chunk_events(chunks).push(EventView::EndOfChunks);
    let after = events.drop_first();
    if chunks.len() == 0 {
        assert(after =~= Seq::<EventView>::empty());
        assert(run(transition(start, events[0]), after) == StateView::Ingested(acc));
    } else {
        let rest = chunks.drop_first();
        assert(after =~= chunk_events(rest).push(EventView::EndOfChunks));
        let following = transition(start, events[0]);
        match chunks[0] {
            Err(detail) => {
                lemma_answer_is_final(following, after);
            },
            Ok(data) => {
                if acc.len() + data@.len() > max {
                    lemma_answer_is_final(following, after);
                } else {
                    lemma_run_of_chunks(acc + data@, rest, max);
                }
            },
        }
    }
}

/// While the body is read, the bytes held never pass the limit: a step
/// from a state within its limit leads to a state within its limit.
pub proof fn lemma_ingesting_stays_within_limit(state: StateView, event: EventView)
    requires
        state matches StateView::Ingesting { bytes, limit } && bytes.len() <= limit,
    ensures
        transition(state, event) matches StateView::Ingesting { bytes, limit } ==> bytes.len()
            <= limit,
        transition(state, event) matches StateView::Ingested(bytes) ==> bytes.len()
            <= state->Ingesting_limit,
{
}

} // verus!
