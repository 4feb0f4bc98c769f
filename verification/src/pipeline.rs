//! The processing pipeline of a protected request.
//!
//! A request passes the authentication gate, is read into memory, decoded,
//! handed to the transformation engine on a dedicated worker pool, encoded
//! back to PNG and returned.  The order of those steps, and which failure is
//! the client's and which the server's, is fixed by the state machine here;
//! the decode and encode steps themselves run through trusted wrappers around
//! the image codec, and response assembly maps every terminal state to a
//! wire-level status and body.

use image::ImageEncoder;
use std::io::Cursor;
use vstd::prelude::*;

verus! {

/// How a processing request fails: the client sent something unusable, or the
/// server could not run the transformation or encode its result.
#[derive(Debug)]
pub enum ProcessError {
    ErrorBadRequest(String),
    ErrorInternalServerError(String),
}

/// Declares image's `DynamicImage` so that a decoded image can be carried
/// through signatures; Verus sees nothing inside a value of it.
#[verifier::external_type_specification]
#[verifier::external_body]
pub struct ExDynamicImage(image::DynamicImage);

/// Whether the image codec can decode `bytes` into an image.
pub uninterp spec fn decodable_image(bytes: Seq<u8>) -> bool;

/// The eight bytes every PNG stream begins with.
pub open spec fn png_signature() -> Seq<u8> {
    seq![137u8, 80u8, 78u8, 71u8, 13u8, 10u8, 26u8, 10u8]
}

/// The PNG stream that encodes the given 8-bit RGB pixels, row-major, at the
/// given extents: the codec's encoding is a function of these arguments alone.
pub uninterp spec fn png_rgb8_of(pixels: Seq<u8>, width: u32, height: u32) -> Seq<u8>;

/// Relies on image's `ImageReader::with_guessed_format` and `decode` over an
/// in-memory cursor: reading from a cursor never fails, so whether the bytes
/// decode is a function of the bytes alone; the message names the reason.
#[verifier::external_body]
fn decode_image_bytes(bytes: &Vec<u8>) -> (r: Result<image::DynamicImage, String>)
    ensures
        r is Ok <==> decodable_image(bytes@),
{
    let reader = match image::ImageReader::new(Cursor::new(bytes.as_slice())).with_guessed_format()
    {
        Ok(rd) => rd,
        Err(e) => {
            return Err(format!("Unable to guess format: {e:?}"));
        },
    };
    match reader.decode() {
        Ok(img) => Ok(img),
        Err(e) => Err(format!("Invalid image: {e:?}")),
    }
}

/// Relies on image's `PngEncoder::write_image` over 8-bit RGB data: encoding
/// is deterministic in the pixels and extents, so the result is named
/// [`png_rgb8_of`]; writing into a vector cannot fail and the buffer length is
/// pinned by the precondition (the encoder's own demand), so the one failure
/// left is a zero extent, which the png encoder rejects.  On success the
/// vector holds a complete PNG stream, which begins with the eight-byte PNG
/// signature.
#[verifier::external_body]
fn encode_png_rgb8(pixels: &Vec<u8>, width: u32, height: u32) -> (r: Result<Vec<u8>, String>)
    requires
        pixels@.len() == width * height * 3,
    ensures
        r is Ok <==> (width > 0 && height > 0),
        r matches Ok(b) ==> b@ == png_rgb8_of(pixels@, width, height),
        r matches Ok(b) ==> b@.len() >= 8 && b@.subrange(0, 8) == png_signature(),
{
    let mut out: Vec<u8> = Vec::new();
    let encoder = image::codecs::png::PngEncoder::new(&mut out);
    match encoder.write_image(pixels.as_slice(), width, height, image::ExtendedColorType::Rgb8) {
        Ok(()) => Ok(out),
        Err(e) => Err(format!("Can't encode output: {e:?}")),
    }
}

/// Decodes the uploaded bytes.  Bytes the codec does not recognize are the
/// client's fault: the error is always `ErrorBadRequest`.
pub fn decode_input(bytes: &Vec<u8>) -> (r: Result<image::DynamicImage, ProcessError>)
    ensures
        r is Ok <==> decodable_image(bytes@),
        r matches Err(e) ==> e is ErrorBadRequest,
{
    match decode_image_bytes(bytes) {
        Ok(img) => Ok(img),
        Err(m) => Err(ProcessError::ErrorBadRequest(m)),
    }
}

/// Encodes the transformed pixels (8-bit RGB, row-major) as PNG: the returned
/// bytes are exactly the codec's encoding of these pixels at these extents,
/// and encoding succeeds exactly when both extents are nonzero.  A failure
/// here is the server's fault: the error is always `ErrorInternalServerError`.
pub fn encode_output(pixels: &Vec<u8>, width: u32, height: u32) -> (r: Result<
    Vec<u8>,
    ProcessError,
>)
    requires
        pixels@.len() == width * height * 3,
    ensures
        r is Ok <==> (width > 0 && height > 0),
        r matches Ok(b) ==> b@ == png_rgb8_of(pixels@, width, height),
        r matches Ok(b) ==> b@.len() >= 8 && b@.subrange(0, 8) == png_signature(),
        r matches Err(e) ==> e is ErrorInternalServerError,
{
    match encode_png_rgb8(pixels, width, height) {
        Ok(b) => Ok(b),
        Err(m) => Err(ProcessError::ErrorInternalServerError(m)),
    }
}

/// The states a protected processing request moves through.  `Done`,
/// `Forbidden` and `Failed` are terminal.
pub enum PipelineState {
    AwaitingAuth,
    Receiving,
    Decoding,
    Dispatched,
    Encoding,
    Done,
    Forbidden,
    Failed(ProcessError),
}

/// What the world reports back to the machine at each step.  The payload of a
/// failure event is the message shown to the caller.
pub enum PipelineEvent {
    AuthSucceeded,
    AuthFailed,
    BodyReceived,
    BodyMissing(String),
    DecodeSucceeded,
    DecodeFailed(String),
    TransformSucceeded,
    TransformFailed(String),
    EncodeSucceeded,
    EncodeFailed(String),
}

/// The transition function of the pipeline.  A failed gate forbids the
/// request; a failure while receiving or decoding is the client's
/// (`ErrorBadRequest`); a failure while transforming or encoding is the
/// server's (`ErrorInternalServerError`); terminal states absorb every event,
/// and an event that does not belong to the current state changes nothing.
pub open spec fn spec_step(s: PipelineState, e: PipelineEvent) -> PipelineState {
    match (s, e) {
        (PipelineState::AwaitingAuth, PipelineEvent::AuthSucceeded) => PipelineState::Receiving,
        (PipelineState::AwaitingAuth, PipelineEvent::AuthFailed) => PipelineState::Forbidden,
        (PipelineState::Receiving, PipelineEvent::BodyReceived) => PipelineState::Decoding,
        (PipelineState::Receiving, PipelineEvent::BodyMissing(m)) => PipelineState::Failed(
            ProcessError::ErrorBadRequest(m),
        ),
        (PipelineState::Decoding, PipelineEvent::DecodeSucceeded) => PipelineState::Dispatched,
        (PipelineState::Decoding, PipelineEvent::DecodeFailed(m)) => PipelineState::Failed(
            ProcessError::ErrorBadRequest(m),
        ),
        (PipelineState::Dispatched, PipelineEvent::TransformSucceeded) => PipelineState::Encoding,
        (PipelineState::Dispatched, PipelineEvent::TransformFailed(m)) => PipelineState::Failed(
            ProcessError::ErrorInternalServerError(m),
        ),
        (PipelineState::Encoding, PipelineEvent::EncodeSucceeded) => PipelineState::Done,
        (PipelineState::Encoding, PipelineEvent::EncodeFailed(m)) => PipelineState::Failed(
            ProcessError::ErrorInternalServerError(m),
        ),
        (state, _) => state,
    }
}

/// Runs the machine over a sequence of events.
pub open spec fn run_steps(s: PipelineState, events: Seq<PipelineEvent>) -> PipelineState
    decreases events.len(),
{
    if events.len() == 0 {
        s
    } else {
        run_steps(spec_step(s, events.first()), events.drop_first())
    }
}

/// Advances the pipeline by one event, exactly as [`spec_step`] says.
pub fn pipeline_step(s: PipelineState, e: PipelineEvent) -> (r: PipelineState)
    ensures
        r == spec_step(s, e),
{
    match s {
        PipelineState::AwaitingAuth => match e {
            PipelineEvent::AuthSucceeded => PipelineState::Receiving,
            PipelineEvent::AuthFailed => PipelineState::Forbidden,
            _ => PipelineState::AwaitingAuth,
        },
        PipelineState::Receiving => match e {
            PipelineEvent::BodyReceived => PipelineState::Decoding,
            PipelineEvent::BodyMissing(m) => PipelineState::Failed(
                ProcessError::ErrorBadRequest(m),
            ),
            _ => PipelineState::Receiving,
        },
        PipelineState::Decoding => match e {
            PipelineEvent::DecodeSucceeded => PipelineState::Dispatched,
            PipelineEvent::DecodeFailed(m) => PipelineState::Failed(
                ProcessError::ErrorBadRequest(m),
            ),
            _ => PipelineState::Decoding,
        },
        PipelineState::Dispatched => match e {
            PipelineEvent::TransformSucceeded => PipelineState::Encoding,
            PipelineEvent::TransformFailed(m) => PipelineState::Failed(
                ProcessError::ErrorInternalServerError(m),
            ),
            _ => PipelineState::Dispatched,
        },
        PipelineState::Encoding => match e {
            PipelineEvent::EncodeSucceeded => PipelineState::Done,
            PipelineEvent::EncodeFailed(m) => PipelineState::Failed(
                ProcessError::ErrorInternalServerError(m),
            ),
            _ => PipelineState::Encoding,
        },
        PipelineState::Done => PipelineState::Done,
        PipelineState::Forbidden => PipelineState::Forbidden,
        PipelineState::Failed(err) => PipelineState::Failed(err),
    }
}

/// `Forbidden` absorbs every event: once a request is forbidden, no sequence
/// of later events moves it anywhere else.
pub proof fn lemma_forbidden_absorbs(events: Seq<PipelineEvent>)
    ensures
        run_steps(PipelineState::Forbidden, events) == PipelineState::Forbidden,
    decreases events.len(),
{
    if events.len() > 0 {
        assert(spec_step(PipelineState::Forbidden, events.first()) == PipelineState::Forbidden);
        lemma_forbidden_absorbs(events.drop_first());
    }
}

/// A request that fails the authentication gate never reaches the
/// transformation engine: once authentication is refused, every prefix of later
/// event sequence leaves the machine in `Forbidden`, so it is never
/// `Dispatched` and nothing is ever handed to the engine.
pub proof fn lemma_unauthenticated_never_dispatched(events: Seq<PipelineEvent>, i: int)
    requires
        0 <= i <= events.len(),
    ensures
        run_steps(spec_step(PipelineState::AwaitingAuth, PipelineEvent::AuthFailed), events.take(i))
            == PipelineState::Forbidden,
{
    lemma_forbidden_absorbs(events.take(i));
}

/// Everything a processing request can end as.
pub enum ProcessOutcome {
    Forbidden,
    Failed(ProcessError),
    Completed(Vec<u8>),
}

/// What goes back over the wire for one request.
pub struct HttpReply {
    pub status: u16,
    pub body: ReplyBody,
}

/// The body of a reply: nothing, a plain-text message, or PNG bytes (to be
/// served with the `image/png` content type).
pub enum ReplyBody {
    Empty,
    Text(String),
    Png(Vec<u8>),
}

/// Maps the outcome of a processing request to its wire-level reply: a
/// forbidden request answers 403 with no body, a client fault 400 and a server
/// fault 500 with the message as text, and success 200 with the PNG bytes.
pub fn process_response(outcome: ProcessOutcome) -> (r: HttpReply)
    ensures
        outcome is Forbidden ==> r.status == 403 && r.body is Empty,
        outcome matches ProcessOutcome::Failed(ProcessError::ErrorBadRequest(m)) ==> {
            &&& r.status == 400
            &&& r.body matches ReplyBody::Text(t) && t@ == m@
        },
        outcome matches ProcessOutcome::Failed(ProcessError::ErrorInternalServerError(m)) ==> {
            &&& r.status == 500
            &&& r.body matches ReplyBody::Text(t) && t@ == m@
        },
        outcome matches ProcessOutcome::Completed(bytes) ==> {
            &&& r.status == 200
            &&& r.body matches ReplyBody::Png(b) && b@ == bytes@
        },
{
    match outcome {
        ProcessOutcome::Forbidden => HttpReply { status: 403, body: ReplyBody::Empty },
        ProcessOutcome::Failed(ProcessError::ErrorBadRequest(m)) => HttpReply {
            status: 400,
            body: ReplyBody::Text(m),
        },
        ProcessOutcome::Failed(ProcessError::ErrorInternalServerError(m)) => HttpReply {
            status: 500,
            body: ReplyBody::Text(m),
        },
        ProcessOutcome::Completed(bytes) => HttpReply { status: 200, body: ReplyBody::Png(bytes) },
    }
}

} // verus!
