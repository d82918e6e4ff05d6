use vstd::prelude::*;
use crate::errors::EngineError;
use crate::frames::{Frame, RawFrame, frames_from_raw, spec_frames};

verus! {

/// Whether the outside decoder accepts the stream header of these bytes.
/// Header parsing is a function of the bytes alone.
pub uninterp spec fn gif_header_ok(bytes: Seq<u8>) -> bool;

/// The frame metadata the outside decoder yields for these bytes on its
/// first pass over the stream, in order, up to the clean end of the stream
/// or its first decoding error. The decoder can sometimes continue past an
/// error; what it would yield then is not this sequence's concern, and the
/// wrappers below refuse to read on. The first pass is a function of the
/// bytes alone.
pub uninterp spec fn gif_raw_frames(bytes: Seq<u8>) -> Seq<RawFrame>;

/// Whether the outside decoder's first pass over these bytes reaches the
/// clean end of the stream: after yielding every frame of
/// `gif_raw_frames`, it reports the end rather than a decoding error.
pub uninterp spec fn gif_decodes(bytes: Seq<u8>) -> bool;

/// The opaque holder of the outside crate's decoder. The decoder type
/// itself cannot be declared to the verifier: its type parameter carries a
/// `std::io::Read` bound.
#[verifier::external_body]
struct GifDecoderHolder<'a> {
    inner: gif::Decoder<&'a [u8]>,
}

#[verifier::external_type_specification]
#[verifier::external_body]
pub struct ExGifDecodingError(gif::DecodingError);

/// A decoder on its first pass over a frame stream: the opaque decoder,
/// the bytes it reads (ghost), how many frames it has yielded (ghost),
/// and whether the pass is still going (ghost). Once the stream has
/// reported its end or an error the pass is over, `live` is false, and
/// the wrappers refuse further reads: nothing is claimed of what the
/// decoder would do after that point.
pub struct GifFrameStream<'a> {
    holder: GifDecoderHolder<'a>,
    pub bytes: Ghost<Seq<u8>>,
    pub pos: Ghost<int>,
    pub live: Ghost<bool>,
}

/// Relies on gif::Decoder::new: parses the stream header of the given
/// bytes and returns a decoder positioned before the first frame, or a
/// decoding error exactly when the header is malformed. Every frame of a
/// stream whose header parses occupies bytes of its own (an image
/// descriptor at least), so the stream holds fewer frames than bytes.
#[verifier::external_body]
fn gif_decoder_new(bytes: &[u8]) -> (r: Result<GifFrameStream<'_>, gif::DecodingError>)
    ensures
        r matches Ok(s) ==> (s.bytes@ == bytes@ && s.pos@ == 0 && s.live@ && gif_header_ok(bytes@)
            && gif_raw_frames(bytes@).len() < bytes@.len()),
        r is Err ==> (!gif_header_ok(bytes@) && !gif_decodes(bytes@)),
{
    match gif::Decoder::new(bytes) {
        Ok(d) => Ok(
            GifFrameStream {
                holder: GifDecoderHolder { inner: d },
                bytes: Ghost(bytes@),
                pos: Ghost(0int),
                live: Ghost(true),
            },
        ),
        Err(e) => Err(e),
    }
}

/// Relies on gif::Decoder::read_next_frame, on the first pass only: while
/// frames remain it decodes the next one and hands out its metadata; at
/// the end of the frame sequence it reports the clean end of a well-formed
/// stream as `None`, or the first malformed piece as a decoding error.
/// The outside decoder can sometimes read on past an error; the engine
/// treats the first error as the end of the source, so this wrapper
/// requires a live pass and says nothing of any later call.
#[verifier::external_body]
fn gif_next_frame(s: &mut GifFrameStream<'_>) -> (r: Result<
    Option<RawFrame>,
    gif::DecodingError,
>)
    requires
        old(s).live@,
        0 <= old(s).pos@ <= gif_raw_frames(old(s).bytes@).len(),
    ensures
        final(s).bytes@ == old(s).bytes@,
        r matches Ok(Some(f)) ==> (old(s).pos@ < gif_raw_frames(old(s).bytes@).len() && f
            == gif_raw_frames(old(s).bytes@)[old(s).pos@] && final(s).pos@ == old(s).pos@ + 1
            && final(s).live@),
        r matches Ok(None) ==> (old(s).pos@ == gif_raw_frames(old(s).bytes@).len() && gif_decodes(
            old(s).bytes@,
        ) && final(s).pos@ == old(s).pos@ && !final(s).live@),
        r is Err ==> (old(s).pos@ == gif_raw_frames(old(s).bytes@).len() && !gif_decodes(
            old(s).bytes@,
        ) && final(s).pos@ == old(s).pos@ && !final(s).live@),
{
    match s.holder.inner.read_next_frame() {
        Ok(Some(f)) => {
            let rf = RawFrame { width: f.width, height: f.height, delay: f.delay };
            s.pos = Ghost(s.pos@ + 1);
            Ok(Some(rf))
        },
        Ok(None) => {
            s.live = Ghost(false);
            Ok(None)
        },
        Err(e) => {
            s.live = Ghost(false);
            Err(e)
        },
    }
}

/// Decodes a source image, given as its raw bytes, into the engine's frame
/// sequence: every decoded frame with its delay converted to centiseconds,
/// or the single synthetic frame of a static source. The call succeeds
/// exactly when the bytes decode cleanly and hold at least one frame; any
/// other source is a `DecodeError`.
pub fn extract_frames(bytes: &[u8]) -> (r: Result<Vec<Frame>, EngineError>)
    ensures
        r is Ok <==> (gif_decodes(bytes@) && gif_raw_frames(bytes@).len() >= 1),
        r matches Ok(frames) ==> frames@ == spec_frames(gif_raw_frames(bytes@)),
        r matches Err(e) ==> e == EngineError::DecodeError,
{
    let mut stream = match gif_decoder_new(bytes) {
        Ok(s) => s,
        Err(_) => {
            return Err(EngineError::DecodeError);
        },
    };
    let ghost all = gif_raw_frames(bytes@);
    let mut raw: Vec<RawFrame> = Vec::new();
    let mut done = false;
    let mut k: usize = 0;
    while !done && k < bytes.len()
        invariant
            stream.bytes@ == bytes@,
            !done ==> stream.live@,
            all == gif_raw_frames(bytes@),
            all.len() < bytes@.len(),
            stream.pos@ == raw@.len(),
            raw@.len() <= all.len(),
            raw@ == all.subrange(0, raw@.len() as int),
            done ==> (gif_decodes(bytes@) && raw@.len() == all.len()),
            !done ==> k == raw@.len(),
            k <= bytes@.len(),
        decreases bytes@.len() - k,
    {
        match gif_next_frame(&mut stream) {
            Ok(Some(f)) => {
                raw.push(f);
                proof {
                    assert(raw@ =~= all.subrange(0, raw@.len() as int));
                }
            },
            Ok(None) => {
                done = true;
            },
            Err(_) => {
                return Err(EngineError::DecodeError);
            },
        }
        k += 1;
    }
    proof {
        // the loop cannot run out of iterations: every round that did not
        // end the stream yielded a frame, and there are fewer frames than
        // bytes
        assert(done);
        assert(raw@ =~= all);
    }
    let result = frames_from_raw(&raw);
    proof {
        if raw@.len() >= 1 {
            assert(result matches Ok(f) && f@ == spec_frames(all));
        }
    }
    result
}

} // verus!
