use vstd::prelude::*;
use crate::errors::EngineError;

verus! {

/// Frame metadata as the animated-image decoder reports it: dimensions in
/// pixels and the display delay in the decoder's raw time unit.
#[derive(Clone, Copy, Debug, PartialEq, Eq, Structural)]
pub struct RawFrame {
    pub width: u16,
    pub height: u16,
    pub delay: u16,
}

/// One frame of the cursor animation; `delay` is in centiseconds.
#[derive(Clone, Copy, Debug, PartialEq, Eq, Structural)]
pub struct Frame {
    pub width: u16,
    pub height: u16,
    pub delay: u32,
}

/// A raw frame with its delay converted from the decoder's unit to
/// centiseconds (a fixed factor of 10).
pub open spec fn spec_converted_frame(r: RawFrame) -> Frame {
    Frame { width: r.width, height: r.height, delay: (r.delay * 10) as u32 }
}

/// The frame sequence the engine works on: a multi-frame source keeps every
/// frame with converted delays; a single-frame (static) source yields one
/// synthetic frame with delay 0.
pub open spec fn spec_frames(raw: Seq<RawFrame>) -> Seq<Frame>
    recommends
        raw.len() >= 1,
{
    if raw.len() == 1 {
        seq![Frame { width: raw[0].width, height: raw[0].height, delay: 0 }]
    } else {
        raw.map_values(|r: RawFrame| spec_converted_frame(r))
    }
}

/// Turns the decoder's raw frame list into the engine's frame sequence.
/// A source with no frames at all is not a decodable cursor image.
pub fn frames_from_raw(raw: &Vec<RawFrame>) -> (r: Result<Vec<Frame>, EngineError>)
    ensures
        raw@.len() == 0 ==> r == Err::<Vec<Frame>, EngineError>(EngineError::DecodeError),
        raw@.len() >= 1 ==> (r matches Ok(f) && f@ == spec_frames(raw@)),
{
    if raw.len() == 0 {
        return Err(EngineError::DecodeError);
    }
    if raw.len() == 1 {
        let first = raw[0];
        let mut out: Vec<Frame> = Vec::new();
        out.push(Frame { width: first.width, height: first.height, delay: 0 });
        proof {
            assert(out@ =~= spec_frames(raw@));
        }
        return Ok(out);
    }
    let mut out: Vec<Frame> = Vec::new();
    let mut i: usize = 0;
    while i < raw.len()
        invariant
            i <= raw@.len(),
            out@ =~= raw@.subrange(0, i as int).map_values(|r: RawFrame| spec_converted_frame(r)),
        decreases raw@.len() - i,
    {
        let rf = raw[i];
        out.push(Frame { width: rf.width, height: rf.height, delay: (rf.delay as u32) * 10 });
        proof {
            assert(raw@.subrange(0, i + 1 as int).drop_last() =~= raw@.subrange(0, i as int));
            assert(out@ =~= raw@.subrange(0, i + 1 as int).map_values(
                |r: RawFrame| spec_converted_frame(r),
            ));
        }
        i += 1;
    }
    proof {
        assert(raw@.subrange(0, raw@.len() as int) =~= raw@);
        assert(out@ =~= spec_frames(raw@));
    }
    Ok(out)
}

} // verus!
