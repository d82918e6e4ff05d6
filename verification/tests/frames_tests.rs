use cmcursor::errors::EngineError;
use cmcursor::frames::{frames_from_raw, RawFrame};
use cmcursor::gif_decode::extract_frames;

fn encode_gif(delays: &[u16]) -> Vec<u8> {
    let mut bytes: Vec<u8> = Vec::new();
    {
        let palette = [0u8, 0, 0, 255, 255, 255];
        let mut encoder = gif::Encoder::new(&mut bytes, 2, 2, &palette).unwrap();
        for &delay in delays {
            let mut frame = gif::Frame::from_indexed_pixels(2, 2, vec![0u8, 1, 1, 0], None);
            frame.delay = delay;
            encoder.write_frame(&frame).unwrap();
        }
    }
    bytes
}

#[test]
fn raw_conversion_multiplies_delays_by_ten() {
    let raw = vec![
        RawFrame { width: 4, height: 6, delay: 10 },
        RawFrame { width: 8, height: 2, delay: 25 },
    ];
    let frames = frames_from_raw(&raw).unwrap();
    assert_eq!(frames.len(), 2);
    assert_eq!(frames[0].width, 4);
    assert_eq!(frames[0].height, 6);
    assert_eq!(frames[0].delay, 100);
    assert_eq!(frames[1].delay, 250);
}

#[test]
fn single_raw_frame_synthesizes_zero_delay() {
    let raw = vec![RawFrame { width: 5, height: 9, delay: 77 }];
    let frames = frames_from_raw(&raw).unwrap();
    assert_eq!(frames.len(), 1);
    assert_eq!(frames[0].width, 5);
    assert_eq!(frames[0].height, 9);
    assert_eq!(frames[0].delay, 0);
}

#[test]
fn no_raw_frames_is_a_decode_error() {
    let raw: Vec<RawFrame> = Vec::new();
    assert_eq!(frames_from_raw(&raw), Err(EngineError::DecodeError));
}

#[test]
fn animated_source_decodes_with_converted_delays() {
    let bytes = encode_gif(&[10, 20]);
    let frames = extract_frames(&bytes).unwrap();
    assert_eq!(frames.len(), 2);
    assert_eq!(frames[0].width, 2);
    assert_eq!(frames[0].height, 2);
    assert_eq!(frames[0].delay, 100);
    assert_eq!(frames[1].delay, 200);
}

#[test]
fn static_source_decodes_to_one_synthetic_frame() {
    let bytes = encode_gif(&[33]);
    let frames = extract_frames(&bytes).unwrap();
    assert_eq!(frames.len(), 1);
    assert_eq!(frames[0].delay, 0);
}

#[test]
fn garbage_bytes_are_a_decode_error() {
    let bytes = vec![1u8, 2, 3, 4, 5, 6, 7, 8];
    assert_eq!(extract_frames(&bytes), Err(EngineError::DecodeError));
}

#[test]
fn empty_bytes_are_a_decode_error() {
    let bytes: Vec<u8> = Vec::new();
    assert_eq!(extract_frames(&bytes), Err(EngineError::DecodeError));
}

#[test]
fn truncated_stream_is_a_decode_error() {
    let bytes = encode_gif(&[10, 20]);
    let cut = &bytes[..bytes.len() - 10];
    assert_eq!(extract_frames(cut), Err(EngineError::DecodeError));
}

#[test]
fn stream_without_frames_is_a_decode_error() {
    // a well-formed header and the end-of-stream marker, but no frame
    let mut bytes: Vec<u8> = b"GIF89a".to_vec();
    bytes.extend_from_slice(&[2, 0, 2, 0, 0, 0, 0]);
    bytes.push(0x3B);
    assert_eq!(extract_frames(&bytes), Err(EngineError::DecodeError));
}
