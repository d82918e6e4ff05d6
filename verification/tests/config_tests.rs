use cmcursor::config::{frame_file_name, generate_config};
use cmcursor::frames::{frames_from_raw, Frame, RawFrame};

fn raw(delay: u16) -> RawFrame {
    RawFrame { width: 32, height: 32, delay }
}

#[test]
fn three_frame_scenario() {
    let frames = frames_from_raw(&vec![raw(10), raw(20), raw(5)]).unwrap();
    let cfg = generate_config(&frames);
    assert_eq!(
        cfg.as_str(),
        "32 0 0 cursor.png 100\n32 0 0 cursor-1.png 200\n32 0 0 cursor-2.png 50\n"
    );
}

#[test]
fn static_scenario() {
    let frames = frames_from_raw(&vec![raw(7)]).unwrap();
    let cfg = generate_config(&frames);
    assert_eq!(cfg.as_str(), "32 0 0 cursor.png");
}

#[test]
fn single_frame_collapses_whatever_the_delay() {
    let frames = vec![Frame { width: 16, height: 16, delay: 123 }];
    let cfg = generate_config(&frames);
    assert_eq!(cfg.as_str(), "32 0 0 cursor.png");
}

#[test]
fn two_frames_with_zero_delays() {
    let frames = frames_from_raw(&vec![raw(0), raw(0)]).unwrap();
    let cfg = generate_config(&frames);
    assert_eq!(cfg.as_str(), "32 0 0 cursor.png 0\n32 0 0 cursor-1.png 0\n");
}

#[test]
fn largest_raw_delay() {
    let frames = frames_from_raw(&vec![raw(65535), raw(1)]).unwrap();
    let cfg = generate_config(&frames);
    assert_eq!(cfg.as_str(), "32 0 0 cursor.png 655350\n32 0 0 cursor-1.png 10\n");
}

#[test]
fn empty_frame_list_gives_empty_config() {
    let frames: Vec<Frame> = Vec::new();
    let cfg = generate_config(&frames);
    assert_eq!(cfg.as_str(), "");
}

#[test]
fn frame_file_names() {
    assert_eq!(frame_file_name(0).as_str(), "cursor.png");
    assert_eq!(frame_file_name(1).as_str(), "cursor-1.png");
    assert_eq!(frame_file_name(12).as_str(), "cursor-12.png");
    assert_eq!(frame_file_name(105).as_str(), "cursor-105.png");
}
