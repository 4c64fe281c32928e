use label_follow::frame::FrameContext;

#[test]
fn fresh_context_has_nothing_to_read() {
    let mut c: FrameContext<(f32, f32, f32)> = FrameContext::new();
    assert_eq!(c.take_for_label(), None);
}

#[test]
fn label_reads_this_frames_motion() {
    let mut c = FrameContext::new();
    c.record_motion((0.0f32, 1.0f32, 0.0f32));
    assert_eq!(c.take_for_label(), Some((0.0, 1.0, 0.0)));
}

#[test]
fn position_is_not_read_twice() {
    let mut c = FrameContext::new();
    c.record_motion((1.0f32, 2.0f32, 3.0f32));
    assert_eq!(c.take_for_label(), Some((1.0, 2.0, 3.0)));
    assert_eq!(c.take_for_label(), None);
}

#[test]
fn later_motion_overwrites_earlier() {
    let mut c = FrameContext::new();
    c.record_motion(1u32);
    c.record_motion(2u32);
    assert_eq!(c.take_for_label(), Some(2));
}

#[test]
fn each_frame_reads_its_own_position() {
    let mut c = FrameContext::new();
    for frame in 0u32..5 {
        c.record_motion(frame * 10);
        assert_eq!(c.take_for_label(), Some(frame * 10));
    }
}
