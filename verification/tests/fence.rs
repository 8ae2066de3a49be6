use bevy_arca::render::fence::{FenceWait, FrameFence};

#[test]
fn new_fence_expects_zero() {
    let fence = FrameFence::new(0x51, 0x99);
    assert_eq!(fence.expected_value(), 0);
    assert_eq!(fence.fence(), 0x51);
    assert_eq!(fence.event(), 0x99);
}

#[test]
fn signal_returns_the_value_expected_before_and_counts_on() {
    let mut fence = FrameFence::new(1, 2);
    assert_eq!(fence.signal_after_submit(), 0);
    assert_eq!(fence.expected_value(), 1);
    assert_eq!(fence.signal_after_submit(), 1);
    assert_eq!(fence.signal_after_submit(), 2);
    assert_eq!(fence.expected_value(), 3);
    assert_eq!(fence.fence(), 1);
    assert_eq!(fence.event(), 2);
}

#[test]
fn wait_blocks_for_the_signalled_value_until_it_is_completed() {
    let mut fence = FrameFence::new(1, 2);
    for _ in 0..5 {
        fence.signal_after_submit();
    }
    let signalled = fence.signal_after_submit();
    assert_eq!(signalled, 5);
    assert_eq!(fence.wait_for_previous_frame(0), FenceWait::Block { value: 5 });
    assert_eq!(fence.wait_for_previous_frame(4), FenceWait::Block { value: 5 });
    assert_eq!(fence.wait_for_previous_frame(5), FenceWait::Ready);
    assert_eq!(fence.wait_for_previous_frame(6), FenceWait::Ready);
    assert_eq!(fence.wait_for_previous_frame(u64::MAX), FenceWait::Ready);
}

#[test]
fn wait_after_the_first_signal_is_ready_at_once() {
    let mut fence = FrameFence::new(1, 2);
    assert_eq!(fence.signal_after_submit(), 0);
    assert_eq!(fence.wait_for_previous_frame(0), FenceWait::Ready);
}

#[test]
fn wait_is_idempotent() {
    let mut fence = FrameFence::new(1, 2);
    fence.signal_after_submit();
    fence.signal_after_submit();
    let before = fence;
    let first = fence.wait_for_previous_frame(0);
    let second = fence.wait_for_previous_frame(0);
    assert_eq!(first, second);
    assert_eq!(first, FenceWait::Block { value: 1 });
    assert_eq!(fence, before);
    assert_eq!(fence.wait_for_previous_frame(1), FenceWait::Ready);
    assert_eq!(fence.wait_for_previous_frame(1), FenceWait::Ready);
}

#[test]
fn wait_terminates_once_the_mocked_device_reports_the_signal() {
    let mut fence = FrameFence::new(1, 2);
    for _ in 0..3 {
        fence.signal_after_submit();
    }
    let mut completed: u64 = 0;
    let mut polls = 0;
    while let FenceWait::Block { value } = fence.wait_for_previous_frame(completed) {
        assert_eq!(value, 2);
        completed += 1;
        polls += 1;
        assert!(polls <= 2);
    }
    assert_eq!(completed, 2);
}
