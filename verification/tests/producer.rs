//! The decisions of a frame producer while it fetches from a stream.

use std::time::Duration;

use media::frame::producer::{
    EndAction, FetchStep, FrameFetcher, HandOut, OnStreamEnd, ProducerError,
};
use media::frame::{Dimensions, Frame, Uid};

fn dims(width: usize, height: usize) -> Dimensions {
    Dimensions::new(width, height).unwrap()
}

fn fetch(fetcher: &mut FrameFetcher, d: Dimensions, length: Option<usize>, uid: usize) {
    assert!(matches!(fetcher.next_step(length), FetchStep::GetFrame));
    let keep = fetcher.frame_fetched::<()>(d, d, length).unwrap();
    if keep {
        fetcher.keep_frame(Frame::new(d, Uid::from_parts(0, uid)));
    }
}

#[test]
fn fetcher_holds_last_frame_at_end() {
    let d = dims(2, 2);
    let mut fetcher = FrameFetcher::new(OnStreamEnd::HoldLastFrame);
    for uid in 1..=3 {
        fetch(&mut fetcher, d, Some(3), uid);
    }
    match fetcher.next_step(Some(3)) {
        FetchStep::StreamEnded(EndAction::HoldFrame(frame)) => {
            assert_eq!(frame.uid(), Uid::from_parts(0, 3));
        },
        other => panic!("unexpected step {:?}", other),
    }
    // The held frame replaces the stream, which cannot end again.
    assert!(matches!(fetcher.next_step(None), FetchStep::GetFrame));
}

#[test]
fn fetcher_holds_first_frame_at_end() {
    let d = dims(1, 1);
    let mut fetcher = FrameFetcher::new(OnStreamEnd::HoldFirstFrame);
    for uid in 1..=4 {
        fetch(&mut fetcher, d, Some(4), uid);
    }
    match fetcher.next_step(Some(4)) {
        FetchStep::StreamEnded(EndAction::HoldFrame(frame)) => {
            assert_eq!(frame.uid(), Uid::from_parts(0, 1));
        },
        other => panic!("unexpected step {:?}", other),
    }
}

#[test]
fn fetcher_of_empty_stream_holds_black() {
    let mut fetcher = FrameFetcher::new(OnStreamEnd::HoldLastFrame);
    assert!(matches!(
        fetcher.next_step(Some(0)),
        FetchStep::StreamEnded(EndAction::HoldSolidBlack)
    ));
    let mut fetcher = FrameFetcher::new(OnStreamEnd::HoldSolidBlack);
    assert!(matches!(
        fetcher.next_step(Some(0)),
        FetchStep::StreamEnded(EndAction::HoldSolidBlack)
    ));
}

#[test]
fn fetcher_loops_and_restarts_count() {
    let d = dims(3, 2);
    let mut fetcher = FrameFetcher::new(OnStreamEnd::Loop);
    for round in 0..3 {
        assert!(!fetcher.stream_is_over(Some(2)));
        fetch(&mut fetcher, d, Some(2), round * 2 + 1);
        fetch(&mut fetcher, d, Some(2), round * 2 + 2);
        assert!(fetcher.stream_is_over(Some(2)));
        assert!(matches!(fetcher.next_step(Some(2)), FetchStep::StreamEnded(EndAction::StartOver)));
        // Until the stream did start over, it is still at its end.
        assert!(fetcher.stream_is_over(Some(2)));
        fetcher.started_over();
    }
}

#[test]
fn fetcher_reports_unexpected_end() {
    let d = dims(1, 1);
    let mut fetcher = FrameFetcher::new(OnStreamEnd::Error);
    fetch(&mut fetcher, d, Some(1), 1);
    assert!(matches!(fetcher.next_step(Some(1)), FetchStep::StreamEnded(EndAction::Error)));
    // The end stays an error.
    assert!(matches!(fetcher.next_step(Some(1)), FetchStep::StreamEnded(EndAction::Error)));
}

#[test]
fn fetcher_holds_given_frame() {
    let d = dims(2, 1);
    let held = Frame::new(d, Uid::from_parts(9, 9));
    let mut fetcher = FrameFetcher::new(OnStreamEnd::HoldFrame(held));
    fetch(&mut fetcher, d, Some(1), 1);
    match fetcher.next_step(Some(1)) {
        FetchStep::StreamEnded(EndAction::HoldFrame(frame)) => {
            assert_eq!(frame.uid(), Uid::from_parts(9, 9));
        },
        other => panic!("unexpected step {:?}", other),
    }
}

#[test]
fn fetcher_rejects_frames_of_other_dimensions() {
    let mut fetcher = FrameFetcher::new(OnStreamEnd::HoldLastFrame);
    let r = fetcher.frame_fetched::<()>(dims(2, 2), dims(4, 4), Some(1));
    match r {
        Err(ProducerError::UnexpectedDimensions { expected, actual }) => {
            assert_eq!(expected, dims(4, 4));
            assert_eq!(actual, dims(2, 2));
        },
        other => panic!("unexpected result {:?}", other),
    }
    // The rejected frame was not counted.
    assert!(!fetcher.stream_is_over(Some(1)));
    assert!(fetcher.stream_is_over(Some(0)));
}

#[test]
fn fetcher_keeps_only_what_its_rule_needs() {
    let d = dims(1, 1);
    let mut fetcher = FrameFetcher::new(OnStreamEnd::HoldLastFrame);
    assert_eq!(fetcher.frame_fetched::<()>(d, d, Some(2)).unwrap(), false);
    assert_eq!(fetcher.frame_fetched::<()>(d, d, Some(2)).unwrap(), true);
    let mut fetcher = FrameFetcher::new(OnStreamEnd::HoldLastFrame);
    assert_eq!(fetcher.frame_fetched::<()>(d, d, None).unwrap(), false);
    let mut fetcher = FrameFetcher::new(OnStreamEnd::HoldFirstFrame);
    assert_eq!(fetcher.frame_fetched::<()>(d, d, None).unwrap(), true);
    fetcher.keep_frame(Frame::new(d, Uid::from_parts(0, 1)));
    assert_eq!(fetcher.frame_fetched::<()>(d, d, None).unwrap(), false);
    let mut fetcher = FrameFetcher::new(OnStreamEnd::Loop);
    assert_eq!(fetcher.frame_fetched::<()>(d, d, Some(1)).unwrap(), false);
}

#[test]
fn hand_out_signals_and_recycles() {
    let d = dims(2, 2);
    let mut h = HandOut::new();
    assert!(h.signal_fetch());
    assert!(!h.may_recycle(Uid::from_parts(0, 1)));
    h.frame_received::<()>(d, Uid::from_parts(0, 1), d).unwrap();
    assert!(h.may_recycle(Uid::from_parts(0, 1)));
    assert!(!h.may_recycle(Uid::from_parts(0, 2)));
    let e = h.timed_out::<()>(Duration::from_secs(5));
    assert!(matches!(e, ProducerError::Timeout { timeout } if timeout == Duration::from_secs(5)));
    // The wait that timed out already signalled the fetching side.
    assert!(!h.signal_fetch());
    let e = h.fetch_failed::<u8>(ProducerError::StreamError(3));
    assert!(matches!(e, ProducerError::StreamError(3)));
    assert!(h.signal_fetch());
    // A frame of other dimensions is refused and is not the last one handed out.
    match h.frame_received::<()>(dims(1, 1), Uid::from_parts(0, 2), d) {
        Err(ProducerError::UnexpectedDimensions { expected, actual }) => {
            assert_eq!(expected, d);
            assert_eq!(actual, dims(1, 1));
        },
        other => panic!("unexpected result {:?}", other),
    }
    assert!(h.may_recycle(Uid::from_parts(0, 1)));
}
