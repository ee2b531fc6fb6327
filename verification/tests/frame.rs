//! Dimensions, pixels, frames and frame stream configuration.

use std::time::Duration;

use media::fps::consts;
use media::frame::buffer::dimensions::Dimensions as Dimensions32;
use media::frame::producer::{validate_on_stream_end, OnStreamEnd, OnStreamEndError};
use media::frame::streams::ffmpeg_tools::{validate_video_frame, VideoStreamError};
use media::frame::streams::still_frame::StillFrame;
use media::frame::streams::video_frame_stream::{Clip, RangeEnd, VideoFrameStreamBuilder};
use media::frame::{
    get_pixel_clamped, BasicFrame, DifferentDimensionsError, Dimensions, Frame, Pixel,
    RescaleMethod, TryFromSliceError, Uid,
};

fn dims(width: usize, height: usize) -> Dimensions {
    Dimensions::new(width, height).unwrap()
}

#[test]
fn dimensions_reject_zero_sides() {
    assert!(Dimensions::new(0, 5).is_none());
    assert!(Dimensions::new(5, 0).is_none());
    assert!(Dimensions32::new(0, 1).is_none());
    let d = dims(4, 3);
    assert_eq!((d.width(), d.height(), d.area()), (4, 3, 12));
}

#[test]
fn dimensions_rescale_examples() {
    let hd = Dimensions32::new(1920, 1080).unwrap();
    let d = hd.rescale_height(720).unwrap();
    assert_eq!((d.width(), d.height()), (1280, 720));
    let d = hd.rescale_height_rounded(721).unwrap();
    assert_eq!((d.width(), d.height()), (1282, 721));
    let d = hd.rescale_width(1280).unwrap();
    assert_eq!((d.width(), d.height()), (1280, 720));
    let d = hd.rescale_width_rounded(1281).unwrap();
    assert_eq!((d.width(), d.height()), (1281, 721));
    // 721 does not divide evenly.
    assert!(hd.rescale_height(721).is_none());
    assert!(hd.rescale_height(0).is_none());
    let ratio = hd.aspect_ratio();
    assert_eq!((ratio.width(), ratio.height()), (16, 9));
}

#[test]
fn dimensions_order_by_area() {
    assert!(dims(2, 2) < dims(1, 5));
    assert!(dims(3, 3) > dims(4, 2));
}

#[test]
fn pixels_from_hex() {
    assert_eq!(Pixel::from_hex("#AA5500FF"), Some(Pixel::YELLOW()));
    assert_eq!(Pixel::from_hex("#aa5500"), Some(Pixel::YELLOW()));
    assert_eq!(Pixel::from_hex_str("#12345678"), Some(Pixel::from_rgba(0x12, 0x34, 0x56, 0x78)));
    assert_eq!(Pixel::from_hex("AA5500FF"), None);
    assert_eq!(Pixel::from_hex("#AA5500F"), None);
    assert_eq!(Pixel::from_hex("#GG5500FF"), None);
}

#[test]
fn pixel_channels_and_transparency() {
    let p = Pixel::from_rgba(1, 2, 3, 4);
    assert_eq!((p.red(), p.green(), p.blue(), p.alpha()), (1, 2, 3, 4));
    assert_eq!(p.channels(), [1, 2, 3, 4]);
    assert_eq!(Pixel::from_channels([1, 2, 3, 4]), p);
    assert!(p.is_translucent());
    assert!(!p.is_opaque());
    assert!(p.remove_transparency().is_opaque());
    assert!(p.set_alpha(0).is_transparent());
    assert_eq!(p.set_red(9).set_green(8).set_blue(7), Pixel::from_rgba(9, 8, 7, 4));
    assert_eq!(Pixel::from_rgb(5, 6, 7).alpha(), 255);
    let mut q = Pixel::BLACK();
    *q.red_mut() = 200;
    *q.alpha_mut() = 10;
    assert_eq!(q, Pixel::from_rgba(200, 0, 0, 10));
}

#[test]
fn frames_from_pixels_and_raw_data() {
    let d = dims(2, 2);
    let uid = Uid::from_parts(1, 2);
    let pixels = vec![Pixel::RED(), Pixel::GREEN(), Pixel::BLUE(), Pixel::WHITE()];
    let frame = Frame::from_pixels(pixels.clone(), d, uid).unwrap();
    assert_eq!(frame.pixels(), &pixels[..]);
    assert_eq!(frame.dimensions(), d);
    assert_eq!(frame.uid(), uid);
    let raw = frame.raw_data();
    assert_eq!(raw.len(), 16);
    let again = Frame::from_raw_data(raw, d, Uid::from_parts(1, 3)).unwrap();
    assert_eq!(again.pixels(), &pixels[..]);
    assert_eq!(
        Frame::from_pixels(vec![Pixel::RED()], d, uid).err(),
        Some(TryFromSliceError::LenError)
    );
    assert_eq!(
        Frame::from_raw_data(vec![0; 15], d, uid).err(),
        Some(TryFromSliceError::LenError)
    );
}

#[test]
fn frame_rows_and_fill() {
    let d = dims(3, 2);
    let mut frame = Frame::from_fill_with_coords(
        d,
        |row, col| Pixel::from_rgba(row as u8, col as u8, 0, 255),
        Uid::from_parts(0, 1),
    );
    assert_eq!(frame.pixel_row(1)[2], Pixel::from_rgba(1, 2, 0, 255));
    assert_eq!(frame.pixel_rows().len(), 2);
    assert_eq!(get_pixel_clamped(&frame, -5, 1), Pixel::from_rgba(0, 1, 0, 255));
    assert_eq!(get_pixel_clamped(&frame, 9, 9), Pixel::from_rgba(1, 2, 0, 255));
    frame.fill(Pixel::CYAN());
    assert!(frame.pixels().iter().all(|p| *p == Pixel::CYAN()));
    frame.fill_with(|| Pixel::MAGENTA());
    assert!(frame.pixels().iter().all(|p| *p == Pixel::MAGENTA()));
    let other = Frame::from_fill(d, Pixel::BLUE(), Uid::from_parts(0, 2));
    assert_eq!(frame.fill_from_frame(&other), Ok(()));
    assert_eq!(frame.pixels(), other.pixels());
    assert_eq!(frame.uid(), Uid::from_parts(0, 1));
    let small = Frame::new(dims(1, 1), Uid::from_parts(0, 3));
    assert_eq!(
        frame.fill_from_frame(&small),
        Err(DifferentDimensionsError { expected: d, actual: dims(1, 1) })
    );
}

#[test]
fn frames_compare_by_uid() {
    let a = Frame::from_fill(dims(1, 1), Pixel::RED(), Uid::from_parts(4, 4));
    let b = Frame::from_fill(dims(2, 2), Pixel::BLUE(), Uid::from_parts(4, 4));
    let c = Frame::from_fill(dims(1, 1), Pixel::RED(), Uid::from_parts(4, 5));
    assert!(a == b);
    assert!(a != c);
}

#[test]
fn frame_internal_buffer() {
    let d = dims(2, 1);
    let frame = Frame::from_buffer(
        BasicFrame { pixels: vec![Pixel::RED(), Pixel::GREEN()], dimensions: d },
        Uid::from_parts(7, 7),
    );
    let swapped = frame.swap_internal(|mut b| {
        b.pixels.reverse();
        b
    });
    assert_eq!(swapped.pixels(), &[Pixel::GREEN(), Pixel::RED()][..]);
    assert_eq!(swapped.uid(), Uid::from_parts(7, 7));
    let inner = swapped.to_internal();
    assert_eq!(inner.dimensions, d);
    assert_eq!(RescaleMethod::default(), RescaleMethod::Bilinear);
}

#[test]
fn still_frame_repeats_its_frame() {
    let d = dims(2, 2);
    let mut still = StillFrame::new(Frame::from_fill(d, Pixel::RED(), Uid::from_parts(1, 1)));
    assert_eq!(still.start_over(), Ok(()));
    let out = still.write_next_frame(Frame::new(d, Uid::from_parts(1, 2)));
    assert!(out.pixels().iter().all(|p| *p == Pixel::RED()));
    assert_eq!(out.uid(), Uid::from_parts(1, 2));
    let created = still.create_next_frame(Uid::from_parts(1, 3));
    assert_eq!(created.dimensions(), d);
    assert!(created.pixels().iter().all(|p| *p == Pixel::RED()));
    assert_eq!(created.uid(), Uid::from_parts(1, 3));
    assert_eq!(still.dimensions(), d);
}

#[test]
fn frame_copies_get_their_own_uid() {
    let d = dims(3, 1);
    let frame = Frame::from_fill_with_coords(d, |_, col| Pixel::from_rgba(col as u8, 0, 0, 255), Uid::from_parts(2, 1));
    let copy = frame.clone_with_uid(Uid::from_parts(2, 2));
    assert_eq!(copy.pixels(), frame.pixels());
    assert_eq!(copy.dimensions(), d);
    assert_eq!(copy.uid(), Uid::from_parts(2, 2));
    assert!(copy != frame);
}

#[test]
fn clips_are_fixed_into_the_stream() {
    let clip = Clip::from_range(RangeEnd::Included(5), RangeEnd::Excluded(20));
    assert_eq!((clip.start, clip.end), (5, 19));
    let all = Clip::from_range(RangeEnd::Unbounded, RangeEnd::Unbounded);
    assert_eq!((all.start, all.end), (0, usize::MAX));
    assert_eq!(all.fix(10), Clip { start: 0, end: 9 });
    assert_eq!(Clip { start: 15, end: 3 }.fix(10), Clip { start: 9, end: 9 });
    assert_eq!(Clip { start: 4, end: 2 }.fix(10), Clip { start: 4, end: 4 });
    let fixed = clip.fix(12);
    assert_eq!(fixed, Clip { start: 5, end: 11 });
    assert_eq!(fixed.fix(12), fixed);
    let mut c = Clip::new(2..=7);
    assert!(c.contains(2) && c.contains(7) && !c.contains(8));
    c.fix_in_place(5);
    assert_eq!(c.to_range(), 2..=4);
}

#[test]
fn video_stream_builder_settings() {
    let default = VideoFrameStreamBuilder::new();
    assert_eq!(default.target_fps(), None);
    assert!(!default.is_paused());
    assert_eq!(default.clip_range(), Clip { start: 0, end: usize::MAX });
    assert_eq!(default.speed(), consts::FPS_1());
    let b = VideoFrameStreamBuilder::new()
        .fps(consts::FPS_30())
        .paused(true)
        .clip(RangeEnd::Included(10), RangeEnd::Included(20))
        .playhead(12)
        .set_loop(true)
        .playback_speed(consts::FPS_1().inverse())
        .rescale(dims(4, 4), RescaleMethod::Bicubic)
        .fetch_timeout(Duration::from_millis(5));
    assert_eq!(b.target_fps(), Some(consts::FPS_30()));
    assert!(b.is_paused());
    assert_eq!(b.clip_range(), Clip { start: 10, end: 20 });
    assert_eq!(b.start_playhead(), 12);
    assert!(b.will_loop());
    assert_eq!(b.rescaling(), Some((dims(4, 4), RescaleMethod::Bicubic)));
    assert_eq!(b.timeout(), Some(Duration::from_millis(5)));
}

#[test]
fn on_stream_end_rules_are_checked() {
    let d = dims(2, 2);
    assert_eq!(OnStreamEnd::default(), OnStreamEnd::HoldSolidBlack);
    assert_eq!(
        validate_on_stream_end(&OnStreamEnd::HoldLastFrame, None, d),
        Err(OnStreamEndError::HoldLastFrameWithoutKnownLength)
    );
    assert_eq!(
        validate_on_stream_end(&OnStreamEnd::Loop, None, d),
        Err(OnStreamEndError::LoopWithoutKnownLength)
    );
    assert_eq!(validate_on_stream_end(&OnStreamEnd::Loop, Some(10), d), Ok(()));
    let wrong = OnStreamEnd::HoldFrame(Frame::new(dims(3, 1), Uid::from_parts(0, 0)));
    assert_eq!(
        validate_on_stream_end(&wrong, Some(10), d),
        Err(OnStreamEndError::InvalidHoldFrameDimensions { expected: d, actual: dims(3, 1) })
    );
    let right = OnStreamEnd::HoldFrame(Frame::new(d, Uid::from_parts(0, 0)));
    assert_eq!(validate_on_stream_end(&right, None, d), Ok(()));
    assert_eq!(validate_on_stream_end(&OnStreamEnd::Error, None, d), Ok(()));
}

#[test]
fn decoded_frames_are_checked() {
    assert_eq!(validate_video_frame(true, 2, 3, 24, 0), Ok(()));
    assert_eq!(validate_video_frame(false, 2, 3, 24, 0), Err(VideoStreamError::NotRGBA));
    assert_eq!(
        validate_video_frame(true, 0, 3, 0, 0),
        Err(VideoStreamError::ZeroLengthSide(0, 3))
    );
    assert_eq!(
        validate_video_frame(true, 2, 3, 20, 0),
        Err(VideoStreamError::WrongBufferLen { expected: 24, actual: 20 })
    );
    assert_eq!(
        validate_video_frame(true, 2, 3, 24, 2),
        Err(VideoStreamError::BadBufferAlignment(2))
    );
}

#[test]
fn frame_keeps_its_shape_through_edits() {
    let d = dims(3, 2);
    let uid = Uid::from_parts(5, 5);
    let mut frame = Frame::new(d, uid);
    let other = Frame::from_fill(d, Pixel::BLUE(), Uid::from_parts(5, 6));
    frame.fill(Pixel::RED());
    frame.fill_with(|| Pixel::GREEN());
    frame.fill_with_coords(|row, col| Pixel::from_rgba(row as u8, col as u8, 0, 255));
    frame.fill_from_frame(&other).unwrap();
    assert!(frame.fill_from_frame(&Frame::new(dims(1, 1), Uid::from_parts(5, 7))).is_err());
    assert_eq!(frame.pixels().len(), d.area());
    assert_eq!(frame.dimensions(), d);
    assert_eq!(frame.uid(), uid);
    assert!(frame.pixels().iter().all(|p| *p == Pixel::BLUE()));
}

#[test]
fn pixel_channels_through_a_mutable_reference() {
    let mut p = Pixel::from_rgba(1, 2, 3, 4);
    assert_eq!(p.channels(), [1, 2, 3, 4]);
    {
        let c = p.channels_mut();
        c[0] = 10;
        c[3] = 40;
    }
    assert_eq!(p, Pixel::from_rgba(10, 2, 3, 40));
    *p.green_mut() = 20;
    assert_eq!(p.channels(), [10, 20, 3, 40]);
    assert!(Pixel::from_rgba(0, 0, 0, 1) < Pixel::from_rgba(0, 0, 1, 0));
}
