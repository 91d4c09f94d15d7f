//! The load/present pipeline end to end: blocking loads, decode failures,
//! generation discard, the frame channel's pacing, the network receiver,
//! and cursor sampling - with the real codecs linked in.

use oculante::buffer::Rgba;
use oculante::channel::FrameMsg;
use oculante::channel::SourceTag;
use oculante::decode::LoadError;
use oculante::decode::decode_animation;
use oculante::decode::decode_static;
use oculante::decode::load_blocking;
use oculante::ops::OpItem;
use oculante::ops::Operation;
use oculante::ops::PixelPoint;
use oculante::ops::Shape;
use oculante::rational::Frac;
use oculante::receiver::NetReceiver;
use oculante::session::Session;
use oculante::transform::Vec2;

fn png_bytes(w: u32, h: u32, color: [u8; 4]) -> Vec<u8> {
    let img = image::RgbaImage::from_pixel(w, h, image::Rgba(color));
    let mut out = std::io::Cursor::new(Vec::new());
    img.write_to(&mut out, image::ImageOutputFormat::Png).unwrap();
    out.into_inner()
}

fn gif_bytes() -> Vec<u8> {
    let mut data = Vec::new();
    {
        let mut enc = image::codecs::gif::GifEncoder::new(&mut data);
        let f1 = image::Frame::from_parts(
            image::RgbaImage::from_pixel(2, 2, image::Rgba([255, 0, 0, 255])),
            0,
            0,
            image::Delay::from_numer_denom_ms(100, 1),
        );
        let f2 = image::Frame::from_parts(
            image::RgbaImage::from_pixel(2, 2, image::Rgba([0, 255, 0, 255])),
            0,
            0,
            image::Delay::from_numer_denom_ms(50, 1),
        );
        enc.encode_frames(vec![f1, f2]).unwrap();
    }
    data
}

#[test]
fn unreadable_source_is_reported_not_panicked() {
    match load_blocking(None) {
        Err(LoadError::SourceUnreadable) => {},
        other => panic!("expected SourceUnreadable, got {:?}", other),
    }
}

#[test]
fn zero_byte_file_fails_to_decode_and_publishes_nothing() {
    // A zero-byte file reads fine but holds no image: the result is a
    // decode failure, never a panic, and no frame comes out of it.
    match load_blocking(Some(Vec::new())) {
        Err(LoadError::DecodeFailed) => {},
        other => panic!("expected DecodeFailed, got {:?}", other),
    }
}

#[test]
fn garbage_bytes_fail_to_decode() {
    assert!(matches!(
        load_blocking(Some(vec![1, 2, 3, 4, 5])),
        Err(LoadError::DecodeFailed)
    ));
}

#[test]
fn error_messages_are_human_readable() {
    assert_eq!(LoadError::SourceUnreadable.message(), "the source could not be read");
    assert_eq!(LoadError::DecodeFailed.message(), "the image data could not be decoded");
}

#[test]
fn png_round_trips_through_the_decoder() {
    // The decoder must really decode: a red 2x2 PNG comes back as pixels,
    // not as the encoded bytes.
    let bytes = png_bytes(2, 2, [255, 0, 0, 255]);
    let buf = decode_static(&bytes).unwrap();
    assert_eq!(buf.width(), 2);
    assert_eq!(buf.height(), 2);
    assert_eq!(buf.get_pixel(0, 0), Rgba { r: 255, g: 0, b: 0, a: 255 });
    assert_eq!(buf.get_pixel(1, 1), Rgba { r: 255, g: 0, b: 0, a: 255 });
}

#[test]
fn animated_gif_decodes_to_paced_frames() {
    let bytes = gif_bytes();
    let frames = decode_animation(&bytes).unwrap();
    assert_eq!(frames.len(), 2);
    assert_eq!(frames[0].duration_ms, 100);
    assert_eq!(frames[1].duration_ms, 50);
    assert_eq!(frames[0].buffer.get_pixel(0, 0), Rgba { r: 255, g: 0, b: 0, a: 255 });
    assert_eq!(frames[1].buffer.get_pixel(1, 1), Rgba { r: 0, g: 255, b: 0, a: 255 });
}

fn frame_of(color: [u8; 4], generation: u64, tag: SourceTag) -> FrameMsg {
    let bytes = png_bytes(100, 50, color);
    let buffer = decode_static(&bytes).unwrap();
    FrameMsg { generation, tag, buffer }
}

#[test]
fn accepted_frame_resets_the_view_to_fit() {
    // The fit-mode scenario through the whole pipeline: a 100x50 opaque
    // red image arrives in a 200x200 window; the fit rule caps the scale
    // at 1 and centers the image at (50, 75).
    let mut s = Session::new(200, 200);
    let g = s.request_load();
    s.publish(frame_of([255, 0, 0, 255], g, SourceTag::File));
    let redraw = s.on_tick();
    assert!(!redraw);
    assert!(s.is_loaded());
    let t = s.transform();
    assert!(t.fit_mode());
    assert!(t.scale().eq_rat(Frac::from_int(1)));
    assert!(t.offset().x.eq_rat(Frac::from_int(50)));
    assert!(t.offset().y.eq_rat(Frac::from_int(75)));
    let shown = s.displayed().unwrap();
    assert_eq!(shown.get_pixel(0, 0), Rgba { r: 255, g: 0, b: 0, a: 255 });
}

#[test]
fn stale_generation_is_discarded_silently() {
    let mut s = Session::new(200, 200);
    let g1 = s.request_load();
    let g2 = s.request_load();
    assert_eq!(g2, g1 + 1);
    // The fresh frame arrives first and is accepted.
    s.publish(frame_of([0, 0, 255, 255], g2, SourceTag::File));
    s.on_tick();
    // The superseded load finishes late; its frame must never show.
    s.publish(frame_of([255, 0, 0, 255], g1, SourceTag::File));
    s.on_tick();
    let shown = s.displayed().unwrap();
    assert_eq!(shown.get_pixel(0, 0), Rgba { r: 0, g: 0, b: 255, a: 255 });
    assert!(s.last_error().is_none());
}

#[test]
fn slow_load_superseded_by_fast_one_never_shows() {
    // Two sequential loads for different sources: the first is slow, the
    // second fast, so the second's frame is published first.  Whatever the
    // publish timing, only the second source's frame is ever observed.
    let mut s = Session::new(200, 200);
    let slow = s.request_load();
    let fast = s.request_load();
    s.publish(frame_of([0, 255, 0, 255], fast, SourceTag::File));
    let mut shown_colors: Vec<Rgba> = Vec::new();
    for _ in 0..3 {
        s.on_tick();
        if let Some(d) = s.displayed() {
            shown_colors.push(d.get_pixel(0, 0));
        }
    }
    s.publish(frame_of([255, 0, 0, 255], slow, SourceTag::File));
    for _ in 0..3 {
        s.on_tick();
        if let Some(d) = s.displayed() {
            shown_colors.push(d.get_pixel(0, 0));
        }
    }
    assert!(!shown_colors.is_empty());
    for c in shown_colors {
        assert_eq!(c, Rgba { r: 0, g: 255, b: 0, a: 255 });
    }
}

#[test]
fn one_frame_is_drained_per_tick_in_publish_order() {
    let mut s = Session::new(200, 200);
    let g = s.request_load();
    s.publish(frame_of([255, 0, 0, 255], g, SourceTag::File));
    s.publish(frame_of([0, 0, 255, 255], g, SourceTag::File));
    // First tick shows the first published frame and asks for another
    // redraw because one is still pending.
    assert!(s.on_tick());
    assert_eq!(s.displayed().unwrap().get_pixel(0, 0), Rgba { r: 255, g: 0, b: 0, a: 255 });
    // Second tick drains the second.
    assert!(!s.on_tick());
    assert_eq!(s.displayed().unwrap().get_pixel(0, 0), Rgba { r: 0, g: 0, b: 255, a: 255 });
}

#[test]
fn load_failure_keeps_the_previous_image() {
    let mut s = Session::new(200, 200);
    let g = s.request_load();
    s.publish(frame_of([255, 0, 0, 255], g, SourceTag::File));
    s.on_tick();
    s.request_load();
    s.record_error(LoadError::DecodeFailed);
    assert_eq!(s.last_error(), Some(LoadError::DecodeFailed));
    assert_eq!(s.displayed().unwrap().get_pixel(0, 0), Rgba { r: 255, g: 0, b: 0, a: 255 });
}

#[test]
fn receiver_swallows_bad_payloads_and_keeps_serving() {
    let mut r = NetReceiver::new();
    assert!(r.handle_payload(None, 1).is_none());
    assert!(r.handle_payload(Some(vec![9, 9, 9]), 1).is_none());
    assert_eq!(r.dropped_count(), 2);
    let m = r.handle_payload(Some(png_bytes(3, 3, [1, 2, 3, 255])), 7).unwrap();
    assert_eq!(r.delivered_count(), 1);
    assert_eq!(m.generation, 7);
    assert!(matches!(m.tag, SourceTag::Network));
    assert_eq!(m.buffer.get_pixel(2, 2), Rgba { r: 1, g: 2, b: 3, a: 255 });
}

#[test]
fn cursor_sample_reads_the_pixel_under_the_cursor() {
    let mut s = Session::new(200, 200);
    let g = s.request_load();
    s.publish(frame_of([12, 34, 56, 255], g, SourceTag::File));
    s.on_tick();
    // Scale 1, offset (50, 75): window (60, 80) is over image pixel
    // (10, 5).
    let hit = s.cursor_sample(Vec2::new(Frac::from_int(60), Frac::from_int(80)));
    let (p, c) = hit.unwrap();
    assert_eq!(p, PixelPoint { x: 10, y: 5 });
    assert_eq!(c, Rgba { r: 12, g: 34, b: 56, a: 255 });
    // Off the image: no sample.
    assert!(s.cursor_sample(Vec2::new(Frac::from_int(10), Frac::from_int(10))).is_none());
    assert!(s.cursor_sample(Vec2::new(Frac::from_int(160), Frac::from_int(80))).is_none());
}

#[test]
fn pointer_gesture_writes_image_space_points() {
    let mut s = Session::new(200, 200);
    let g = s.request_load();
    s.publish(frame_of([255, 255, 255, 255], g, SourceTag::File));
    s.on_tick();
    let mut item_ok = false;
    {
        let shapes = vec![Shape {
            p0: PixelPoint { x: 0, y: 0 },
            p1: PixelPoint { x: 0, y: 0 },
        }];
        assert!(s.push_operation(OpItem { operation: Operation::Measure { shapes }, active: true }));
        // Press at window (60, 80) = image (10, 5); drag to (70, 90) =
        // image (20, 15); release there.
        assert!(s.pointer_press(Vec2::new(Frac::from_int(60), Frac::from_int(80))));
        assert!(s.pointer_drag(Vec2::new(Frac::from_int(70), Frac::from_int(90))));
        assert!(s.pointer_release(Vec2::new(Frac::from_int(70), Frac::from_int(90))));
        match &s.stack_item(0).operation {
            Operation::Measure { shapes } => {
                assert_eq!(shapes[0].p0, PixelPoint { x: 10, y: 5 });
                assert_eq!(shapes[0].p1, PixelPoint { x: 20, y: 15 });
                item_ok = true;
            },
            _ => {},
        }
    }
    assert!(item_ok);
}

#[test]
fn session_resize_updates_window_and_fit() {
    let mut s = Session::new(200, 200);
    let g = s.request_load();
    s.publish(frame_of([9, 9, 9, 255], g, SourceTag::File));
    s.on_tick();
    s.on_resize(400, 400);
    let t = s.transform();
    assert!(t.fit_mode());
    assert!(t.scale().eq_rat(Frac::from_int(1)));
    assert!(t.offset().x.eq_rat(Frac::from_int(150)));
    assert!(t.offset().y.eq_rat(Frac::from_int(175)));
    assert_eq!(s.window_size(), (400, 400));
}
