//! Operation-stack behaviour: the singleton rule, ordered application and
//! the gesture protocol.

use oculante::buffer::PixelBuffer;
use oculante::buffer::Rgba;
use oculante::ops::OpItem;
use oculante::ops::Operation;
use oculante::ops::OperationStack;
use oculante::ops::PixelPoint;
use oculante::ops::Shape;

fn measure_item() -> OpItem {
    let shapes = vec![Shape {
        p0: PixelPoint { x: 0, y: 0 },
        p1: PixelPoint { x: 0, y: 0 },
    }];
    OpItem { operation: Operation::Measure { shapes }, active: true }
}

#[test]
fn second_active_singleton_is_rejected() {
    let mut stack = OperationStack::new();
    assert!(stack.push(measure_item()));
    assert_eq!(stack.len(), 1);
    // Pushing a second measurement while one is active leaves the stack
    // length unchanged.
    assert!(!stack.push(measure_item()));
    assert_eq!(stack.len(), 1);
}

#[test]
fn inactive_singleton_does_not_block_a_push() {
    let mut stack = OperationStack::new();
    let mut first = measure_item();
    first.active = false;
    assert!(stack.push(first));
    assert!(stack.push(measure_item()));
    assert_eq!(stack.len(), 2);
}

#[test]
fn non_singleton_kinds_may_repeat() {
    let mut stack = OperationStack::new();
    assert!(stack.push(OpItem { operation: Operation::SoloChannel { channel: 0 }, active: true }));
    assert!(stack.push(OpItem { operation: Operation::SoloChannel { channel: 1 }, active: true }));
    assert_eq!(stack.len(), 2);
}

#[test]
fn apply_all_runs_active_operations_in_order() {
    let buffer = PixelBuffer::new_filled(2, 1, Rgba { r: 10, g: 200, b: 30, a: 128 }).unwrap();
    let mut stack = OperationStack::new();
    assert!(stack.push(OpItem { operation: Operation::SoloChannel { channel: 1 }, active: true }));
    assert!(stack.push(OpItem { operation: Operation::Unpremultiply, active: true }));
    let out = stack.apply_all(&buffer);
    // Channel isolation first: every sample becomes (200, 200, 200, 255);
    // unpremultiplying at alpha 255 then changes nothing.
    assert_eq!(out.get_pixel(0, 0), Rgba { r: 200, g: 200, b: 200, a: 255 });
    assert_eq!(out.get_pixel(1, 0), Rgba { r: 200, g: 200, b: 200, a: 255 });
}

#[test]
fn inactive_operations_are_skipped() {
    let buffer = PixelBuffer::new_filled(1, 1, Rgba { r: 10, g: 200, b: 30, a: 128 }).unwrap();
    let mut stack = OperationStack::new();
    assert!(stack.push(OpItem { operation: Operation::SoloChannel { channel: 1 }, active: false }));
    let out = stack.apply_all(&buffer);
    assert_eq!(out.get_pixel(0, 0), Rgba { r: 10, g: 200, b: 30, a: 128 });
}

#[test]
fn out_of_range_channel_is_a_no_op() {
    let buffer = PixelBuffer::new_filled(1, 1, Rgba { r: 10, g: 200, b: 30, a: 128 }).unwrap();
    let mut stack = OperationStack::new();
    assert!(stack.push(OpItem { operation: Operation::SoloChannel { channel: 7 }, active: true }));
    let out = stack.apply_all(&buffer);
    assert_eq!(out.get_pixel(0, 0), Rgba { r: 10, g: 200, b: 30, a: 128 });
}

#[test]
fn unpremultiply_rescales_by_alpha() {
    let buffer = PixelBuffer::new_filled(1, 1, Rgba { r: 64, g: 128, b: 0, a: 128 }).unwrap();
    let mut stack = OperationStack::new();
    assert!(stack.push(OpItem { operation: Operation::Unpremultiply, active: true }));
    let out = stack.apply_all(&buffer);
    // 64 * 255 / 128 = 127, 128 * 255 / 128 = 255; alpha is kept.
    assert_eq!(out.get_pixel(0, 0), Rgba { r: 127, g: 255, b: 0, a: 128 });
}

#[test]
fn ensure_measure_adds_exactly_once() {
    let mut stack = OperationStack::new();
    assert!(stack.ensure_measure());
    assert_eq!(stack.len(), 1);
    assert!(!stack.ensure_measure());
    assert_eq!(stack.len(), 1);
}

fn measure_shape(stack: &OperationStack) -> Shape {
    match &stack.get(0).operation {
        Operation::Measure { shapes } => shapes[0],
        _ => panic!("expected a measurement entry"),
    }
}

#[test]
fn gesture_writes_shape_points() {
    let mut stack = OperationStack::new();
    assert!(stack.ensure_measure());
    stack.gesture_begin(PixelPoint { x: 3, y: 4 });
    let sh = measure_shape(&stack);
    assert_eq!(sh.p0, PixelPoint { x: 3, y: 4 });
    assert_eq!(sh.p1, PixelPoint { x: 3, y: 4 });
    stack.gesture_extend(PixelPoint { x: 7, y: 8 });
    let sh = measure_shape(&stack);
    assert_eq!(sh.p0, PixelPoint { x: 3, y: 4 });
    assert_eq!(sh.p1, PixelPoint { x: 7, y: 8 });
    stack.gesture_finalize(PixelPoint { x: 9, y: 2 });
    let sh = measure_shape(&stack);
    assert_eq!(sh.p0, PixelPoint { x: 3, y: 4 });
    assert_eq!(sh.p1, PixelPoint { x: 9, y: 2 });
}

#[test]
fn gesture_skips_inactive_measurements() {
    let mut stack = OperationStack::new();
    let mut item = measure_item();
    item.active = false;
    assert!(stack.push(item));
    stack.gesture_begin(PixelPoint { x: 5, y: 5 });
    let sh = measure_shape(&stack);
    assert_eq!(sh.p0, PixelPoint { x: 0, y: 0 });
    assert_eq!(sh.p1, PixelPoint { x: 0, y: 0 });
}
