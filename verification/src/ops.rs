//! The ordered pixel-operation stack: an ordered sequence of operations
//! applied on top of the currently displayed buffer.
//!
//! The stack supports insertion with a singleton rule (at most one active
//! instance of certain operation kinds), application of every active
//! operation in stack order, and live mutation of measurement geometry from
//! the three-phase pointer gesture (press / drag / release).  Pointer
//! positions reach this module already converted to image space.

use vstd::prelude::*;

use crate::buffer::PixelBuffer;
use crate::buffer::PixelBufferV;
use crate::buffer::solo_channel_spec;
use crate::buffer::unpremultiply_spec;

verus! {

/// An image-space point, in integer pixels.
#[derive(Clone, Copy, PartialEq, Eq, Structural, Debug)]
pub struct PixelPoint {
    pub x: u32,
    pub y: u32,
}

/// A measurement shape: a pair of image-space points.
#[derive(Clone, Copy, PartialEq, Eq, Structural, Debug)]
pub struct Shape {
    pub p0: PixelPoint,
    pub p1: PixelPoint,
}

/// The kind of an operation, used by the singleton rule.
#[derive(Clone, Copy, PartialEq, Eq, Structural, Debug)]
pub enum OpKind {
    Measure,
    SoloChannel,
    Unpremultiply,
}

/// A pixel-space operation.  `Measure` carries annotation geometry and does
/// not change the buffer; the other variants are the channel/color
/// transforms of the buffer module.
pub enum Operation {
    Measure { shapes: Vec<Shape> },
    SoloChannel { channel: u8 },
    Unpremultiply,
}

/// Mathematical model of an `Operation`.
pub enum OperationV {
    Measure { shapes: Seq<Shape> },
    SoloChannel { channel: u8 },
    Unpremultiply,
}

impl View for Operation {
    type V = OperationV;

    open spec fn view(&self) -> OperationV {
        match self {
            Operation::Measure { shapes } => OperationV::Measure { shapes: shapes@ },
            Operation::SoloChannel { channel } => OperationV::SoloChannel { channel: *channel },
            Operation::Unpremultiply => OperationV::Unpremultiply,
        }
    }
}

impl OperationV {
    pub open spec fn kind(self) -> OpKind {
        match self {
            OperationV::Measure { .. } => OpKind::Measure,
            OperationV::SoloChannel { .. } => OpKind::SoloChannel,
            OperationV::Unpremultiply => OpKind::Unpremultiply,
        }
    }
}

impl Operation {
    pub fn kind(&self) -> (k: OpKind)
        ensures
            k == self@.kind(),
    {
        match self {
            Operation::Measure { .. } => OpKind::Measure,
            Operation::SoloChannel { .. } => OpKind::SoloChannel,
            Operation::Unpremultiply => OpKind::Unpremultiply,
        }
    }
}

/// Kinds of which the stack keeps at most one active instance.
pub open spec fn is_singleton_kind(k: OpKind) -> bool {
    k is Measure
}

pub fn singleton_kind(k: OpKind) -> (r: bool)
    ensures
        r == is_singleton_kind(k),
{
    matches!(k, OpKind::Measure)
}

/// One stack entry: an operation and whether it currently applies.
pub struct OpItem {
    pub operation: Operation,
    pub active: bool,
}

/// Mathematical model of an `OpItem`.
pub struct OpItemV {
    pub operation: OperationV,
    pub active: bool,
}

impl View for OpItem {
    type V = OpItemV;

    open spec fn view(&self) -> OpItemV {
        OpItemV { operation: self.operation@, active: self.active }
    }
}

/// An active item of the given kind exists in the stack.
pub open spec fn has_active_of_kind(items: Seq<OpItemV>, k: OpKind) -> bool {
    exists|i: int| 0 <= i < items.len() && items[i].active && items[i].operation.kind() == k
}

/// An item of the given kind exists in the stack, active or not.
pub open spec fn has_kind(items: Seq<OpItemV>, k: OpKind) -> bool {
    exists|i: int| 0 <= i < items.len() && items[i].operation.kind() == k
}

/// What one operation does to a buffer.  An out-of-range channel index is a
/// no-op for that application, not an error.
pub open spec fn apply_op(op: OperationV, b: PixelBufferV) -> PixelBufferV {
    match op {
        OperationV::Measure { .. } => b,
        OperationV::SoloChannel { channel } => if channel < 4 {
            solo_channel_spec(b, channel as int)
        } else {
            b
        },
        OperationV::Unpremultiply => unpremultiply_spec(b),
    }
}

/// What one stack entry does: inactive entries do nothing.
pub open spec fn apply_item(it: OpItemV, b: PixelBufferV) -> PixelBufferV {
    if it.active {
        apply_op(it.operation, b)
    } else {
        b
    }
}

/// The derived buffer after applying every entry in stack order: the entry
/// at index 0 is applied first.  Order is user-visible and user-controlled;
/// there is no reordering.
pub open spec fn apply_all_spec(items: Seq<OpItemV>, b: PixelBufferV) -> PixelBufferV
    decreases items.len(),
{
    if items.len() == 0 {
        b
    } else {
        apply_item(items.last(), apply_all_spec(items.drop_last(), b))
    }
}

/// Applying a stack keeps the buffer well-formed and its dimensions.
pub proof fn lemma_apply_all_wf(items: Seq<OpItemV>, b: PixelBufferV)
    requires
        b.wf(),
    ensures
        apply_all_spec(items, b).wf(),
        apply_all_spec(items, b).width == b.width,
        apply_all_spec(items, b).height == b.height,
    decreases items.len(),
{
    if items.len() > 0 {
        lemma_apply_all_wf(items.drop_last(), b);
    }
}

/// One shape after a gesture write: the press phase begins a fresh shape at
/// the cursor; the drag and release phases move its end point.
pub open spec fn shape_written(sh: Shape, p: PixelPoint, begin: bool) -> Shape {
    if begin {
        Shape { p0: p, p1: p }
    } else {
        Shape { p0: sh.p0, p1: p }
    }
}

/// One stack entry after a gesture write: only active measurement entries
/// accept geometric input; everything else is untouched.
pub open spec fn item_written(it: OpItemV, p: PixelPoint, begin: bool) -> OpItemV {
    if it.active {
        match it.operation {
            OperationV::Measure { shapes } => OpItemV {
                operation: OperationV::Measure {
                    shapes: shapes.map_values(|sh: Shape| shape_written(sh, p, begin)),
                },
                active: it.active,
            },
            _ => it,
        }
    } else {
        it
    }
}

/// The whole stack after a gesture write.
pub open spec fn items_written(items: Seq<OpItemV>, p: PixelPoint, begin: bool) -> Seq<OpItemV> {
    items.map_values(|it: OpItemV| item_written(it, p, begin))
}

/// The entry `ensure_measure` adds when no measurement entry exists: one
/// active measurement with a single degenerate shape at the origin.
pub open spec fn default_measure_item() -> OpItemV {
    OpItemV {
        operation: OperationV::Measure { shapes: seq![Shape { p0: PixelPoint { x: 0, y: 0 }, p1: PixelPoint { x: 0, y: 0 } }] },
        active: true,
    }
}

/// The ordered operation stack.  Owned by the viewer session; only the
/// presentation thread touches it.
pub struct OperationStack {
    items: Vec<OpItem>,
}

impl View for OperationStack {
    type V = Seq<OpItemV>;

    closed spec fn view(&self) -> Seq<OpItemV> {
        self.items@.map_values(|it: OpItem| it@)
    }
}

impl OperationStack {
    pub fn new() -> (r: Self)
        ensures
            r@ == Seq::<OpItemV>::empty(),
    {
        let r = OperationStack { items: Vec::new() };
        proof {
            assert(r@ =~= Seq::<OpItemV>::empty());
        }
        r
    }

    pub fn len(&self) -> (r: usize)
        ensures
            r == self@.len(),
    {
        self.items.len()
    }

    pub fn get(&self, i: usize) -> (r: &OpItem)
        requires
            i < self@.len(),
        ensures
            r@ == self@[i as int],
    {
        &self.items[i]
    }

    /// Appends an operation entry.  If the entry's kind is a singleton kind
    /// and an active instance of that kind already exists, the push is
    /// rejected and the stack - in particular its length - is unchanged; the
    /// caller must mutate the existing instance instead.
    pub fn push(&mut self, item: OpItem) -> (accepted: bool)
        ensures
            accepted == !(is_singleton_kind(item@.operation.kind()) && has_active_of_kind(
                old(self)@,
                item@.operation.kind(),
            )),
            accepted ==> final(self)@ == old(self)@.push(item@),
            !accepted ==> final(self)@ == old(self)@ && final(self)@.len() == old(self)@.len(),
    {
        let k = item.operation.kind();
        if singleton_kind(k) {
            let n = self.items.len();
            let mut i: usize = 0;
            while i < n
                invariant
                    self@ == old(self)@,
                    k == item@.operation.kind(),
                    is_singleton_kind(k),
                    n == self@.len(),
                    n == self.items@.len(),
                    i <= n,
                    self@ == self.items@.map_values(|it: OpItem| it@),
                    forall|j: int|
                        0 <= j < i ==> !(self@[j].active && self@[j].operation.kind() == k),
                decreases n - i,
            {
                if self.items[i].active && self.items[i].operation.kind() == k {
                    proof {
                        assert(0 <= i < self@.len() && self@[i as int].active && self@[
                            i as int
                        ].operation.kind() == k);
                    }
                    return false;
                }
                i = i + 1;
            }
        }
        self.items.push(item);
        proof {
            assert(self@ =~= old(self)@.push(item@));
        }
        true
    }

    /// Adds the default measurement entry when the stack holds no
    /// measurement entry at all; otherwise leaves the stack unchanged.
    pub fn ensure_measure(&mut self) -> (added: bool)
        ensures
            added == !has_kind(old(self)@, OpKind::Measure),
            added ==> final(self)@ == old(self)@.push(default_measure_item()),
            !added ==> final(self)@ == old(self)@,
    {
        let n = self.items.len();
        let mut i: usize = 0;
        while i < n
            invariant
                self@ == old(self)@,
                n == self@.len(),
                n == self.items@.len(),
                i <= n,
                self@ == self.items@.map_values(|it: OpItem| it@),
                forall|j: int| 0 <= j < i ==> self@[j].operation.kind() != OpKind::Measure,
            decreases n - i,
        {
            if matches!(self.items[i].operation, Operation::Measure { .. }) {
                proof {
                    assert(self@[i as int].operation.kind() == OpKind::Measure);
                }
                return false;
            }
            i = i + 1;
        }
        let shapes = vec![Shape { p0: PixelPoint { x: 0, y: 0 }, p1: PixelPoint { x: 0, y: 0 } }];
        let item = OpItem { operation: Operation::Measure { shapes }, active: true };
        proof {
            assert(item@.operation is Measure);
            assert(item@ == default_measure_item()) by {
                assert(item@.operation.arrow_Measure_shapes() =~= default_measure_item().operation.arrow_Measure_shapes());
            }
        }
        self.items.push(item);
        proof {
            assert(self@ =~= old(self)@.push(default_measure_item()));
        }
        true
    }

    /// Applies every active entry in stack order to a copy of `buffer`.
    pub fn apply_all(&self, buffer: &PixelBuffer) -> (r: PixelBuffer)
        requires
            buffer.wf(),
        ensures
            r@ == apply_all_spec(self@, buffer@),
            r.wf(),
    {
        let mut acc = buffer.duplicate();
        let n = self.items.len();
        let mut i: usize = 0;
        proof {
            assert(self@.subrange(0, 0) =~= Seq::<OpItemV>::empty());
        }
        while i < n
            invariant
                buffer.wf(),
                n == self@.len(),
                n == self.items@.len(),
                i <= n,
                self@ == self.items@.map_values(|it: OpItem| it@),
                acc@ == apply_all_spec(self@.subrange(0, i as int), buffer@),
                acc.wf(),
            decreases n - i,
        {
            let it = &self.items[i];
            if it.active {
                match &it.operation {
                    Operation::Measure { .. } => {},
                    Operation::SoloChannel { channel } => {
                        if *channel < 4 {
                            acc = acc.solo_channel(*channel);
                        }
                    },
                    Operation::Unpremultiply => {
                        acc = acc.unpremultiply();
                    },
                }
            }
            proof {
                let pre = self@.subrange(0, i as int);
                let post = self@.subrange(0, i as int + 1);
                assert(post.drop_last() =~= pre);
                assert(post.last() == self@[i as int]);
            }
            i = i + 1;
        }
        proof {
            assert(self@.subrange(0, n as int) =~= self@);
        }
        acc
    }

    /// Press phase of the pointer gesture: begins a fresh shape at `p` on
    /// every active measurement entry.
    pub fn gesture_begin(&mut self, p: PixelPoint)
        ensures
            final(self)@ == items_written(old(self)@, p, true),
    {
        self.write_points(p, true);
    }

    /// Drag phase of the pointer gesture: extends the shape's end point to
    /// `p` on every active measurement entry.
    pub fn gesture_extend(&mut self, p: PixelPoint)
        ensures
            final(self)@ == items_written(old(self)@, p, false),
    {
        self.write_points(p, false);
    }

    /// Release phase of the pointer gesture: finalizes the shape's end point
    /// at `p`; the written geometry is the same as a drag to `p`.
    pub fn gesture_finalize(&mut self, p: PixelPoint)
        ensures
            final(self)@ == items_written(old(self)@, p, false),
    {
        self.write_points(p, false);
    }

    fn write_points(&mut self, p: PixelPoint, begin: bool)
        ensures
            final(self)@ == items_written(old(self)@, p, begin),
    {
        let n = self.items.len();
        let mut out: Vec<OpItem> = Vec::new();
        let mut i: usize = 0;
        while i < n
            invariant
                n == self.items@.len(),
                i <= n,
                self@ == self.items@.map_values(|it: OpItem| it@),
                out@.len() == i,
                forall|j: int|
                    0 <= j < i ==> (#[trigger] out@[j])@ == item_written(self@[j], p, begin),
            decreases n - i,
        {
            let src = &self.items[i];
            let rebuilt: OpItem = if src.active {
                match &src.operation {
                    Operation::Measure { shapes } => {
                        let m = shapes.len();
                        let mut ns: Vec<Shape> = Vec::new();
                        let mut j: usize = 0;
                        while j < m
                            invariant
                                m == shapes@.len(),
                                j <= m,
                                ns@.len() == j,
                                forall|l: int|
                                    0 <= l < j ==> ns@[l] == shape_written(shapes@[l], p, begin),
                            decreases m - j,
                        {
                            let sh = shapes[j];
                            let w = if begin {
                                Shape { p0: p, p1: p }
                            } else {
                                Shape { p0: sh.p0, p1: p }
                            };
                            ns.push(w);
                            j = j + 1;
                        }
                        proof {
                            assert(ns@ =~= shapes@.map_values(
                                |sh: Shape| shape_written(sh, p, begin),
                            ));
                        }
                        OpItem { operation: Operation::Measure { shapes: ns }, active: true }
                    },
                    Operation::SoloChannel { channel } => OpItem {
                        operation: Operation::SoloChannel { channel: *channel },
                        active: true,
                    },
                    Operation::Unpremultiply => OpItem {
                        operation: Operation::Unpremultiply,
                        active: true,
                    },
                }
            } else {
                match &src.operation {
                    Operation::Measure { shapes } => {
                        let m = shapes.len();
                        let mut ns: Vec<Shape> = Vec::new();
                        let mut j: usize = 0;
                        while j < m
                            invariant
                                m == shapes@.len(),
                                j <= m,
                                ns@.len() == j,
                                forall|l: int| 0 <= l < j ==> ns@[l] == shapes@[l],
                            decreases m - j,
                        {
                            let sh = shapes[j];
                            ns.push(sh);
                            j = j + 1;
                        }
                        proof {
                            assert(ns@ =~= shapes@);
                        }
                        OpItem { operation: Operation::Measure { shapes: ns }, active: false }
                    },
                    Operation::SoloChannel { channel } => OpItem {
                        operation: Operation::SoloChannel { channel: *channel },
                        active: false,
                    },
                    Operation::Unpremultiply => OpItem {
                        operation: Operation::Unpremultiply,
                        active: false,
                    },
                }
            };
            proof {
                assert(rebuilt@ == item_written(self@[i as int], p, begin));
            }
            out.push(rebuilt);
            i = i + 1;
        }
        self.items = out;
        proof {
            assert(self@ =~= items_written(old(self)@, p, begin));
        }
    }
}

} // verus!
