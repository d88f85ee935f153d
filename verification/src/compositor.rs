//! The canvas compositor: an ordered list of drawing operations.
//!
//! A canvas has a fixed size and a current fill style. Each drawing call
//! appends one operation; later operations draw over earlier ones. A finished
//! canvas becomes a scene, which can be read and no longer changed.
//! Rectangles are taken as they are given: none is checked against the
//! canvas or the image when it is drawn.

use vstd::prelude::*;
use crate::color::{rgbu, Color};
use crate::geometry::{Rect, Vector};
use crate::pixels::PixelBuffer;

verus! {

/// One drawing operation.
#[derive(Clone, Copy, Debug, PartialEq, Eq, Structural)]
pub enum DrawOp {
    /// Fill `rect` with `color`.
    Fill { rect: Rect, color: Color },
    /// Draw the whole image into `dest`.
    Image { dest: Rect },
    /// Draw the part `source` of the image into `dest`.
    Subimage { source: Rect, dest: Rect },
}

/// A blit instruction: copy the part `source` of the image to `dest` on the
/// canvas.
#[derive(Clone, Copy, Debug, PartialEq, Eq, Structural)]
pub struct Blit {
    pub source: Rect,
    pub dest: Rect,
}

impl Blit {
    /// The blit from `source` to `dest`.
    pub fn new(source: Rect, dest: Rect) -> (b: Blit)
        ensures
            b == (Blit { source, dest }),
    {
        Blit { source, dest }
    }

    /// The drawing operation that carries out the blit.
    pub open spec fn op(self) -> DrawOp {
        DrawOp::Subimage { source: self.source, dest: self.dest }
    }
}

/// The drawing operations that carry out `blits`, one for each, in order.
pub open spec fn blit_ops(blits: Seq<Blit>) -> Seq<DrawOp> {
    Seq::new(blits.len(), |i: int| blits[i].op())
}

/// The blits among `ops`, in the order in which they were drawn.
pub open spec fn blits_of(ops: Seq<DrawOp>) -> Seq<Blit>
    decreases ops.len(),
{
    if ops.len() == 0 {
        Seq::empty()
    } else {
        let earlier = blits_of(ops.drop_last());
        match ops.last() {
            DrawOp::Subimage { source, dest } => earlier.push(Blit { source, dest }),
            _ => earlier,
        }
    }
}

/// The operations of the scene that `compose` builds: a fill of the whole
/// canvas with `background`, then the blits in their order.
pub open spec fn composed_ops(size: Vector, background: Color, blits: Seq<Blit>) -> Seq<DrawOp> {
    seq![
        DrawOp::Fill { rect: Rect { origin: Vector { x: 0, y: 0 }, size }, color: background },
    ] + blit_ops(blits)
}

/// Whether every part of the image that `ops` draws lies inside an image of
/// `width` by `height` pixels.
pub open spec fn sources_inside(ops: Seq<DrawOp>, width: int, height: int) -> bool {
    forall|i: int|
        0 <= i < ops.len() ==> (#[trigger] ops[i] matches DrawOp::Subimage { source, .. }
            ==> source.lies_within(width, height))
}

/// A canvas that is being drawn on.
pub struct Canvas {
    size: Vector,
    fill_style: Color,
    ops: Vec<DrawOp>,
}

/// A finished canvas: its size and its drawing operations, in order.
#[derive(Clone, Debug, PartialEq, Eq)]
pub struct Scene {
    size: Vector,
    ops: Vec<DrawOp>,
}

impl Canvas {
    /// The operations drawn so far, in order.
    pub closed spec fn view(&self) -> Seq<DrawOp> {
        self.ops@
    }

    /// The size that the canvas was made with.
    pub closed spec fn spec_size(&self) -> Vector {
        self.size
    }

    /// The color that the next fill uses.
    pub closed spec fn spec_fill_style(&self) -> Color {
        self.fill_style
    }

    /// An empty canvas of the given size, whose fill style is opaque black.
    pub fn new(size: Vector) -> (canvas: Canvas)
        ensures
            canvas@ == Seq::<DrawOp>::empty(),
            canvas.spec_size() == size,
            canvas.spec_fill_style() == (Color { r: 0, g: 0, b: 0, a: 255 }),
    {
        Canvas { size, fill_style: Color::black(), ops: Vec::new() }
    }

    /// The size that the canvas was made with.
    pub fn size(&self) -> (size: Vector)
        ensures
            size == self.spec_size(),
    {
        self.size
    }

    /// The color that the next fill uses.
    pub fn fill_style(&self) -> (color: Color)
        ensures
            color == self.spec_fill_style(),
    {
        self.fill_style
    }

    /// The number of operations drawn so far.
    pub fn len(&self) -> (n: usize)
        ensures
            n == self@.len(),
    {
        self.ops.len()
    }

    /// Sets the color that later fills use. Draws nothing.
    pub fn set_fill_style(&mut self, color: Color)
        ensures
            final(self).spec_fill_style() == color,
            final(self)@ == old(self)@,
            final(self).spec_size() == old(self).spec_size(),
    {
        self.fill_style = color;
    }

    /// Fills `rect` with the current fill style.
    pub fn fill_rect(&mut self, rect: Rect)
        ensures
            final(self)@ == old(self)@.push(
                DrawOp::Fill { rect, color: old(self).spec_fill_style() },
            ),
            final(self).spec_fill_style() == old(self).spec_fill_style(),
            final(self).spec_size() == old(self).spec_size(),
    {
        let color = self.fill_style;
        self.ops.push(DrawOp::Fill { rect, color });
    }

    /// Draws the whole image into `dest`.
    pub fn draw_image(&mut self, dest: Rect)
        ensures
            final(self)@ == old(self)@.push(DrawOp::Image { dest }),
            final(self).spec_fill_style() == old(self).spec_fill_style(),
            final(self).spec_size() == old(self).spec_size(),
    {
        self.ops.push(DrawOp::Image { dest });
    }

    /// Draws the part `source` of the image into `dest`.
    pub fn draw_subimage(&mut self, source: Rect, dest: Rect)
        ensures
            final(self)@ == old(self)@.push(DrawOp::Subimage { source, dest }),
            final(self).spec_fill_style() == old(self).spec_fill_style(),
            final(self).spec_size() == old(self).spec_size(),
    {
        self.ops.push(DrawOp::Subimage { source, dest });
    }

    /// Finishes the canvas: the scene holds its operations, in order.
    pub fn into_scene(self) -> (scene: Scene)
        ensures
            scene@ == self@,
            scene.spec_size() == self.spec_size(),
    {
        Scene { size: self.size, ops: self.ops }
    }
}

impl Scene {
    /// The operations of the scene, in the order in which they were drawn.
    pub closed spec fn view(&self) -> Seq<DrawOp> {
        self.ops@
    }

    /// The size of the canvas that the scene was drawn on.
    pub closed spec fn spec_size(&self) -> Vector {
        self.size
    }

    /// The size of the canvas that the scene was drawn on.
    pub fn size(&self) -> (size: Vector)
        ensures
            size == self.spec_size(),
    {
        self.size
    }

    /// The number of operations.
    pub fn len(&self) -> (n: usize)
        ensures
            n == self@.len(),
    {
        self.ops.len()
    }

    /// The operation at `index`, or `None` past the end.
    pub fn get(&self, index: usize) -> (op: Option<DrawOp>)
        ensures
            op == (if index < self@.len() {
                Some(self@[index as int])
            } else {
                None
            }),
    {
        if index < self.ops.len() {
            Some(self.ops[index])
        } else {
            None
        }
    }

    /// The operations, in the order in which they were drawn.
    pub fn ops(&self) -> (ops: &Vec<DrawOp>)
        ensures
            ops@ == self@,
    {
        &self.ops
    }

    /// The blits of the scene, in the order in which they were drawn.
    pub fn blits(&self) -> (blits: Vec<Blit>)
        ensures
            blits@ == blits_of(self@),
    {
        let mut blits: Vec<Blit> = Vec::new();
        let mut i: usize = 0;
        while i < self.ops.len()
            invariant
                i <= self.ops.len(),
                blits@ == blits_of(self.ops@.take(i as int)),
            decreases self.ops.len() - i,
        {
            proof {
                assert(self.ops@.take(i + 1).drop_last() =~= self.ops@.take(i as int));
            }
            match self.ops[i] {
                DrawOp::Subimage { source, dest } => {
                    blits.push(Blit { source, dest });
                },
                _ => {},
            }
            i = i + 1;
        }
        proof {
            assert(self.ops@.take(i as int) =~= self.ops@);
        }
        blits
    }

    /// Whether every part of the image that the scene draws lies inside
    /// `image`.
    pub fn sources_within(&self, image: &PixelBuffer) -> (inside: bool)
        ensures
            inside == sources_inside(
                self@,
                image.spec_width() as int,
                image.spec_height() as int,
            ),
    {
        let mut i: usize = 0;
        while i < self.ops.len()
            invariant
                i <= self.ops.len(),
                sources_inside(
                    self.ops@.take(i as int),
                    image.spec_width() as int,
                    image.spec_height() as int,
                ),
            decreases self.ops.len() - i,
        {
            match self.ops[i] {
                DrawOp::Subimage { source, dest: _ } => {
                    if !image.contains(&source) {
                        return false;
                    }
                },
                _ => {},
            }
            i = i + 1;
        }
        proof {
            assert(self.ops@.take(i as int) =~= self.ops@);
        }
        true
    }
}

/// Composes a scene on a fresh canvas of the given size: fills the whole
/// canvas with `background`, then draws the blits in their order.
pub fn compose(size: Vector, background: Color, blits: &Vec<Blit>) -> (scene: Scene)
    ensures
        scene@ == composed_ops(size, background, blits@),
        scene@.len() == blits@.len() + 1,
        scene.spec_size() == size,
        blits_of(scene@) == blits@,
{
    let mut canvas = Canvas::new(size);
    canvas.set_fill_style(background);
    canvas.fill_rect(Rect::from_size(size));
    let mut i: usize = 0;
    while i < blits.len()
        invariant
            i <= blits.len(),
            canvas.spec_size() == size,
            canvas@ == composed_ops(size, background, blits@.take(i as int)),
        decreases blits.len() - i,
    {
        let blit = blits[i];
        canvas.draw_subimage(blit.source, blit.dest);
        proof {
            assert(canvas@ =~= composed_ops(size, background, blits@.take(i + 1)));
        }
        i = i + 1;
    }
    proof {
        assert(blits@.take(i as int) =~= blits@);
        composed_scene_keeps_blits(size, background, blits@);
    }
    canvas.into_scene()
}

/// The rectangle at `(x, y)` that is `width` wide and `height` high.
pub open spec fn rect_at(x: i32, y: i32, width: i32, height: i32) -> Rect {
    Rect { origin: Vector { x, y }, size: Vector { x: width, y: height } }
}

/// The operations of the demonstration scene on a canvas of the given size:
/// a white background, five parts of the image, then the whole image.
pub open spec fn demo_ops(size: Vector) -> Seq<DrawOp> {
    seq![
        DrawOp::Fill {
            rect: Rect { origin: Vector { x: 0, y: 0 }, size },
            color: Color { r: 255, g: 255, b: 255, a: 255 },
        },
        DrawOp::Subimage { source: rect_at(0, 0, 100, 100), dest: rect_at(10, 300, 60, 80) },
        DrawOp::Subimage { source: rect_at(300, 300, 100, 100), dest: rect_at(10, 20, 70, 80) },
        DrawOp::Subimage { source: rect_at(300, 300, 150, 150), dest: rect_at(120, 20, 70, 80) },
        DrawOp::Subimage { source: rect_at(300, 400, 100, 100), dest: rect_at(10, 120, 70, 80) },
        DrawOp::Subimage { source: rect_at(300, 400, 150, 150), dest: rect_at(120, 120, 70, 80) },
        DrawOp::Image { dest: rect_at(300, 20, 70, 80) },
    ]
}

/// Decides `rect_at`.
fn rect(x: i32, y: i32, width: i32, height: i32) -> (r: Rect)
    ensures
        r == rect_at(x, y, width, height),
{
    Rect::new(Vector::new(x, y), Vector::new(width, height))
}

/// Draws the demonstration scene on a fresh canvas of the given size.
pub fn demo_scene(size: Vector) -> (scene: Scene)
    ensures
        scene@ == demo_ops(size),
        scene.spec_size() == size,
{
    let mut canvas = Canvas::new(size);
    canvas.set_fill_style(rgbu(255, 255, 255));
    canvas.fill_rect(Rect::from_size(size));
    canvas.draw_subimage(rect(0, 0, 100, 100), rect(10, 300, 60, 80));
    canvas.draw_subimage(rect(300, 300, 100, 100), rect(10, 20, 70, 80));
    canvas.draw_subimage(rect(300, 300, 150, 150), rect(120, 20, 70, 80));
    canvas.draw_subimage(rect(300, 400, 100, 100), rect(10, 120, 70, 80));
    canvas.draw_subimage(rect(300, 400, 150, 150), rect(120, 120, 70, 80));
    canvas.draw_image(rect(300, 20, 70, 80));
    proof {
        assert(canvas@ =~= demo_ops(size));
    }
    canvas.into_scene()
}

/// A scene composed from a list of blits holds one operation for the
/// background and one for each blit, and reading its blits back gives the
/// list again, in its order.
pub proof fn composed_scene_keeps_blits(size: Vector, background: Color, blits: Seq<Blit>)
    ensures
        composed_ops(size, background, blits).len() == blits.len() + 1,
        blits_of(composed_ops(size, background, blits)) == blits,
        forall|i: int|
            0 <= i < blits.len() ==> #[trigger] composed_ops(size, background, blits)[i + 1]
                == blits[i].op(),
    decreases blits.len(),
{
    let ops = composed_ops(size, background, blits);
    if blits.len() == 0 {
        assert(ops.drop_last() =~= Seq::<DrawOp>::empty());
        assert(blits_of(ops.drop_last()) =~= Seq::<Blit>::empty());
        assert(blits_of(ops) =~= blits);
    } else {
        composed_scene_keeps_blits(size, background, blits.drop_last());
        assert(ops.drop_last() =~= composed_ops(size, background, blits.drop_last()));
        assert(ops.last() == blits.last().op());
        assert(blits.drop_last().push(blits.last()) =~= blits);
    }
}

/// The parts of the image that a composed scene draws lie inside an image
/// exactly when the source of every blit does.
pub proof fn composed_sources_are_the_blits(
    size: Vector,
    background: Color,
    blits: Seq<Blit>,
    width: int,
    height: int,
)
    ensures
        sources_inside(composed_ops(size, background, blits), width, height) <==> (forall|i: int|
            0 <= i < blits.len() ==> (#[trigger] blits[i]).source.lies_within(width, height)),
{
    let ops = composed_ops(size, background, blits);
    if sources_inside(ops, width, height) {
        assert forall|i: int| 0 <= i < blits.len() implies (#[trigger] blits[i]).source.lies_within(
            width,
            height,
        ) by {
            assert(ops[i + 1] == blits[i].op());
        }
    }
    if forall|i: int|
        0 <= i < blits.len() ==> (#[trigger] blits[i]).source.lies_within(width, height) {
        assert forall|j: int| 0 <= j < ops.len() implies (#[trigger] ops[j] matches DrawOp::Subimage {
            source,
            ..
        } ==> source.lies_within(width, height)) by {
            if j > 0 {
                assert(ops[j] == blits[j - 1].op());
            }
        }
    }
}

/// Drawing one more blit on a canvas adds it after the blits drawn before
/// and changes none of them.
pub proof fn blit_appends_in_order(ops: Seq<DrawOp>, blit: Blit)
    ensures
        blits_of(ops.push(blit.op())) == blits_of(ops).push(blit),
{
    assert(ops.push(blit.op()).drop_last() =~= ops);
}

} // verus!
