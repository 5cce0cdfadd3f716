use vstd::prelude::*;

use crate::protocol::{flush_model, flush_ops, init_model, init_ops};
use crate::session::{lemma_all_succeed, Session, SessionModel};

verus! {

/// Width of the panel in pixels.
pub const WIDTH: u32 = 250;

/// Height of the panel in pixels.
pub const HEIGHT: u32 = 122;

/// Number of cells in the framebuffer, one byte per pixel.
pub const BUFFER_LEN: usize = 30500;

/// One pixel-set request: a signed coordinate and an on/off color.
#[derive(Clone, Copy, Debug, PartialEq, Eq)]
pub struct Pixel {
    pub x: i32,
    pub y: i32,
    pub on: bool,
}

/// Whether `(x, y)` lies on the panel.
pub open spec fn in_bounds(x: int, y: int) -> bool {
    0 <= x < WIDTH as int && 0 <= y < HEIGHT as int
}

/// The framebuffer cell of a coordinate: `x + y * HEIGHT`.
///
/// The row stride is the panel's height, not its width. This is the layout
/// the flush payload has always had, but it is a suspected defect: distinct
/// coordinates can share a cell (`(122, 0)` and `(0, 1)`), and only the first
/// 15012 cells are ever written. It is kept until the controller's RAM
/// addressing settles which stride is right.
pub open spec fn index_of(x: int, y: int) -> int {
    x + y * HEIGHT as int
}

/// The byte stored for a color.
pub open spec fn color_byte(on: bool) -> u8 {
    if on { 1 } else { 0 }
}

/// The framebuffer after one pixel-set request: an in-bounds pixel
/// overwrites its cell, any other is dropped.
pub open spec fn paint(cells: Seq<u8>, p: Pixel) -> Seq<u8> {
    if in_bounds(p.x as int, p.y as int) {
        cells.update(index_of(p.x as int, p.y as int), color_byte(p.on))
    } else {
        cells
    }
}

/// The framebuffer after a sequence of pixel-set requests, in order.
pub open spec fn paint_all(cells: Seq<u8>, pixels: Seq<Pixel>) -> Seq<u8>
    decreases pixels.len(),
{
    if pixels.len() == 0 {
        cells
    } else {
        paint(paint_all(cells, pixels.drop_last()), pixels.last())
    }
}

/// A framebuffer of the panel's size that holds only 0 and 1.
pub open spec fn valid_cells(cells: Seq<u8>) -> bool {
    &&& cells.len() == BUFFER_LEN as int
    &&& forall|i: int| 0 <= i < cells.len() ==> #[trigger] cells[i] <= 1
}

/// Every in-bounds coordinate maps to a cell of the framebuffer.
pub proof fn lemma_index_in_buffer(x: int, y: int)
    requires
        in_bounds(x, y),
    ensures
        0 <= index_of(x, y) < BUFFER_LEN as int,
{
    assert(0 <= y * 122 <= 121 * 122) by (nonlinear_arith)
        requires
            0 <= y <= 121,
    ;
}

/// Maps a coordinate to its framebuffer cell, or `None` when it lies off the panel.
pub fn cell_index(x: i32, y: i32) -> (r: Option<usize>)
    ensures
        r is Some <==> in_bounds(x as int, y as int),
        r is Some ==> r->0 as int == index_of(x as int, y as int),
{
    if 0 <= x && x < WIDTH as i32 && 0 <= y && y < HEIGHT as i32 {
        proof {
            lemma_index_in_buffer(x as int, y as int);
        }
        Some(x as usize + y as usize * HEIGHT as usize)
    } else {
        None
    }
}

/// The panel's drawing surface: one byte per pixel, 0 for off and 1 for on.
pub struct GDEH0213B72 {
    framebuffer: Vec<u8>,
}

impl View for GDEH0213B72 {
    type V = Seq<u8>;

    closed spec fn view(&self) -> Seq<u8> {
        self.framebuffer@
    }
}

impl GDEH0213B72 {
    /// The framebuffer has the panel's size and holds only 0 and 1.
    pub open spec fn wf(&self) -> bool {
        valid_cells(self@)
    }

    /// A panel whose cells are all off.
    pub fn new() -> (r: Self)
        ensures
            r.wf(),
            r@ == Seq::new(BUFFER_LEN as nat, |i: int| 0u8),
    {
        let framebuffer = vec![0u8; BUFFER_LEN];
        let r = GDEH0213B72 { framebuffer };
        assert(r@ =~= Seq::new(BUFFER_LEN as nat, |i: int| 0u8));
        r
    }

    /// The size of the drawing surface, as (width, height).
    pub fn size(&self) -> (r: (u32, u32))
        ensures
            r == (WIDTH, HEIGHT),
    {
        (WIDTH, HEIGHT)
    }

    /// The framebuffer's cells, in the order they are sent to the panel.
    pub fn framebuffer(&self) -> (r: &[u8])
        ensures
            r@ == self@,
    {
        self.framebuffer.as_slice()
    }

    /// Sets one pixel. A coordinate off the panel is silently dropped.
    pub fn set_pixel(&mut self, x: i32, y: i32, on: bool)
        requires
            old(self).wf(),
        ensures
            final(self).wf(),
            final(self)@ == paint(old(self)@, Pixel { x, y, on }),
    {
        match cell_index(x, y) {
            Some(i) => {
                proof {
                    lemma_index_in_buffer(x as int, y as int);
                }
                let b: u8 = if on { 1 } else { 0 };
                self.framebuffer.set(i, b);
            },
            None => {},
        }
    }

    /// Applies each pixel-set request in order; never fails.
    pub fn draw_iter(&mut self, pixels: &[Pixel])
        requires
            old(self).wf(),
        ensures
            final(self).wf(),
            final(self)@ == paint_all(old(self)@, pixels@),
    {
        let mut k: usize = 0;
        while k < pixels.len()
            invariant
                0 <= k <= pixels@.len(),
                self.wf(),
                self@ == paint_all(old(self)@, pixels@.take(k as int)),
            decreases pixels@.len() - k,
        {
            let p = pixels[k];
            self.set_pixel(p.x, p.y, p.on);
            assert(pixels@.take(k + 1).drop_last() =~= pixels@.take(k as int));
            k = k + 1;
        }
        assert(pixels@.take(k as int) =~= pixels@);
    }

    /// The run that configures the panel after power-on.
    pub fn init(&self) -> (r: Session)
        ensures
            r@ == SessionModel::fresh(init_model()),
    {
        Session::new(init_ops())
    }

    /// The run that sends the framebuffer to the panel and refreshes it.
    pub fn flush(&self) -> (r: Session)
        requires
            self.wf(),
        ensures
            r@ == SessionModel::fresh(flush_model(self@)),
    {
        Session::new(flush_ops(self.framebuffer.as_slice()))
    }
}

/// The color of the last in-bounds request among `pixels` that targets
/// cell `i`, if any.
pub open spec fn last_write(pixels: Seq<Pixel>, i: int) -> Option<bool>
    decreases pixels.len(),
{
    if pixels.len() == 0 {
        None
    } else {
        let p = pixels.last();
        if in_bounds(p.x as int, p.y as int) && index_of(p.x as int, p.y as int) == i {
            Some(p.on)
        } else {
            last_write(pixels.drop_last(), i)
        }
    }
}

/// Setting an in-bounds pixel stores its color in its cell and leaves every
/// other cell as it was.
pub proof fn lemma_set_then_read(cells: Seq<u8>, x: i32, y: i32, on: bool)
    requires
        valid_cells(cells),
        in_bounds(x as int, y as int),
    ensures
        valid_cells(paint(cells, Pixel { x, y, on })),
        paint(cells, Pixel { x, y, on })[index_of(x as int, y as int)] == color_byte(on),
        forall|j: int|
            0 <= j < cells.len() && j != index_of(x as int, y as int)
                ==> #[trigger] paint(cells, Pixel { x, y, on })[j] == cells[j],
{
    lemma_index_in_buffer(x as int, y as int);
}

/// Setting a pixel off the panel leaves the framebuffer unchanged.
pub proof fn lemma_off_panel_unchanged(cells: Seq<u8>, x: i32, y: i32, on: bool)
    requires
        !in_bounds(x as int, y as int),
    ensures
        paint(cells, Pixel { x, y, on }) == cells,
{
}

/// After any sequence of requests, each cell holds the color of the last
/// in-bounds request that targets it, or its former value if none does.
pub proof fn lemma_last_write_wins(cells: Seq<u8>, pixels: Seq<Pixel>, i: int)
    requires
        valid_cells(cells),
        0 <= i < cells.len(),
    ensures
        paint_all(cells, pixels).len() == cells.len(),
        paint_all(cells, pixels)[i] == match last_write(pixels, i) {
            Some(on) => color_byte(on),
            None => cells[i],
        },
    decreases pixels.len(),
{
    if pixels.len() > 0 {
        let p = pixels.last();
        lemma_last_write_wins(cells, pixels.drop_last(), i);
        if in_bounds(p.x as int, p.y as int) {
            lemma_index_in_buffer(p.x as int, p.y as int);
        }
    }
}

/// On a new panel, after any sequence of requests, each cell holds the
/// color of the last in-bounds request that targets it, or 0.
pub proof fn lemma_drawn_from_blank(pixels: Seq<Pixel>, i: int)
    requires
        0 <= i < BUFFER_LEN as int,
    ensures
        paint_all(Seq::new(BUFFER_LEN as nat, |k: int| 0u8), pixels)[i] == match last_write(pixels, i) {
            Some(on) => color_byte(on),
            None => 0u8,
        },
{
    let blank = Seq::new(BUFFER_LEN as nat, |k: int| 0u8);
    lemma_last_write_wins(blank, pixels, i);
}

/// On a transport where every operation succeeds, initialization performs
/// exactly the configuration sequence, in order, and succeeds.
pub proof fn lemma_init_on_working_transport(results: Seq<bool>)
    requires
        results.len() >= init_model().len(),
        forall|i: int| 0 <= i < results.len() ==> #[trigger] results[i],
    ensures
        SessionModel::fresh(init_model()).issued(results) == init_model(),
        SessionModel::fresh(init_model()).finish(results).outcome() == Some(Ok::<(), ()>(())),
{
    lemma_all_succeed(SessionModel::fresh(init_model()), results);
    assert(init_model().subrange(0, init_model().len() as int) =~= init_model());
}

/// On a transport where every operation succeeds, a flush performs exactly
/// the frame sequence for the current cells, in order, and succeeds.
pub proof fn lemma_flush_on_working_transport(cells: Seq<u8>, results: Seq<bool>)
    requires
        results.len() >= flush_model(cells).len(),
        forall|i: int| 0 <= i < results.len() ==> #[trigger] results[i],
    ensures
        SessionModel::fresh(flush_model(cells)).issued(results) == flush_model(cells),
        SessionModel::fresh(flush_model(cells)).finish(results).outcome() == Some(Ok::<(), ()>(())),
{
    lemma_all_succeed(SessionModel::fresh(flush_model(cells)), results);
    assert(flush_model(cells).subrange(0, flush_model(cells).len() as int) =~= flush_model(cells));
}

} // verus!
