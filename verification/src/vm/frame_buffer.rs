//! Fixed-size pixel grid with XOR-toggle and collision reporting. Cells are
//! exposed to a renderer as opaque intensity values; only the binary on/off
//! latch matters for collision detection.

use vstd::prelude::*;

verus! {

/// The intensity value of a lit cell.
pub const ON: u32 = 0x9a8c98;

/// The intensity value of a dark cell.
pub const OFF: u32 = 0x22223b;

/// A width x height grid of binary-state cells. Its view is the flat sequence
/// of on/off states, row-major: the cell at `(x, y)` is entry `y * width + x`.
pub struct FrameBuffer {
    buffer: Vec<u32>,
    width: usize,
    height: usize,
}

impl View for FrameBuffer {
    type V = Seq<bool>;

    closed spec fn view(&self) -> Seq<bool> {
        Seq::new(self.buffer@.len(), |l: int| self.buffer@[l] == ON)
    }
}

impl FrameBuffer {
    pub closed spec fn spec_width(&self) -> usize {
        self.width
    }

    pub closed spec fn spec_height(&self) -> usize {
        self.height
    }

    /// Internal invariant: every raw cell holds exactly `ON` or `OFF`, so the
    /// on/off view is faithful.
    pub closed spec fn inv(&self) -> bool {
        forall|l: int|
            0 <= l < self.buffer@.len() ==> (self.buffer@[l] == ON || self.buffer@[l] == OFF)
    }

    pub open spec fn wf(&self) -> bool {
        self@.len() == self.spec_width() * self.spec_height() && self.inv()
    }

    /// Fresh buffer with every cell off.
    pub fn new(width: usize, height: usize) -> (r: FrameBuffer)
        requires
            width * height <= usize::MAX,
        ensures
            r.wf(),
            r.spec_width() == width,
            r.spec_height() == height,
            forall|l: int| 0 <= l < r@.len() ==> !r@[l],
    {
        FrameBuffer { buffer: vec![OFF; width * height], width, height }
    }

    /// Flip the cell at `(x, y)`. Reports true exactly when the flip turned an
    /// on cell off: a collision.
    pub fn toggle_pixel(&mut self, x: usize, y: usize) -> (collision: bool)
        requires
            old(self).wf(),
            x < old(self).spec_width(),
            y < old(self).spec_height(),
        ensures
            final(self).wf(),
            final(self).spec_width() == old(self).spec_width(),
            final(self).spec_height() == old(self).spec_height(),
            collision == old(self)@[y * old(self).spec_width() + x],
            final(self)@ == old(self)@.update(
                y * old(self).spec_width() + x,
                !old(self)@[y * old(self).spec_width() + x],
            ),
    {
        let cap = self.buffer.len();
        proof {
            assert(y * self.width + x < self.width * self.height) by (nonlinear_arith)
                requires
                    x < self.width,
                    y < self.height,
            ;
            assert(self.width * self.height == cap);
        }
        let l = y * self.width + x;
        let collision = self.buffer[l] == ON;
        if collision {
            self.buffer[l] = OFF;
        } else {
            self.buffer[l] = ON;
        }
        proof {
            assert(self@ =~= old(self)@.update(l as int, !old(self)@[l as int]));
        }
        collision
    }

    /// The raw cell values, for a renderer: `ON` where the view is on, `OFF`
    /// where it is off.
    pub fn buffer(&self) -> (r: &Vec<u32>)
        requires
            self.wf(),
        ensures
            r@.len() == self@.len(),
            forall|l: int| 0 <= l < r@.len() ==> r@[l] == (if self@[l] {
                ON
            } else {
                OFF
            }),
    {
        &self.buffer
    }

    /// Law: a toggle turns the cell over and reports its old state, so
    /// toggling an off cell turns it on without collision, toggling it again
    /// turns it off with collision, and two toggles restore the grid exactly.
    pub proof fn lemma_toggle_twice(fb: Seq<bool>, l: int)
        requires
            0 <= l < fb.len(),
        ensures
            fb.update(l, !fb[l])[l] == !fb[l],
            fb.update(l, !fb[l]).update(l, !(fb.update(l, !fb[l])[l])) == fb,
    {
        assert(fb.update(l, !fb[l]).update(l, !(fb.update(l, !fb[l])[l])) =~= fb);
    }

    /// Reset every cell to the off state.
    pub fn clear(&mut self)
        requires
            old(self).wf(),
        ensures
            final(self).wf(),
            final(self).spec_width() == old(self).spec_width(),
            final(self).spec_height() == old(self).spec_height(),
            final(self)@ == Seq::new(old(self)@.len(), (|l: int| false)),
    {
        let n = self.buffer.len();
        for l in 0..n
            invariant
                self.buffer@.len() == n,
                self.width == old(self).width,
                self.height == old(self).height,
                self.inv(),
                forall|j: int| 0 <= j < l ==> self.buffer@[j] == OFF,
        {
            self.buffer[l] = OFF;
        }
        proof {
            assert(self@ =~= Seq::new(old(self)@.len(), (|l: int| false)));
        }
    }
}

} // verus!
