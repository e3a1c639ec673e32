//! Addressing of the pads that make up a surface.

use vstd::prelude::*;

verus! {

/// A position on a surface, with the origin at the top left.
#[derive(Debug, Clone, Copy, PartialEq, Eq, Hash, PartialOrd, Ord, Structural)]
pub struct Pad {
    /// Column, counting from 0 at the left edge.
    pub x: u8,
    /// Row, counting from 0 at the top edge.
    pub y: u8,
}

/// Every pad of a `width` by `height` surface, in row-major order.
pub open spec fn row_major(width: u8, height: u8) -> Seq<Pad> {
    Seq::new(
        (width * height) as nat,
        |i: int| Pad { x: (i % (width as int)) as u8, y: (i / (width as int)) as u8 },
    )
}

impl Pad {
    /// Creates a pad at the given coordinates.
    pub fn new(x: u8, y: u8) -> (pad: Self)
        ensures
            pad == (Pad { x, y }),
    {
        Self { x, y }
    }

    /// Every pad of a `width` by `height` surface, in row-major order.
    pub fn all(width: u8, height: u8) -> (pads: Vec<Self>)
        ensures
            pads@ == row_major(width, height),
    {
        let mut pads: Vec<Pad> = Vec::new();
        let ghost w = width as int;
        let mut y: u8 = 0;
        while y < height
            invariant
                y <= height,
                w == width,
                pads.len() == y * w,
                forall|i: int| 0 <= i < pads.len() ==> #[trigger] pads@[i] == row_major(width, height)[i],
            decreases height - y,
        {
            let mut x: u8 = 0;
            while x < width
                invariant
                    x <= width,
                    y < height,
                    w == width,
                    pads.len() == y * w + x,
                    forall|i: int| 0 <= i < pads.len() ==> #[trigger] pads@[i] == row_major(width, height)[i],
                decreases width - x,
            {
                let ghost i = y * w + x;
                proof {
                    vstd::arithmetic::div_mod::lemma_fundamental_div_mod_converse(i, w, y as int, x as int);
                    assert(i < width * height) by (nonlinear_arith)
                        requires
                            i == y * w + x,
                            x < width,
                            y < height,
                            w == width,
                    ;
                }
                pads.push(Pad { x, y });
                x = x + 1;
            }
            proof {
                assert(pads.len() == (y + 1) * w) by (nonlinear_arith)
                    requires
                        pads.len() == y * w + w,
                ;
            }
            y = y + 1;
        }
        assert(pads.len() == width * height) by (nonlinear_arith)
            requires
                pads.len() == y * w,
                y == height,
                w == width,
        ;
        assert(pads@ =~= row_major(width, height));
        pads
    }
}

} // verus!
