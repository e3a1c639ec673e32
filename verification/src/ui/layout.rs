//! Which positions of a surface hold pads, round buttons or the logo.

use vstd::prelude::*;

use crate::pad::{row_major, Pad};
use crate::role::PadRole;
use crate::DeviceSpec;

verus! {

/// The whole state of a [`Layout`].
pub struct LayoutView {
    pub width: u8,
    pub height: u8,
    /// The role of every position, in row-major order.
    pub roles: Seq<PadRole>,
}

impl LayoutView {
    /// A role for every position.
    pub open spec fn wf(self) -> bool {
        self.roles.len() == self.width * self.height
    }

    /// The role of a position, absent outside the surface.
    pub open spec fn role(self, pad: Pad) -> PadRole {
        if pad.x < self.width && pad.y < self.height {
            self.roles[pad.y * self.width + pad.x]
        } else {
            PadRole::Absent
        }
    }
}

/// The layout a device has: its size, and the role of each of its positions.
pub open spec fn device_layout<S: DeviceSpec>() -> LayoutView {
    LayoutView {
        width: S::width(),
        height: S::height(),
        roles: row_major(S::width(), S::height()).map_values(|pad: Pad| S::role_of(pad)),
    }
}

/// Which positions of a surface hold pads, round buttons or the logo.
#[derive(Debug, Clone, PartialEq, Eq)]
pub struct Layout {
    width: u8,
    height: u8,
    roles: Vec<PadRole>,
}

impl View for Layout {
    type V = LayoutView;

    closed spec fn view(&self) -> LayoutView {
        LayoutView { width: self.width, height: self.height, roles: self.roles@ }
    }
}

/// The row-major position of a pad on a surface of the given width.
pub proof fn lemma_row_major_position(width: u8, height: u8, pad: Pad)
    requires
        pad.x < width,
        pad.y < height,
    ensures
        0 <= pad.y * width + pad.x < width * height,
        width * height <= 255 * 255,
        row_major(width, height)[pad.y * width + pad.x] == pad,
{
    let (x, y, w, h) = (pad.x as int, pad.y as int, width as int, height as int);
    assert(0 <= y * w + x < w * h) by (nonlinear_arith)
        requires
            0 <= x < w,
            0 <= y < h,
    ;
    assert(w * h <= 255 * 255) by (nonlinear_arith)
        requires
            0 <= w <= 255,
            0 <= h <= 255,
    ;
    vstd::arithmetic::div_mod::lemma_fundamental_div_mod_converse(y * w + x, w, y, x);
}

impl Layout {
    /// Builds the layout of a device.
    pub fn for_device<S: DeviceSpec>() -> (layout: Self)
        ensures
            layout@ == device_layout::<S>(),
            layout@.wf(),
    {
        proof {
            S::lemma_size();
        }
        let pads = Pad::all(S::WIDTH, S::HEIGHT);
        let mut roles: Vec<PadRole> = Vec::new();
        let mut i: usize = 0;
        while i < pads.len()
            invariant
                i <= pads.len(),
                pads@ == row_major(S::WIDTH, S::HEIGHT),
                roles.len() == i,
                forall|j: int| 0 <= j < i ==> #[trigger] roles@[j] == S::role_of(pads@[j]),
            decreases pads.len() - i,
        {
            roles.push(S::role(pads[i]));
            i += 1;
        }
        let layout = Self { width: S::WIDTH, height: S::HEIGHT, roles };
        assert(layout@.roles =~= device_layout::<S>().roles);
        layout
    }

    /// Surface width in pads.
    pub fn width(&self) -> (width: u8)
        ensures
            width == self@.width,
    {
        self.width
    }

    /// Surface height in pads.
    pub fn height(&self) -> (height: u8)
        ensures
            height == self@.height,
    {
        self.height
    }

    /// The role of a position, [`PadRole::Absent`] outside the surface.
    pub fn role(&self, pad: Pad) -> (role: PadRole)
        requires
            self@.wf(),
        ensures
            role == self@.role(pad),
    {
        if pad.x >= self.width || pad.y >= self.height {
            return PadRole::Absent;
        }
        proof {
            lemma_row_major_position(self.width, self.height, pad);
        }
        let index = pad.y as usize * self.width as usize + pad.x as usize;
        self.roles[index]
    }

    /// Every position of the layout, in row-major order.
    pub fn pads(&self) -> (pads: Vec<Pad>)
        ensures
            pads@ == row_major(self@.width, self@.height),
    {
        Pad::all(self.width, self.height)
    }
}

/// A device's layout gives every position the role the device says it has.
pub proof fn lemma_layout_matches_device<S: DeviceSpec>(pad: Pad)
    requires
        pad.x < S::width(),
        pad.y < S::height(),
    ensures
        device_layout::<S>().role(pad) == S::role_of(pad),
{
    lemma_row_major_position(S::width(), S::height(), pad);
}

} // verus!
