use vstd::prelude::*;

verus! {

/// Size of an image along its three axes, in pixels.
#[derive(Clone, Copy, Debug, PartialEq, Eq, Structural)]
pub struct Extent {
    pub width: u32,
    pub height: u32,
    pub depth: u32,
}

/// Dimensionality and size of an image.
#[derive(Clone, Copy, Debug, PartialEq, Eq, Structural)]
pub enum Kind {
    /// A row of texels: width and number of array layers.
    D1(u32, u16),
    /// A plane of texels: width, height, array layers and sample count.
    D2(u32, u32, u16, u8),
    /// A volume of texels: width, height and depth.
    D3(u32, u32, u32),
}

/// The kind of view that samples an image.
#[derive(Clone, Copy, Debug, PartialEq, Eq, Structural)]
pub enum ViewKind {
    D1,
    D2,
    D3,
}

impl Kind {
    /// The extent of the image: axes a kind does not have count as 1.
    pub open spec fn extent_spec(self) -> Extent {
        match self {
            Kind::D1(w, _) => Extent { width: w, height: 1, depth: 1 },
            Kind::D2(w, h, _, _) => Extent { width: w, height: h, depth: 1 },
            Kind::D3(w, h, d) => Extent { width: w, height: h, depth: d },
        }
    }

    /// The view kind that matches the image's dimensionality.
    pub open spec fn view_kind_spec(self) -> ViewKind {
        match self {
            Kind::D1(..) => ViewKind::D1,
            Kind::D2(..) => ViewKind::D2,
            Kind::D3(..) => ViewKind::D3,
        }
    }

    pub fn extent(&self) -> (r: Extent)
        ensures
            r == self.extent_spec(),
    {
        match *self {
            Kind::D1(w, _) => Extent { width: w, height: 1, depth: 1 },
            Kind::D2(w, h, _, _) => Extent { width: w, height: h, depth: 1 },
            Kind::D3(w, h, d) => Extent { width: w, height: h, depth: d },
        }
    }

    pub fn view_kind(&self) -> (r: ViewKind)
        ensures
            r == self.view_kind_spec(),
    {
        match *self {
            Kind::D1(..) => ViewKind::D1,
            Kind::D2(..) => ViewKind::D2,
            Kind::D3(..) => ViewKind::D3,
        }
    }
}

} // verus!
