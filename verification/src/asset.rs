//! What an entity or a widget looks like: the record handed to the renderer.

use vstd::prelude::*;
use crate::resource_location::{ResourceLocation, ResourceLocationView};

verus! {

/// A rectangle inside a source image, in pixels.
#[derive(Clone, Copy, Debug, PartialEq, Eq, Structural)]
pub struct Region {
    pub x: i32,
    pub y: i32,
    pub w: u32,
    pub h: u32,
}

/// An appearance: the part of the image to draw (`None` for the whole
/// image), the offset that centres it on its position, and the image.
#[derive(Debug)]
pub struct AssetData {
    pub uv: Option<Region>,
    pub origin: (i32, i32),
    pub resource_location: ResourceLocation,
}

/// An appearance as mathematical values.
pub struct AssetDataView {
    pub uv: Option<Region>,
    pub origin: (i32, i32),
    pub resource_location: ResourceLocationView,
}

/// The whole of an image that has no name yet, with no offset.
pub open spec fn blank() -> AssetDataView {
    AssetDataView {
        uv: None,
        origin: (0i32, 0i32),
        resource_location: ResourceLocationView {
            namespace: Seq::<char>::empty(),
            path: Seq::<char>::empty(),
        },
    }
}

/// The appearance that draws nothing: the whole of the image `empty.png`.
pub open spec fn invisible() -> AssetDataView {
    AssetDataView {
        uv: None,
        origin: (0i32, 0i32),
        resource_location: ResourceLocationView {
            namespace: "memory_game"@,
            path: "empty.png"@,
        },
    }
}

/// A region of the given image with the given origin.
pub open spec fn sprite(
    x: i32,
    y: i32,
    w: u32,
    h: u32,
    origin: (i32, i32),
    path: Seq<char>,
) -> AssetDataView {
    AssetDataView {
        uv: Some(Region { x, y, w, h }),
        origin,
        resource_location: ResourceLocationView { namespace: "memory_game"@, path },
    }
}

impl View for AssetData {
    type V = AssetDataView;

    open spec fn view(&self) -> AssetDataView {
        AssetDataView {
            uv: self.uv,
            origin: self.origin,
            resource_location: self.resource_location@,
        }
    }
}

impl AssetData {
    /// The whole of an image that has no name yet, with no offset.
    pub fn empty() -> (r: AssetData)
        ensures
            r@ == blank(),
    {
        AssetData { uv: None, origin: (0, 0), resource_location: ResourceLocation::empty() }
    }

    /// The appearance that draws nothing.
    pub fn invisible() -> (r: AssetData)
        ensures
            r@ == invisible(),
    {
        let mut r = AssetData::empty();
        r.resource_location = ResourceLocation::new("memory_game", "empty.png");
        r
    }

    /// The region `(x, y, w, h)` of the image `memory_game:path`.
    pub fn sprite(x: i32, y: i32, w: u32, h: u32, origin: (i32, i32), path: &str) -> (r: AssetData)
        ensures
            r@ == sprite(x, y, w, h, origin, path@),
    {
        AssetData {
            uv: Some(Region { x, y, w, h }),
            origin,
            resource_location: ResourceLocation::new("memory_game", path),
        }
    }
}

impl Clone for AssetData {
    fn clone(&self) -> (r: Self)
        ensures
            r@ == self@,
    {
        AssetData {
            uv: self.uv,
            origin: self.origin,
            resource_location: self.resource_location.clone(),
        }
    }
}

} // verus!
