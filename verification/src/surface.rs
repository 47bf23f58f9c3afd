//! What the renderer is set up with: the surface, the bindings and the plane textures.
use vstd::prelude::*;
use crate::image::Yuv420Image;

verus! {

/// How many frames the surface may queue up.
pub const MAXIMUM_FRAME_LATENCY: u32 = 2;

/// The vertices of the two triangles that cover the window.
pub const QUAD_VERTICES: u32 = 6;

/// The size of the surface in pixels. It is never empty.
#[derive(Debug, Clone, Copy, PartialEq, Eq)]
pub struct SurfaceSize {
    pub width: u32,
    pub height: u32,
}

/// The choices among what a surface offers, by position.
#[derive(Debug, Clone, Copy, PartialEq, Eq)]
pub struct SurfacePlan {
    pub format: usize,
    pub present_mode: usize,
    pub alpha_mode: usize,
    pub size: SurfaceSize,
}

/// The position of the first format from `from` on that is not sRGB.
pub open spec fn first_linear(srgb: Seq<bool>, from: int) -> Option<int>
    decreases srgb.len() - from,
{
    if from >= srgb.len() {
        None
    } else if !srgb[from] {
        Some(from)
    } else {
        first_linear(srgb, from + 1)
    }
}

/// One, where a side would have no pixels.
pub open spec fn at_least_one(side: u32) -> u32 {
    if side == 0 {
        1
    } else {
        side
    }
}

impl SurfaceSize {
    pub open spec fn wf(self) -> bool {
        self.width > 0 && self.height > 0
    }

    /// The surface after the window size has changed.
    pub open spec fn resized(self, width: u32, height: u32) -> Self {
        if width > 0 && height > 0 {
            SurfaceSize { width, height }
        } else {
            self
        }
    }

    /// A surface for a window of the given size.
    pub fn for_window(width: u32, height: u32) -> (size: Self)
        ensures
            size == (SurfaceSize { width: at_least_one(width), height: at_least_one(height) }),
            size.wf(),
    {
        SurfaceSize {
            width: if width == 0 {
                1
            } else {
                width
            },
            height: if height == 0 {
                1
            } else {
                height
            },
        }
    }

    /// Follows a change of the window size, unless the window has no pixels. Tells whether the
    /// surface has to be configured again.
    pub fn resize(&mut self, width: u32, height: u32) -> (changed: bool)
        ensures
            changed <==> width > 0 && height > 0,
            *final(self) == if width > 0 && height > 0 {
                SurfaceSize { width, height }
            } else {
                *old(self)
            },
            *final(self) == old(self).resized(width, height),
            old(self).wf() ==> final(self).wf(),
    {
        if width > 0 && height > 0 {
            self.width = width;
            self.height = height;
            true
        } else {
            false
        }
    }
}

/// Chooses a format that stores colours as they are, if one is offered, and otherwise the
/// first of what is offered. `srgb` tells of each format whether it is sRGB.
pub fn plan_surface(
    srgb: &Vec<bool>,
    present_modes: usize,
    alpha_modes: usize,
    width: u32,
    height: u32,
) -> (plan: SurfacePlan)
    requires
        srgb@.len() > 0,
        present_modes > 0,
        alpha_modes > 0,
    ensures
        plan.format == first_linear(srgb@, 0).unwrap_or(0),
        plan.format < srgb@.len(),
        plan.present_mode == 0,
        plan.alpha_mode == 0,
        plan.size == (SurfaceSize { width: at_least_one(width), height: at_least_one(height) }),
        plan.size.wf(),
{
    let mut format: usize = 0;
    while format < srgb.len() && srgb[format]
        invariant
            format <= srgb@.len(),
            first_linear(srgb@, 0) == first_linear(srgb@, format as int),
        decreases srgb@.len() - format,
    {
        format = format + 1;
    }
    SurfacePlan {
        format: if format < srgb.len() {
            format
        } else {
            0
        },
        present_mode: 0,
        alpha_mode: 0,
        size: SurfaceSize::for_window(width, height),
    }
}

/// No offered format before the one that `first_linear` gives is free of sRGB, and `None`
/// means that all of them are sRGB.
pub proof fn law_first_linear_is_first(srgb: Seq<bool>, from: int)
    requires
        0 <= from,
    ensures
        match first_linear(srgb, from) {
            Some(i) => from <= i < srgb.len() && !srgb[i] && forall|j: int|
                from <= j < i ==> #[trigger] srgb[j],
            None => forall|j: int| from <= j < srgb.len() ==> #[trigger] srgb[j],
        },
    decreases srgb.len() - from,
{
    if from < srgb.len() && srgb[from] {
        law_first_linear_is_first(srgb, from + 1);
    }
}

/// One of the planes of an image.
#[derive(Debug, Clone, Copy, PartialEq, Eq)]
pub enum Plane {
    Y,
    U,
    V,
}

/// What the fragment shader reads at a binding.
#[derive(Debug, Clone, Copy, PartialEq, Eq)]
pub enum BindingKind {
    /// The texture of a plane, filtered when it is sampled.
    PlaneTexture(Plane),
    FilteringSampler,
    /// The colour matrix, of at least so many bytes.
    ColorMatrix { min_size: u64 },
}

/// A binding of the fragment shader.
#[derive(Debug, Clone, Copy, PartialEq, Eq)]
pub struct Binding {
    pub binding: u32,
    pub kind: BindingKind,
}

/// The bindings of the fragment shader: the three planes, the sampler and the colour matrix
/// of `matrix_size` bytes.
pub fn binding_layout(matrix_size: u64) -> (layout: Vec<Binding>)
    ensures
        layout@ == seq![
            Binding { binding: 0, kind: BindingKind::PlaneTexture(Plane::Y) },
            Binding { binding: 1, kind: BindingKind::PlaneTexture(Plane::U) },
            Binding { binding: 2, kind: BindingKind::PlaneTexture(Plane::V) },
            Binding { binding: 3, kind: BindingKind::FilteringSampler },
            Binding { binding: 4, kind: BindingKind::ColorMatrix { min_size: matrix_size } },
        ],
{
    vec![
        Binding { binding: 0, kind: BindingKind::PlaneTexture(Plane::Y) },
        Binding { binding: 1, kind: BindingKind::PlaneTexture(Plane::U) },
        Binding { binding: 2, kind: BindingKind::PlaneTexture(Plane::V) },
        Binding { binding: 3, kind: BindingKind::FilteringSampler },
        Binding { binding: 4, kind: BindingKind::ColorMatrix { min_size: matrix_size } },
    ]
}

/// What is written to the texture of a plane.
pub struct PlaneUpload<'a> {
    pub data: &'a Vec<u8>,
    pub width: u32,
    pub height: u32,
    pub bytes_per_row: u32,
    pub rows_per_image: u32,
}

impl Plane {
    /// The name of the texture that holds the plane.
    pub fn label(&self) -> (label: &'static str)
        ensures
            label@ == match self {
                Plane::Y => "Y plane"@,
                Plane::U => "U plane"@,
                Plane::V => "V plane"@,
            },
    {
        match self {
            Plane::Y => "Y plane",
            Plane::U => "U plane",
            Plane::V => "V plane",
        }
    }
}

impl Yuv420Image {
    /// How a plane is written to its texture, of which it fills every row.
    pub fn upload(&self, plane: Plane) -> (upload: PlaneUpload<'_>)
        ensures
            upload.data@ == match plane {
                Plane::Y => self.y@,
                Plane::U => self.u@,
                Plane::V => self.v@,
            },
            upload.width == if plane is Y {
                self.width
            } else {
                self.chroma_width
            },
            upload.height == if plane is Y {
                self.height
            } else {
                self.chroma_height
            },
            upload.bytes_per_row == upload.width,
            upload.rows_per_image == upload.height,
            self.wf() ==> upload.data@.len() == upload.bytes_per_row * upload.rows_per_image,
    {
        let (data, width, height) = match plane {
            Plane::Y => (&self.y, self.width, self.height),
            Plane::U => (&self.u, self.chroma_width, self.chroma_height),
            Plane::V => (&self.v, self.chroma_width, self.chroma_height),
        };
        PlaneUpload { data, width, height, bytes_per_row: width, rows_per_image: height }
    }
}

/// What came of asking the surface for a texture to draw to.
#[derive(Debug, Clone, Copy, PartialEq, Eq)]
pub enum Acquired {
    Success,
    /// There is a texture, though it no longer matches the surface.
    Suboptimal,
    Unavailable,
}

impl Acquired {
    /// Whether there is a texture to draw to.
    pub fn can_draw(&self) -> (drawable: bool)
        ensures
            drawable <==> self !is Unavailable,
    {
        match self {
            Acquired::Success | Acquired::Suboptimal => true,
            Acquired::Unavailable => false,
        }
    }
}

/// A surface takes over the size of its window where that has pixels, and otherwise has one
/// pixel along the side that has none.
pub proof fn law_surface_has_pixels(side: u32)
    ensures
        at_least_one(side) >= 1,
        side >= 1 ==> at_least_one(side) == side,
        side == 0 ==> at_least_one(side) == 1,
{
}

/// A resize to a size with pixels gives exactly that size, a resize to one without changes
/// nothing, and a surface with pixels keeps having some. Only the last size with pixels counts.
pub proof fn law_resize_takes_over_size(
    size: SurfaceSize,
    width: u32,
    height: u32,
    next_width: u32,
    next_height: u32,
)
    ensures
        width > 0 && height > 0 ==> size.resized(width, height).width == width,
        width > 0 && height > 0 ==> size.resized(width, height).height == height,
        width == 0 || height == 0 ==> size.resized(width, height) == size,
        size.width > 0 && size.height > 0 ==> size.resized(width, height).width > 0
            && size.resized(width, height).height > 0,
        next_width > 0 && next_height > 0 ==> size.resized(width, height).resized(
            next_width,
            next_height,
        ) == size.resized(next_width, next_height),
{
}

/// The planned format is the first that is not sRGB, if one is offered, and else the very first.
/// The modes are the first offered, and the size is that of the window, with a pixel at least
/// along each side.
pub proof fn law_plan_takes_first_linear(
    srgb: Vec<bool>,
    present_modes: usize,
    alpha_modes: usize,
    width: u32,
    height: u32,
    plan: SurfacePlan,
    i: int,
)
    requires
        call_ensures(plan_surface, (&srgb, present_modes, alpha_modes, width, height), plan),
        0 <= i < srgb@.len(),
    ensures
        plan.format < srgb@.len(),
        !srgb@[i] ==> plan.format <= i && !srgb@[plan.format as int],
        srgb@[plan.format as int] ==> plan.format == 0,
        plan.present_mode == 0,
        plan.alpha_mode == 0,
        width > 0 ==> plan.size.width == width,
        height > 0 ==> plan.size.height == height,
        width == 0 ==> plan.size.width == 1,
        height == 0 ==> plan.size.height == 1,
{
    law_first_linear_is_first(srgb@, 0);
}

/// The bindings are numbered without gaps, and each plane, the sampler and the colour matrix
/// have one; that of the matrix is at least as large as the matrix.
pub proof fn law_bindings_cover_shader(matrix_size: u64, layout: Vec<Binding>)
    requires
        call_ensures(binding_layout, (matrix_size,), layout),
    ensures
        layout@.len() == 5,
        forall|i: int| 0 <= i < layout@.len() ==> (#[trigger] layout@[i]).binding == i,
        layout@[0].kind == BindingKind::PlaneTexture(Plane::Y),
        layout@[1].kind == BindingKind::PlaneTexture(Plane::U),
        layout@[2].kind == BindingKind::PlaneTexture(Plane::V),
        layout@[3].kind is FilteringSampler,
        layout@[4].kind == (BindingKind::ColorMatrix { min_size: matrix_size }),
{
}

/// The textures of an image receive its three planes, each in its own size and whole.
pub proof fn law_upload_is_whole_plane(image: Yuv420Image, plane: Plane, upload: PlaneUpload<'_>)
    requires
        call_ensures(Yuv420Image::upload, (&image, plane), upload),
        image.wf(),
    ensures
        upload.data@.len() == upload.width * upload.height,
        upload.bytes_per_row == upload.width,
        upload.rows_per_image == upload.height,
        plane is Y ==> upload.data@ == image.y@ && upload.width == image.width && upload.height
            == image.height,
        plane is U ==> upload.data@ == image.u@,
        plane is V ==> upload.data@ == image.v@,
        plane !is Y ==> image.width <= 2 * upload.width <= image.width + 1,
        plane !is Y ==> image.height <= 2 * upload.height <= image.height + 1,
{
}

} // verus!
