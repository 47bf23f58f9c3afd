//! Decoded pictures and the tightly packed images made from them.
use vstd::prelude::*;
use vstd::slice::slice_subrange;

verus! {

/// One plane as the decoder leaves it: rows of pixels `stride` bytes apart.
#[derive(Debug, PartialEq, Eq)]
pub struct PlaneBuffer {
    pub data: Vec<u8>,
    pub stride: u32,
}

/// A decoded picture with one luma plane and two chroma planes.
#[derive(Debug, PartialEq, Eq)]
pub struct Picture {
    pub width: u32,
    pub height: u32,
    pub y: PlaneBuffer,
    pub u: PlaneBuffer,
    pub v: PlaneBuffer,
    /// The presentation time in ticks of the stream's time base, if the decoder knows it.
    pub timestamp: Option<i64>,
}

/// An 8-bit image with half-resolution chroma whose rows carry no padding.
#[derive(Debug, PartialEq, Eq)]
pub struct Yuv420Image {
    pub width: u32,
    pub height: u32,
    pub y: Vec<u8>,
    pub u: Vec<u8>,
    pub v: Vec<u8>,
    pub chroma_width: u32,
    pub chroma_height: u32,
}

/// What a [`Yuv420Image`] holds.
pub struct ImageModel {
    pub width: int,
    pub height: int,
    pub y: Seq<u8>,
    pub u: Seq<u8>,
    pub v: Seq<u8>,
    pub chroma_width: int,
    pub chroma_height: int,
}

/// The number of chroma samples along a side of `size` luma samples: half of it, rounded up.
pub open spec fn chroma_size(size: int) -> int {
    (size + 1) / 2
}

/// The pixel at a row and a column of a plane whose rows are `stride` bytes apart.
pub open spec fn pixel(source: Seq<u8>, stride: int, row: int, column: int) -> u8 {
    source[row * stride + column]
}

/// The rows of a plane, `width` bytes each, laid end to end without padding.
pub open spec fn packed(source: Seq<u8>, stride: int, width: int, height: int) -> Seq<u8> {
    Seq::new((width * height) as nat, |i: int| pixel(source, stride, i / width, i % width))
}

/// Each of the `height` rows of `width` bytes lies inside a source of `len` bytes.
pub open spec fn rows_fit(len: int, stride: int, width: int, height: int) -> bool {
    height > 0 ==> (height - 1) * stride + width <= len
}

impl PlaneBuffer {
    /// The plane holds `height` rows of `width` bytes.
    pub open spec fn holds(&self, width: int, height: int) -> bool {
        rows_fit(self.data@.len() as int, self.stride as int, width, height)
    }

    /// The pixels of a plane of the given size.
    pub open spec fn pixels(&self, width: int, height: int) -> Seq<u8> {
        packed(self.data@, self.stride as int, width, height)
    }

    fn has_rows(&self, width: u32, height: u32) -> (fits: bool)
        ensures
            fits == self.holds(width as int, height as int),
    {
        if height == 0 {
            return true;
        }
        assert(0 <= (height - 1) * self.stride <= 0xffff_fffe * 0xffff_ffff) by (nonlinear_arith)
            requires
                0 <= height - 1 <= 0xffff_fffe,
                0 <= self.stride <= 0xffff_ffff,
        ;
        (height - 1) as u64 * self.stride as u64 + width as u64 <= self.data.len() as u64
    }
}

impl Picture {
    /// The planes hold every pixel of a picture of this size, at half resolution for chroma,
    /// and the number of pixels can be counted in 32 bits.
    pub open spec fn complete(&self) -> bool {
        &&& self.width * self.height <= u32::MAX
        &&& self.y.holds(self.width as int, self.height as int)
        &&& self.u.holds(chroma_size(self.width as int), chroma_size(self.height as int))
        &&& self.v.holds(chroma_size(self.width as int), chroma_size(self.height as int))
    }

    /// The image that shows the pixels of this picture.
    pub open spec fn image(&self) -> ImageModel {
        let chroma_width = chroma_size(self.width as int);
        let chroma_height = chroma_size(self.height as int);
        ImageModel {
            width: self.width as int,
            height: self.height as int,
            y: self.y.pixels(self.width as int, self.height as int),
            u: self.u.pixels(chroma_width, chroma_height),
            v: self.v.pixels(chroma_width, chroma_height),
            chroma_width,
            chroma_height,
        }
    }

    /// Whether the planes hold every pixel of the picture.
    pub fn is_complete(&self) -> (complete: bool)
        ensures
            complete == self.complete(),
    {
        assert(0 <= self.width * self.height <= 0xffff_ffff * 0xffff_ffff) by (nonlinear_arith)
            requires
                0 <= self.width <= 0xffff_ffff,
                0 <= self.height <= 0xffff_ffff,
        ;
        let chroma_width: u32 = halved(self.width);
        let chroma_height: u32 = halved(self.height);
        self.width as u64 * self.height as u64 <= u32::MAX as u64
            && self.y.has_rows(self.width, self.height)
            && self.u.has_rows(chroma_width, chroma_height)
            && self.v.has_rows(chroma_width, chroma_height)
    }
}

impl View for Yuv420Image {
    type V = ImageModel;

    open spec fn view(&self) -> ImageModel {
        ImageModel {
            width: self.width as int,
            height: self.height as int,
            y: self.y@,
            u: self.u@,
            v: self.v@,
            chroma_width: self.chroma_width as int,
            chroma_height: self.chroma_height as int,
        }
    }
}

impl Yuv420Image {
    /// The chroma planes have half the resolution and each plane has one byte per sample.
    pub open spec fn wf(&self) -> bool {
        self@.wf()
    }

    /// Copies the visible pixels of a picture, the three planes in parallel.
    pub fn from_picture(picture: &Picture) -> (image: Self)
        requires
            picture.complete(),
        ensures
            image@ == picture.image(),
            image.wf(),
    {
        let width: u32 = picture.width;
        let height: u32 = picture.height;
        let chroma_width: u32 = halved(width);
        let chroma_height: u32 = halved(height);
        proof {
            lemma_chroma_area(width as int, height as int);
        }
        let copy_y = || -> (plane: Vec<u8>)
            ensures
                plane@ == picture.y.pixels(width as int, height as int),
            { copy_plane(&picture.y.data, picture.y.stride as usize, width, height) };
        let copy_u = || -> (plane: Vec<u8>)
            ensures
                plane@ == picture.u.pixels(chroma_width as int, chroma_height as int),
            { copy_plane(&picture.u.data, picture.u.stride as usize, chroma_width, chroma_height) };
        let copy_v = || -> (plane: Vec<u8>)
            ensures
                plane@ == picture.v.pixels(chroma_width as int, chroma_height as int),
            { copy_plane(&picture.v.data, picture.v.stride as usize, chroma_width, chroma_height) };
        let copy_chroma = || -> (planes: (Vec<u8>, Vec<u8>))
            ensures
                planes.0@ == picture.u.pixels(chroma_width as int, chroma_height as int),
                planes.1@ == picture.v.pixels(chroma_width as int, chroma_height as int),
            { rayon::join(copy_u, copy_v) };
        let (y, (u, v)) = rayon::join(copy_y, copy_chroma);
        Yuv420Image { width, height, y, u, v, chroma_width, chroma_height }
    }
}

impl ImageModel {
    /// The chroma planes have half the resolution and each plane has one byte per sample.
    pub open spec fn wf(self) -> bool {
        &&& self.chroma_width == chroma_size(self.width)
        &&& self.chroma_height == chroma_size(self.height)
        &&& self.y.len() == self.width * self.height
        &&& self.u.len() == self.chroma_width * self.chroma_height
        &&& self.v.len() == self.chroma_width * self.chroma_height
    }
}

fn halved(size: u32) -> (half: u32)
    ensures
        half == chroma_size(size as int),
{
    size / 2 + size % 2
}

/// Copies a plane whose rows are `stride` bytes apart into a packed buffer.
fn copy_plane(source: &Vec<u8>, stride: usize, plane_width: u32, plane_height: u32) -> (output:
    Vec<u8>)
    requires
        plane_width * plane_height <= u32::MAX,
        rows_fit(source@.len() as int, stride as int, plane_width as int, plane_height as int),
    ensures
        output@ == packed(source@, stride as int, plane_width as int, plane_height as int),
{
    let width: usize = plane_width as usize;
    let height: usize = plane_height as usize;
    let source_len: usize = source.len();
    let mut output: Vec<u8> = Vec::with_capacity((plane_width * plane_height) as usize);
    let mut row: usize = 0;
    while row < height
        invariant
            row <= height,
            source_len == source@.len(),
            rows_fit(source_len as int, stride as int, width as int, height as int),
            output@ == packed(source@, stride as int, width as int, row as int),
        decreases height - row,
    {
        proof {
            lemma_row_fits(source_len as int, stride as int, width as int, height as int, row as int);
            lemma_packed_row(source@, stride as int, width as int, row as int);
        }
        let start: usize = row * stride;
        output.extend_from_slice(slice_subrange(source.as_slice(), start, start + width));
        assert(output@ =~= packed(source@, stride as int, width as int, row + 1));
        row = row + 1;
    }
    output
}

/// Row `row`, column `column` of a packed plane is the same pixel as in the source.
pub proof fn law_pixel_is_kept(
    source: Seq<u8>,
    stride: int,
    width: int,
    height: int,
    row: int,
    column: int,
)
    requires
        0 <= row < height,
        0 <= column < width,
    ensures
        packed(source, stride, width, height).len() == width * height,
        0 <= row * width + column < packed(source, stride, width, height).len(),
        packed(source, stride, width, height)[row * width + column] == source[row * stride
            + column],
        pixel(packed(source, stride, width, height), width, row, column) == pixel(
            source,
            stride,
            row,
            column,
        ),
{
    let i = row * width + column;
    assert(0 <= i < width * height && i / width == row && i % width == column) by (nonlinear_arith)
        requires
            0 <= row < height,
            0 <= column < width,
            i == row * width + column,
    ;
}

/// What lies between the rows of a source does not matter: sources with the same visible
/// pixels are packed into the same plane, whatever their strides.
pub proof fn law_padding_does_not_matter(
    a: Seq<u8>,
    a_stride: int,
    b: Seq<u8>,
    b_stride: int,
    width: int,
    height: int,
)
    requires
        0 <= width,
        0 <= height,
        forall|row: int, column: int|
            0 <= row < height && 0 <= column < width ==> #[trigger] pixel(a, a_stride, row, column)
                == pixel(b, b_stride, row, column),
    ensures
        packed(a, a_stride, width, height) == packed(b, b_stride, width, height),
{
    let left = packed(a, a_stride, width, height);
    let right = packed(b, b_stride, width, height);
    assert(0 <= width * height && (width == 0 ==> width * height == 0)) by (nonlinear_arith)
        requires
            0 <= width,
            0 <= height,
    ;
    assert forall|i: int| 0 <= i < left.len() implies left[i] == right[i] by {
        let row = i / width;
        let column = i % width;
        assert(0 <= row < height && 0 <= column < width) by (nonlinear_arith)
            requires
                0 <= i < width * height,
                0 < width,
                row == i / width,
                column == i % width,
        ;
        assert(pixel(a, a_stride, row, column) == pixel(b, b_stride, row, column));
    }
    assert(left =~= right);
}

/// A source without padding is packed as it is.
pub proof fn law_unpadded_plane_is_kept(source: Seq<u8>, width: int, height: int)
    requires
        0 < width,
        0 <= height,
        width * height <= source.len(),
    ensures
        packed(source, width, width, height) == source.take(width * height),
{
    let plane = packed(source, width, width, height);
    assert(0 <= width * height) by (nonlinear_arith)
        requires
            0 < width,
            0 <= height,
    ;
    assert forall|i: int| 0 <= i < plane.len() implies plane[i] == source[i] by {
        assert((i / width) * width + i % width == i) by (nonlinear_arith)
            requires
                0 < width,
        ;
    }
    assert(plane =~= source.take(width * height));
}

/// The image of a picture has half-resolution chroma and a byte for every sample.
pub proof fn law_image_of_picture_is_wf(picture: Picture)
    ensures
        picture.image().wf(),
{
    let (w, h) = (picture.width as int, picture.height as int);
    let (cw, ch) = (chroma_size(w), chroma_size(h));
    assert(0 <= w * h && 0 <= cw * ch) by (nonlinear_arith)
        requires
            0 <= w,
            0 <= h,
            0 <= cw,
            0 <= ch,
    ;
}

proof fn lemma_chroma_area(width: int, height: int)
    requires
        0 <= width,
        0 <= height,
    ensures
        chroma_size(width) * chroma_size(height) <= width * height,
{
    let w = chroma_size(width);
    let h = chroma_size(height);
    if width == 0 || height == 0 {
        assert(w * h == 0 && width * height == 0) by (nonlinear_arith)
            requires
                (w == 0 && width == 0) || (h == 0 && height == 0),
        ;
    } else {
        assert(w * h <= width * height) by (nonlinear_arith)
            requires
                0 <= w <= width,
                0 <= h <= height,
        ;
    }
}

proof fn lemma_row_fits(len: int, stride: int, width: int, height: int, row: int)
    requires
        0 <= row < height,
        0 <= stride,
        0 <= width,
        rows_fit(len, stride, width, height),
    ensures
        0 <= row * stride,
        row * stride + width <= len,
{
    assert(0 <= row * stride <= (height - 1) * stride) by (nonlinear_arith)
        requires
            0 <= row <= height - 1,
            0 <= stride,
    ;
}

proof fn lemma_packed_row(source: Seq<u8>, stride: int, width: int, row: int)
    requires
        0 <= row,
        0 <= stride,
        0 <= width,
        row * stride + width <= source.len(),
    ensures
        packed(source, stride, width, row + 1) == packed(source, stride, width, row)
            + source.subrange(row * stride, row * stride + width),
{
    let whole = packed(source, stride, width, row + 1);
    let parts = packed(source, stride, width, row) + source.subrange(
        row * stride,
        row * stride + width,
    );
    assert(width * (row + 1) == width * row + width && 0 <= width * row && 0 <= row * stride)
        by (nonlinear_arith)
        requires
            0 <= row,
            0 <= stride,
            0 <= width,
    ;
    assert forall|i: int| 0 <= i < whole.len() implies whole[i] == parts[i] by {
        if i >= width * row {
            assert(i / width == row && i % width == i - width * row) by (nonlinear_arith)
                requires
                    0 < width,
                    width * row <= i < width * row + width,
            ;
        }
    }
    assert(whole =~= parts);
}

/// A side of a chroma plane has half as many samples as the picture has pixels along it, and one
/// more half where that is odd.
pub proof fn law_chroma_is_half_rounded_up(size: int)
    ensures
        size <= 2 * chroma_size(size) <= size + 1,
{
}

/// A plane holds rows of some width exactly if the last of them lies inside its data, and each
/// row before it does so too. A plane of no rows is always held.
pub proof fn law_held_rows_lie_inside(plane: PlaneBuffer, width: int, height: int, row: int)
    requires
        0 <= width,
        0 <= height,
    ensures
        height == 0 ==> plane.holds(width, height),
        height > 0 ==> (plane.holds(width, height) <==> (height - 1) * plane.stride + width
            <= plane.data@.len()),
        plane.holds(width, height) && 0 <= row < height ==> row * plane.stride + width
            <= plane.data@.len(),
{
    if plane.holds(width, height) && 0 <= row < height {
        lemma_row_fits(plane.data@.len() as int, plane.stride as int, width, height, row);
    }
}

/// A picture is complete exactly if its pixels can be counted in 32 bits and each plane holds
/// all its rows, half as wide and half as many, rounded up, for chroma.
pub proof fn law_complete_means_all_planes(picture: Picture)
    ensures
        picture.complete() <==> {
            &&& picture.width * picture.height <= 0xffff_ffff
            &&& picture.y.holds(picture.width as int, picture.height as int)
            &&& picture.u.holds((picture.width + 1) / 2, (picture.height + 1) / 2)
            &&& picture.v.holds((picture.width + 1) / 2, (picture.height + 1) / 2)
        },
{
}

/// The image of a picture has its size, and a luma pixel for each of its pixels, found in the
/// picture at the same row and column.
pub proof fn law_image_keeps_luma(picture: Picture, row: int, column: int)
    requires
        0 <= row < picture.height,
        0 <= column < picture.width,
    ensures
        ({
            let image = picture.image();
            &&& image.width == picture.width
            &&& image.height == picture.height
            &&& image.y.len() == picture.width * picture.height
            &&& image.y[row * picture.width + column] == picture.y.data@[row * picture.y.stride
                + column]
        }),
{
    law_pixel_is_kept(
        picture.y.data@,
        picture.y.stride as int,
        picture.width as int,
        picture.height as int,
        row,
        column,
    );
}

/// The image of a picture has chroma planes of half its size, rounded up, with each sample found
/// in the plane of the same colour at the same row and column.
pub proof fn law_image_keeps_chroma(picture: Picture, row: int, column: int)
    requires
        0 <= row < (picture.height + 1) / 2,
        0 <= column < (picture.width + 1) / 2,
    ensures
        ({
            let image = picture.image();
            let (width, height) = ((picture.width + 1) / 2, (picture.height + 1) / 2);
            &&& image.chroma_width == width
            &&& image.chroma_height == height
            &&& image.u.len() == width * height
            &&& image.v.len() == width * height
            &&& image.u[row * width + column] == picture.u.data@[row * picture.u.stride + column]
            &&& image.v[row * width + column] == picture.v.data@[row * picture.v.stride + column]
        }),
{
    let (width, height) = ((picture.width + 1) / 2, (picture.height + 1) / 2);
    law_pixel_is_kept(picture.u.data@, picture.u.stride as int, width, height, row, column);
    law_pixel_is_kept(picture.v.data@, picture.v.stride as int, width, height, row, column);
}

/// What an image is taken for is what its fields hold.
pub proof fn law_image_shows_fields(image: Yuv420Image)
    ensures
        image@.width == image.width,
        image@.height == image.height,
        image@.y == image.y@,
        image@.u == image.u@,
        image@.v == image.v@,
        image@.chroma_width == image.chroma_width,
        image@.chroma_height == image.chroma_height,
{
}

/// Whatever picture is copied, the copy has at every row and column the sample that the picture
/// has there.
pub proof fn law_copy_shows_picture(picture: Picture, image: Yuv420Image, row: int, column: int)
    requires
        call_ensures(Yuv420Image::from_picture, (&picture,), image),
    ensures
        image.width == picture.width,
        image.height == picture.height,
        image.chroma_width == (picture.width + 1) / 2,
        image.chroma_height == (picture.height + 1) / 2,
        0 <= row < image.height && 0 <= column < image.width ==> image.y@[row * image.width + column]
            == picture.y.data@[row * picture.y.stride + column],
        0 <= row < image.chroma_height && 0 <= column < image.chroma_width ==> image.u@[row
            * image.chroma_width + column] == picture.u.data@[row * picture.u.stride + column]
            && image.v@[row * image.chroma_width + column] == picture.v.data@[row
            * picture.v.stride + column],
{
    if 0 <= row < image.height && 0 <= column < image.width {
        law_image_keeps_luma(picture, row, column);
    }
    if 0 <= row < image.chroma_height && 0 <= column < image.chroma_width {
        law_image_keeps_chroma(picture, row, column);
    }
}

} // verus!
