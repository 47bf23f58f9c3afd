//! Colour spaces and the matrix with which the shader turns YUV into RGB.
use vstd::prelude::*;

verus! {

/// How many units make up one in the coefficients of the standard colour spaces.
pub const COEFFICIENT_SCALE: i32 = 1_000_000;

/// How RGB and YUV are turned into each other. The coefficients are of any kind of number; the
/// standard colour spaces have theirs in millionths.
#[derive(Debug, Clone, Copy)]
pub struct ColorSpace<T> {
    pub rgb_to_yuv: [[T; 3]; 3],
    pub yuv_to_rgb: [[T; 3]; 3],
}

/// The matrix from YUV to RGB by columns, as the shader reads it, each column padded to four
/// numbers, and what is added to the product.
#[derive(Debug, Clone, Copy)]
pub struct ShaderColorMatrix<T> {
    pub matrix: [[T; 4]; 3],
    pub offset: [T; 4],
}

/// The numbers in a matrix, by rows.
pub open spec fn coefficients(matrix: [[i32; 3]; 3]) -> Seq<Seq<int>> {
    Seq::new(3, |row: int| Seq::new(3, |column: int| matrix[row][column] as int))
}

/// The product of a matrix of three rows with a column of three numbers.
pub open spec fn apply(matrix: Seq<Seq<int>>, x: Seq<int>) -> Seq<int> {
    Seq::new(3, |row: int| matrix[row][0] * x[0] + matrix[row][1] * x[1] + matrix[row][2] * x[2])
}

/// The product that the shader computes for a column of three numbers.
pub open spec fn shaded(shader: ShaderColorMatrix<i32>, x: Seq<int>) -> Seq<int> {
    Seq::new(
        3,
        |row: int|
            shader.matrix[0][row] * x[0] + shader.matrix[1][row] * x[1] + shader.matrix[2][row] * x[2]
                + shader.offset[row],
    )
}

/// The two matrices of a colour space, in millionths.
pub struct ColorModel {
    pub rgb_to_yuv: Seq<Seq<int>>,
    pub yuv_to_rgb: Seq<Seq<int>>,
}

/// The standards that define colour spaces.
pub enum Standard {
    Bt601,
    Bt709,
    Bt2020,
}

impl Standard {
    /// The coefficients that the standard gives, rounded to millionths.
    pub open spec fn model(self) -> ColorModel {
        match self {
            Standard::Bt601 => ColorModel {
                rgb_to_yuv: seq![
                    seq![299_000int, 587_000, 114_000],
                    seq![-168_736int, -331_264, 500_000],
                    seq![500_000int, -418_688, -81_312],
                ],
                yuv_to_rgb: seq![
                    seq![1_000_000int, 0, 1_402_000],
                    seq![1_000_000int, -344_136, -714_136],
                    seq![1_000_000int, 1_772_000, 0],
                ],
            },
            Standard::Bt709 => ColorModel {
                rgb_to_yuv: seq![
                    seq![212_600int, 715_200, 72_200],
                    seq![-114_572int, -385_428, 500_000],
                    seq![500_000int, -454_153, -45_847],
                ],
                yuv_to_rgb: seq![
                    seq![1_000_000int, 0, 1_574_800],
                    seq![1_000_000int, -187_324, -468_124],
                    seq![1_000_000int, 1_855_600, 0],
                ],
            },
            Standard::Bt2020 => ColorModel {
                rgb_to_yuv: seq![
                    seq![262_700int, 678_000, 59_300],
                    seq![-139_630int, -360_370, 500_000],
                    seq![500_000int, -459_786, -40_214],
                ],
                yuv_to_rgb: seq![
                    seq![1_000_000int, 0, 1_474_600],
                    seq![1_000_000int, -164_550, -571_350],
                    seq![1_000_000int, 1_881_400, 0],
                ],
            },
        }
    }
}

impl View for ColorSpace<i32> {
    type V = ColorModel;

    open spec fn view(&self) -> ColorModel {
        ColorModel {
            rgb_to_yuv: coefficients(self.rgb_to_yuv),
            yuv_to_rgb: coefficients(self.yuv_to_rgb),
        }
    }
}

impl ColorSpace<i32> {
    /// The colour space of standard-definition video.
    pub fn bt601() -> (color_space: Self)
        ensures
            color_space@ == Standard::Bt601.model(),
    {
        let color_space = ColorSpace {
            rgb_to_yuv: [
                [299_000, 587_000, 114_000],
                [-168_736, -331_264, 500_000],
                [500_000, -418_688, -81_312],
            ],
            yuv_to_rgb: [
                [1_000_000, 0, 1_402_000],
                [1_000_000, -344_136, -714_136],
                [1_000_000, 1_772_000, 0],
            ],
        };
        assert(color_space@.rgb_to_yuv =~~= Standard::Bt601.model().rgb_to_yuv);
        assert(color_space@.yuv_to_rgb =~~= Standard::Bt601.model().yuv_to_rgb);
        color_space
    }

    /// The colour space of high-definition video.
    pub fn bt709() -> (color_space: Self)
        ensures
            color_space@ == Standard::Bt709.model(),
    {
        let color_space = ColorSpace {
            rgb_to_yuv: [
                [212_600, 715_200, 72_200],
                [-114_572, -385_428, 500_000],
                [500_000, -454_153, -45_847],
            ],
            yuv_to_rgb: [
                [1_000_000, 0, 1_574_800],
                [1_000_000, -187_324, -468_124],
                [1_000_000, 1_855_600, 0],
            ],
        };
        assert(color_space@.rgb_to_yuv =~~= Standard::Bt709.model().rgb_to_yuv);
        assert(color_space@.yuv_to_rgb =~~= Standard::Bt709.model().yuv_to_rgb);
        color_space
    }

    /// The colour space of ultra-high-definition video.
    pub fn bt2020() -> (color_space: Self)
        ensures
            color_space@ == Standard::Bt2020.model(),
    {
        let color_space = ColorSpace {
            rgb_to_yuv: [
                [262_700, 678_000, 59_300],
                [-139_630, -360_370, 500_000],
                [500_000, -459_786, -40_214],
            ],
            yuv_to_rgb: [
                [1_000_000, 0, 1_474_600],
                [1_000_000, -164_550, -571_350],
                [1_000_000, 1_881_400, 0],
            ],
        };
        assert(color_space@.rgb_to_yuv =~~= Standard::Bt2020.model().rgb_to_yuv);
        assert(color_space@.yuv_to_rgb =~~= Standard::Bt2020.model().yuv_to_rgb);
        color_space
    }
}

impl<T: Copy> ColorSpace<T> {
    /// A colour space with the given coefficients.
    pub fn custom(rgb_to_yuv: [[T; 3]; 3], yuv_to_rgb: [[T; 3]; 3]) -> (color_space: Self)
        ensures
            color_space == (ColorSpace { rgb_to_yuv, yuv_to_rgb }),
    {
        ColorSpace { rgb_to_yuv, yuv_to_rgb }
    }
}

impl<T: Copy> ShaderColorMatrix<T> {
    /// The columns of the matrix from YUV to RGB, with `zero` below each of them and as offset.
    pub open spec fn transposes(self, color_space: ColorSpace<T>, zero: T) -> bool {
        &&& forall|column: int, row: int|
            0 <= column < 3 && 0 <= row < 3 ==> #[trigger] self.matrix[column][row]
                == color_space.yuv_to_rgb[row][column]
        &&& forall|column: int| 0 <= column < 3 ==> (#[trigger] self.matrix[column])[3] == zero
        &&& forall|row: int| 0 <= row < 4 ==> #[trigger] self.offset[row] == zero
    }

    /// Arranges the matrix from YUV to RGB for the shader.
    pub fn from(color_space: ColorSpace<T>, zero: T) -> (shader: Self)
        ensures
            shader.transposes(color_space, zero),
    {
        let m = color_space.yuv_to_rgb;
        ShaderColorMatrix {
            matrix: [
                [m[0][0], m[1][0], m[2][0], zero],
                [m[0][1], m[1][1], m[2][1], zero],
                [m[0][2], m[1][2], m[2][2], zero],
            ],
            offset: [zero, zero, zero, zero],
        }
    }
}

/// The shader turns YUV into RGB exactly as the colour space says.
pub proof fn law_shader_applies_color_space(
    shader: ShaderColorMatrix<i32>,
    color_space: ColorSpace<i32>,
    yuv: Seq<int>,
)
    requires
        shader.transposes(color_space, 0),
    ensures
        shaded(shader, yuv) == apply(color_space@.yuv_to_rgb, yuv),
{
    assert(shaded(shader, yuv) =~= apply(color_space@.yuv_to_rgb, yuv));
}

/// In every standard colour space a grey is all luma and no chroma.
pub proof fn law_grey_has_no_chroma(standard: Standard, level: int)
    ensures
        apply(standard.model().rgb_to_yuv, seq![level, level, level]) == seq![
            COEFFICIENT_SCALE * level,
            0,
            0,
        ],
{
    assert(apply(standard.model().rgb_to_yuv, seq![level, level, level]) =~= seq![
        COEFFICIENT_SCALE * level,
        0,
        0,
    ]);
}

/// In every standard colour space luma without chroma is a grey.
pub proof fn law_luma_alone_is_grey(standard: Standard, level: int)
    ensures
        apply(standard.model().yuv_to_rgb, seq![level, 0, 0]) == seq![
            COEFFICIENT_SCALE * level,
            COEFFICIENT_SCALE * level,
            COEFFICIENT_SCALE * level,
        ],
{
    assert(apply(standard.model().yuv_to_rgb, seq![level, 0, 0]) =~= seq![
        COEFFICIENT_SCALE * level,
        COEFFICIENT_SCALE * level,
        COEFFICIENT_SCALE * level,
    ]);
}

/// In every standard colour space an 8-bit colour that is turned into YUV and back is the same
/// to within a five-hundredth of a level. The result is in millionths of millionths.
pub proof fn law_round_trip_keeps_color(standard: Standard, rgb: Seq<int>, channel: int)
    requires
        rgb.len() == 3,
        forall|i: int| 0 <= i < 3 ==> 0 <= #[trigger] rgb[i] <= 255,
        0 <= channel < 3,
    ensures
        ({
            let model = standard.model();
            let back = apply(model.yuv_to_rgb, apply(model.rgb_to_yuv, rgb))[channel];
            let exact = 1_000_000_000_000 * rgb[channel];
            -2_000_000_000 <= back - exact <= 2_000_000_000
        }),
{
    let forth = standard.model().rgb_to_yuv;
    let yuv = apply(forth, rgb);
    let back = standard.model().yuv_to_rgb;
    assert(0 <= rgb[0] <= 255 && 0 <= rgb[1] <= 255 && 0 <= rgb[2] <= 255);
    match standard {
        Standard::Bt601 => {
            lemma_row(forth, rgb, 0, 299_000, 587_000, 114_000);
            lemma_row(forth, rgb, 1, -168_736, -331_264, 500_000);
            lemma_row(forth, rgb, 2, 500_000, -418_688, -81_312);
            lemma_row(back, yuv, 0, 1_000_000, 0, 1_402_000);
            lemma_row(back, yuv, 1, 1_000_000, -344_136, -714_136);
            lemma_row(back, yuv, 2, 1_000_000, 1_772_000, 0);
        },
        Standard::Bt709 => {
            lemma_row(forth, rgb, 0, 212_600, 715_200, 72_200);
            lemma_row(forth, rgb, 1, -114_572, -385_428, 500_000);
            lemma_row(forth, rgb, 2, 500_000, -454_153, -45_847);
            lemma_row(back, yuv, 0, 1_000_000, 0, 1_574_800);
            lemma_row(back, yuv, 1, 1_000_000, -187_324, -468_124);
            lemma_row(back, yuv, 2, 1_000_000, 1_855_600, 0);
        },
        Standard::Bt2020 => {
            lemma_row(forth, rgb, 0, 262_700, 678_000, 59_300);
            lemma_row(forth, rgb, 1, -139_630, -360_370, 500_000);
            lemma_row(forth, rgb, 2, 500_000, -459_786, -40_214);
            lemma_row(back, yuv, 0, 1_000_000, 0, 1_474_600);
            lemma_row(back, yuv, 1, 1_000_000, -164_550, -571_350);
            lemma_row(back, yuv, 2, 1_000_000, 1_881_400, 0);
        },
    }
}

proof fn lemma_row(matrix: Seq<Seq<int>>, x: Seq<int>, row: int, a: int, b: int, c: int)
    requires
        0 <= row < 3,
        matrix[row][0] == a,
        matrix[row][1] == b,
        matrix[row][2] == c,
    ensures
        apply(matrix, x)[row] == a * x[0] + b * x[1] + c * x[2],
{
}

/// What a colour space is taken for is what its matrices hold, by rows.
pub proof fn law_color_space_shows_matrices(color_space: ColorSpace<i32>, row: int, column: int)
    requires
        0 <= row < 3,
        0 <= column < 3,
    ensures
        color_space@.rgb_to_yuv[row][column] == color_space.rgb_to_yuv[row][column],
        color_space@.yuv_to_rgb[row][column] == color_space.yuv_to_rgb[row][column],
{
}

/// A colour space with coefficients of any kind keeps each of them, and the shader finds the one
/// for a channel and a component in the column of the component, at the row of the channel. The
/// rest of what it reads is zero.
pub proof fn law_shader_reads_columns<T: Copy>(
    rgb_to_yuv: [[T; 3]; 3],
    yuv_to_rgb: [[T; 3]; 3],
    zero: T,
    color_space: ColorSpace<T>,
    shader: ShaderColorMatrix<T>,
    row: int,
    column: int,
)
    requires
        call_ensures(ColorSpace::<T>::custom, (rgb_to_yuv, yuv_to_rgb), color_space),
        call_ensures(ShaderColorMatrix::<T>::from, (color_space, zero), shader),
        0 <= row < 3,
        0 <= column < 3,
    ensures
        color_space.rgb_to_yuv[row][column] == rgb_to_yuv[row][column],
        color_space.yuv_to_rgb[row][column] == yuv_to_rgb[row][column],
        shader.matrix[column][row] == yuv_to_rgb[row][column],
        shader.matrix[column][3] == zero,
        shader.offset[row] == zero,
        shader.offset[3] == zero,
{
}

} // verus!
