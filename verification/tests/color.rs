use av1_player::color::{ColorSpace, ShaderColorMatrix, COEFFICIENT_SCALE};

fn number(coefficient: i32) -> f32 {
    coefficient as f32 / COEFFICIENT_SCALE as f32
}

fn numbers(matrix: [[i32; 3]; 3]) -> [[f32; 3]; 3] {
    matrix.map(|row| row.map(number))
}

#[test]
fn bt601_has_its_coefficients() {
    let space = ColorSpace::bt601();
    assert_eq!(
        numbers(space.rgb_to_yuv),
        [[0.299, 0.587, 0.114], [-0.168736, -0.331264, 0.5], [0.5, -0.418688, -0.081312]]
    );
    assert_eq!(
        numbers(space.yuv_to_rgb),
        [[1.0, 0.0, 1.402], [1.0, -0.344136, -0.714136], [1.0, 1.772, 0.0]]
    );
}

#[test]
fn bt709_has_its_coefficients() {
    let space = ColorSpace::bt709();
    assert_eq!(
        numbers(space.rgb_to_yuv),
        [[0.2126, 0.7152, 0.0722], [-0.114572, -0.385428, 0.5], [0.5, -0.454153, -0.045847]]
    );
    assert_eq!(
        numbers(space.yuv_to_rgb),
        [[1.0, 0.0, 1.5748], [1.0, -0.187324, -0.468124], [1.0, 1.8556, 0.0]]
    );
}

#[test]
fn bt2020_has_its_coefficients() {
    let space = ColorSpace::bt2020();
    assert_eq!(
        numbers(space.rgb_to_yuv),
        [[0.2627, 0.678, 0.0593], [-0.13963, -0.36037, 0.5], [0.5, -0.459786, -0.040214]]
    );
    assert_eq!(
        numbers(space.yuv_to_rgb),
        [[1.0, 0.0, 1.4746], [1.0, -0.16455, -0.57135], [1.0, 1.8814, 0.0]]
    );
}

#[test]
fn custom_keeps_any_coefficients() {
    let to_yuv = [[0.1f32, 0.2, 0.3], [0.4, 0.5, 0.6], [0.7, 0.8, 0.9]];
    let to_rgb = [[1.1f32, 1.2, 1.3], [1.4, 1.5, 1.6], [1.7, 1.8, 1.9]];
    let space = ColorSpace::custom(to_yuv, to_rgb);
    assert_eq!(space.rgb_to_yuv, to_yuv);
    assert_eq!(space.yuv_to_rgb, to_rgb);
}

#[test]
fn shader_matrix_is_by_columns() {
    let to_rgb = [[1.1f32, 1.2, 1.3], [1.4, 1.5, 1.6], [1.7, 1.8, 1.9]];
    let shader = ShaderColorMatrix::from(ColorSpace::custom([[0.0; 3]; 3], to_rgb), 0.0);
    assert_eq!(
        shader.matrix,
        [[1.1, 1.4, 1.7, 0.0], [1.2, 1.5, 1.8, 0.0], [1.3, 1.6, 1.9, 0.0]]
    );
    assert_eq!(shader.offset, [0.0; 4]);
}

#[test]
fn white_survives_a_round_trip() {
    for space in [ColorSpace::bt601(), ColorSpace::bt709(), ColorSpace::bt2020()] {
        let apply = |m: [[i32; 3]; 3], x: [i64; 3]| m.map(|r| (0..3).map(|i| r[i] as i64 * x[i]).sum::<i64>());
        let yuv = apply(space.rgb_to_yuv, [255, 255, 255]);
        assert_eq!(yuv, [255_000_000, 0, 0]);
        let rgb = apply(space.yuv_to_rgb, yuv);
        assert_eq!(rgb, [255_000_000_000_000; 3]);
    }
}

#[test]
fn red_survives_a_round_trip() {
    for space in [ColorSpace::bt601(), ColorSpace::bt709(), ColorSpace::bt2020()] {
        let apply = |m: [[i32; 3]; 3], x: [i64; 3]| m.map(|r| (0..3).map(|i| r[i] as i64 * x[i]).sum::<i64>());
        let rgb = apply(space.yuv_to_rgb, apply(space.rgb_to_yuv, [255, 0, 0]));
        for (got, exact) in rgb.into_iter().zip([255_000_000_000_000, 0, 0]) {
            assert!((got - exact).abs() <= 2_000_000_000);
        }
    }
}
