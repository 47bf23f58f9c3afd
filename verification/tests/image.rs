use av1_player::image::{Picture, PlaneBuffer, Yuv420Image};
use av1_player::surface::Plane;

fn plane(data: Vec<u8>, stride: u32) -> PlaneBuffer {
    PlaneBuffer { data, stride }
}

fn odd_picture() -> Picture {
    Picture {
        width: 3,
        height: 3,
        y: plane(vec![1, 2, 3, 90, 91, 4, 5, 6, 92, 93, 7, 8, 9], 5),
        u: plane(vec![11, 12, 94, 95, 13, 14], 4),
        v: plane(vec![21, 22, 23, 24], 2),
        timestamp: Some(40),
    }
}

#[test]
fn padding_is_removed() {
    let picture = odd_picture();
    assert!(picture.is_complete());
    let image = Yuv420Image::from_picture(&picture);
    assert_eq!(
        image,
        Yuv420Image {
            width: 3,
            height: 3,
            y: vec![1, 2, 3, 4, 5, 6, 7, 8, 9],
            u: vec![11, 12, 13, 14],
            v: vec![21, 22, 23, 24],
            chroma_width: 2,
            chroma_height: 2,
        }
    );
}

#[test]
fn padding_does_not_matter() {
    let mut other = odd_picture();
    other.y = plane(vec![1, 2, 3, 4, 5, 6, 7, 8, 9, 0, 0], 3);
    assert_eq!(Yuv420Image::from_picture(&odd_picture()), Yuv420Image::from_picture(&other));
}

#[test]
fn even_sizes_halve_exactly() {
    let picture = Picture {
        width: 4,
        height: 2,
        y: plane((0..8).collect(), 4),
        u: plane(vec![8, 9], 2),
        v: plane(vec![10, 11], 2),
        timestamp: None,
    };
    let image = Yuv420Image::from_picture(&picture);
    assert_eq!((image.chroma_width, image.chroma_height), (2, 1));
    assert_eq!(image.y, (0..8).collect::<Vec<u8>>());
    assert_eq!(image.u, vec![8, 9]);
    assert_eq!(image.v, vec![10, 11]);
}

#[test]
fn empty_picture_gives_empty_image() {
    let picture = Picture {
        width: 0,
        height: 0,
        y: plane(vec![], 0),
        u: plane(vec![], 0),
        v: plane(vec![], 0),
        timestamp: None,
    };
    assert!(picture.is_complete());
    let image = Yuv420Image::from_picture(&picture);
    assert!(image.y.is_empty() && image.u.is_empty() && image.v.is_empty());
}

#[test]
fn missing_pixels_are_noticed() {
    let mut short_luma = odd_picture();
    short_luma.y.data.pop();
    assert!(!short_luma.is_complete());
    let mut short_chroma = odd_picture();
    short_chroma.v.data.pop();
    assert!(!short_chroma.is_complete());
    let mut huge = odd_picture();
    huge.width = u32::MAX;
    huge.height = u32::MAX;
    assert!(!huge.is_complete());
}

#[test]
fn uploads_fill_the_textures() {
    let image = Yuv420Image::from_picture(&odd_picture());
    for (which, label, width, height) in
        [(Plane::Y, "Y plane", 3, 3), (Plane::U, "U plane", 2, 2), (Plane::V, "V plane", 2, 2)]
    {
        let upload = image.upload(which);
        assert_eq!(which.label(), label);
        assert_eq!((upload.width, upload.height), (width, height));
        assert_eq!((upload.bytes_per_row, upload.rows_per_image), (width, height));
        assert_eq!(upload.data.len() as u32, width * height);
    }
    assert_eq!(image.upload(Plane::Y).data, &image.y);
    assert_eq!(image.upload(Plane::U).data, &image.u);
    assert_eq!(image.upload(Plane::V).data, &image.v);
}
