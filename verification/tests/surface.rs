use av1_player::surface::{
    binding_layout, plan_surface, Acquired, Binding, BindingKind, Plane, SurfaceSize,
    MAXIMUM_FRAME_LATENCY, QUAD_VERTICES,
};

#[test]
fn first_linear_format_is_chosen() {
    let plan = plan_surface(&vec![true, false, false], 3, 2, 640, 480);
    assert_eq!(plan.format, 1);
    assert_eq!((plan.present_mode, plan.alpha_mode), (0, 0));
    assert_eq!(plan.size, SurfaceSize { width: 640, height: 480 });
}

#[test]
fn first_format_is_the_fallback() {
    assert_eq!(plan_surface(&vec![true, true], 1, 1, 1, 1).format, 0);
    assert_eq!(plan_surface(&vec![false], 1, 1, 1, 1).format, 0);
}

#[test]
fn surface_is_never_empty() {
    assert_eq!(plan_surface(&vec![false], 1, 1, 0, 7).size, SurfaceSize { width: 1, height: 7 });
    assert_eq!(SurfaceSize::for_window(0, 0), SurfaceSize { width: 1, height: 1 });
}

#[test]
fn resize_ignores_empty_windows() {
    let mut size = SurfaceSize::for_window(10, 20);
    assert!(!size.resize(0, 5));
    assert!(!size.resize(5, 0));
    assert_eq!(size, SurfaceSize { width: 10, height: 20 });
    assert!(size.resize(30, 40));
    assert_eq!(size, SurfaceSize { width: 30, height: 40 });
}

#[test]
fn bindings_are_numbered() {
    assert_eq!(
        binding_layout(64),
        vec![
            Binding { binding: 0, kind: BindingKind::PlaneTexture(Plane::Y) },
            Binding { binding: 1, kind: BindingKind::PlaneTexture(Plane::U) },
            Binding { binding: 2, kind: BindingKind::PlaneTexture(Plane::V) },
            Binding { binding: 3, kind: BindingKind::FilteringSampler },
            Binding { binding: 4, kind: BindingKind::ColorMatrix { min_size: 64 } },
        ]
    );
}

#[test]
fn drawing_needs_a_texture() {
    assert!(Acquired::Success.can_draw());
    assert!(Acquired::Suboptimal.can_draw());
    assert!(!Acquired::Unavailable.can_draw());
    assert_eq!((QUAD_VERTICES, MAXIMUM_FRAME_LATENCY), (6, 2));
}
