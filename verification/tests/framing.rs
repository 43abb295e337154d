use mesh_framing::camera::{MAX_CAMERA_DISTANCE, MIN_CAMERA_DISTANCE, TAN_SCALE};
use mesh_framing::light::LIGHT_OFFSET;
use mesh_framing::{Axis, BoundingBox, ConfigError, LightColor, Mesh, Triangle, Vec3};

fn v(x: i64, y: i64, z: i64) -> Vec3 {
    Vec3 { x, y, z }
}

/// A triangle whose three vertices are given; the normal is irrelevant to
/// framing and set to +z.
fn tri(a: Vec3, b: Vec3, c: Vec3) -> Triangle {
    Triangle {
        a,
        b,
        c,
        normal: v(0, 0, 1),
    }
}

/// A two-triangle mesh spanning exactly the given bounds on each axis.
fn box_mesh(x0: i64, x1: i64, y0: i64, y1: i64, z0: i64, z1: i64) -> Mesh {
    Mesh {
        triangles: vec![
            tri(v(x0, y0, z0), v(x1, y0, z0), v(x0, y1, z1)),
            tri(v(x1, y1, z1), v(x0, y1, z0), v(x1, y0, z1)),
        ],
    }
}

#[test]
fn unit_cube_bounds_center_and_translation() {
    // A unit cube spanning [-0.5, 0.5] on all axes, at 65536 units per
    // model unit.
    let mesh = box_mesh(-32768, 32768, -32768, 32768, -32768, 32768);
    let bb = BoundingBox::new(&mesh);
    assert_eq!(
        bb,
        BoundingBox {
            x_min: -32768,
            x_max: 32768,
            y_min: -32768,
            y_max: 32768,
            z_min: -32768,
            z_max: 32768,
        }
    );
    assert_eq!(bb.center(), v(0, 0, 0));
    assert_eq!(bb.center_to_origin(), v(0, 0, 0));
}

#[test]
fn empty_mesh_degenerates_to_origin_point() {
    let mesh = Mesh { triangles: vec![] };
    let bb = BoundingBox::new(&mesh);
    assert_eq!(
        bb,
        BoundingBox {
            x_min: 0,
            x_max: 0,
            y_min: 0,
            y_max: 0,
            z_min: 0,
            z_max: 0,
        }
    );
}

#[test]
fn empty_mesh_camera_falls_back_to_minimum_distance() {
    let mesh = Mesh { triangles: vec![] };
    let bb = BoundingBox::new(&mesh);
    let axis = bb.largest_cross_section_axis();
    assert_eq!(axis, Axis::Z);
    let cam = bb
        .pick_camera_position(512, 512, 414214, &axis)
        .expect("a degenerate volume is not a configuration error");
    assert_eq!(cam.distance, MIN_CAMERA_DISTANCE);
    assert_eq!(cam.position, v(0, 0, MIN_CAMERA_DISTANCE));
    assert_eq!(cam.target, v(0, 0, 0));
    assert_eq!(cam.znear, MIN_CAMERA_DISTANCE / 2);
    assert_eq!(cam.zfar, MIN_CAMERA_DISTANCE + 1);
    assert!(0 < cam.znear && cam.znear < cam.zfar);
}

#[test]
fn bounds_are_tight_not_origin_seeded() {
    // A mesh living entirely away from the origin: the minimal box must not
    // include the origin.
    let mesh = box_mesh(10, 20, 30, 40, 50, 60);
    let bb = BoundingBox::new(&mesh);
    assert_eq!(
        bb,
        BoundingBox {
            x_min: 10,
            x_max: 20,
            y_min: 30,
            y_max: 40,
            z_min: 50,
            z_max: 60,
        }
    );
    assert_eq!(bb.dx(), 10);
    assert_eq!(bb.dy(), 10);
    assert_eq!(bb.dz(), 10);
}

#[test]
fn center_lies_within_bounds() {
    let mesh = box_mesh(1, 6, -9, -2, 100, 101);
    let bb = BoundingBox::new(&mesh);
    let c = bb.center();
    assert!(bb.x_min <= c.x && c.x <= bb.x_max);
    assert!(bb.y_min <= c.y && c.y <= bb.y_max);
    assert!(bb.z_min <= c.z && c.z <= bb.z_max);
}

#[test]
fn shift_translates_center_exactly() {
    let bb = BoundingBox {
        x_min: 1,
        x_max: 5,
        y_min: 2,
        y_max: 8,
        z_min: 3,
        z_max: 9,
    };
    let t = v(10, -3, 7);
    let moved = bb.shift(t);
    let c0 = bb.center();
    let c1 = moved.center();
    assert_eq!(c1, v(c0.x + t.x, c0.y + t.y, c0.z + t.z));

    // An odd extent exercises the midpoint rounding.
    let odd = BoundingBox {
        x_min: 0,
        x_max: 3,
        y_min: 0,
        y_max: 3,
        z_min: 0,
        z_max: 3,
    };
    assert_eq!(odd.center(), v(1, 1, 1));
    let moved_odd = odd.shift(v(1, 1, 1));
    assert_eq!(moved_odd.center(), v(2, 2, 2));
}

#[test]
fn recentering_moves_center_exactly_to_origin() {
    let bb = BoundingBox {
        x_min: 0,
        x_max: 3,
        y_min: 0,
        y_max: 5,
        z_min: -7,
        z_max: 2,
    };
    assert_eq!(bb.center(), v(1, 2, -3));
    let t = bb.center_to_origin();
    assert_eq!(t, v(-1, -2, 3));
    let recentered = bb.shift(t);
    assert_eq!(recentered.center(), v(0, 0, 0));
}

#[test]
fn elongated_mesh_selects_z_on_tie() {
    // Extents 10 x 2 x 2: cross-sections are 4 (down x), 20 (down y),
    // 20 (down z); the y/z tie resolves to z.
    let mesh = box_mesh(0, 10, 0, 2, 0, 2);
    let bb = BoundingBox::new(&mesh);
    assert_eq!(bb.dx(), 10);
    assert_eq!(bb.dy(), 2);
    assert_eq!(bb.dz(), 2);
    assert_eq!(bb.largest_cross_section_axis(), Axis::Z);
}

#[test]
fn axis_selection_is_deterministic_and_ties_to_z() {
    let cube = BoundingBox {
        x_min: -4,
        x_max: 4,
        y_min: 0,
        y_max: 8,
        z_min: 10,
        z_max: 18,
    };
    let first = cube.largest_cross_section_axis();
    let second = cube.largest_cross_section_axis();
    assert_eq!(first, Axis::Z);
    assert_eq!(first, second);
}

#[test]
fn axis_selection_prefers_strictly_largest_cross_section() {
    // dx=1, dy=5, dz=5: looking down x exposes 25, the rest 5.
    let tall = BoundingBox {
        x_min: 0,
        x_max: 1,
        y_min: 0,
        y_max: 5,
        z_min: 0,
        z_max: 5,
    };
    assert_eq!(tall.largest_cross_section_axis(), Axis::X);

    // dx=5, dy=1, dz=5: looking down y exposes 25, the rest 5.
    let wide = BoundingBox {
        x_min: 0,
        x_max: 5,
        y_min: 0,
        y_max: 1,
        z_min: 0,
        z_max: 5,
    };
    assert_eq!(wide.largest_cross_section_axis(), Axis::Y);
}

#[test]
fn flat_square_gets_finite_camera_distance() {
    // A flat square in the xy plane (dz = 0) viewed down z, at a 90-degree
    // vertical field of view (half-angle tangent 1.0) and square aspect.
    let mesh = box_mesh(-1_000_000, 1_000_000, -1_000_000, 1_000_000, 0, 0);
    let bb = BoundingBox::new(&mesh);
    let axis = bb.largest_cross_section_axis();
    assert_eq!(axis, Axis::Z);
    let cam = bb
        .pick_camera_position(100, 100, TAN_SCALE, &axis)
        .expect("a flat volume is not a configuration error");
    // Required distance on both screen axes: (2e6 * 1e6) / (2 * 1e6) = 1e6;
    // padding adds an eighth plus two units.
    assert_eq!(cam.distance, 1_000_000 + 125_000 + 2);
    assert_eq!(cam.position, v(0, 0, cam.distance));
    assert_eq!(cam.znear, cam.distance / 2);
    assert_eq!(cam.zfar, cam.distance + 1);
    assert!(0 < cam.znear && cam.znear < cam.zfar);
}

#[test]
fn camera_distance_fits_frustum_on_both_screen_axes() {
    // Extents 4e6 x 2e6 x 1e6 viewed down z, aspect 2 (width 200, height
    // 100), half-angle tangent 0.5.
    let mesh = box_mesh(0, 4_000_000, 0, 2_000_000, 0, 1_000_000);
    let bb = BoundingBox::new(&mesh);
    let axis = bb.largest_cross_section_axis();
    assert_eq!(axis, Axis::Z);
    let t: i64 = 500_000;
    let (width, height): (u32, u32) = (200, 100);
    let cam = bb
        .pick_camera_position(width, height, t, &axis)
        .expect("valid configuration");
    // Vertical: ceil(2e6 * 1e6 / (2 * 5e5)) + 5e5 = 2.5e6; horizontal the
    // same; padded by an eighth plus two.
    assert_eq!(cam.distance, 2_500_000 + 312_500 + 2);
    assert_eq!(cam.znear, (cam.distance - 500_000) / 2);
    assert_eq!(cam.zfar, cam.distance + 500_000 + 1);

    // The integer frustum-fit inequalities, checked numerically:
    // vertical   t * (2*dist - d) >= h * TAN_SCALE
    // horizontal (t*width) * (2*dist - d) >= (w * TAN_SCALE) * height
    let (w, h, d) = (bb.dx() as i128, bb.dy() as i128, bb.dz() as i128);
    let dist = cam.distance as i128;
    let ti = t as i128;
    assert!(ti * (2 * dist - d) >= h * TAN_SCALE as i128);
    assert!((ti * width as i128) * (2 * dist - d) >= (w * TAN_SCALE as i128) * height as i128);
    // The clip planes bracket the volume.
    assert!(2 * cam.znear < 2 * cam.distance - bb.dz());
    assert!(2 * cam.zfar > 2 * cam.distance + bb.dz());
    assert!(cam.distance <= MAX_CAMERA_DISTANCE);
}

#[test]
fn zero_image_dimension_is_rejected() {
    let bb = BoundingBox {
        x_min: 0,
        x_max: 10,
        y_min: 0,
        y_max: 10,
        z_min: 0,
        z_max: 10,
    };
    assert_eq!(
        bb.pick_camera_position(0, 100, TAN_SCALE, &Axis::Z),
        Err(ConfigError::InvalidDimensions)
    );
    assert_eq!(
        bb.pick_camera_position(100, 0, TAN_SCALE, &Axis::Z),
        Err(ConfigError::InvalidDimensions)
    );
}

#[test]
fn non_positive_field_of_view_is_rejected() {
    let bb = BoundingBox {
        x_min: 0,
        x_max: 10,
        y_min: 0,
        y_max: 10,
        z_min: 0,
        z_max: 10,
    };
    assert_eq!(
        bb.pick_camera_position(100, 100, 0, &Axis::Z),
        Err(ConfigError::InvalidFieldOfView)
    );
    assert_eq!(
        bb.pick_camera_position(100, 100, -5, &Axis::Y),
        Err(ConfigError::InvalidFieldOfView)
    );
}

#[test]
fn light_sits_off_every_camera_axis() {
    let mesh = box_mesh(0, 4000, 0, 2000, 0, 1000);
    let bb = BoundingBox::new(&mesh);
    for axis in [Axis::X, Axis::Y, Axis::Z] {
        let light = bb.pick_light_position(&axis);
        let expected = 4000 + LIGHT_OFFSET;
        assert_eq!(light.position, v(expected, expected, expected));
        assert_eq!(
            light.color,
            LightColor {
                red: 255,
                green: 255,
                blue: 255,
            }
        );
        // Not collinear with the camera axis through the origin: the two
        // components orthogonal to the axis are nonzero.
        match axis {
            Axis::X => assert!(light.position.y != 0 || light.position.z != 0),
            Axis::Y => assert!(light.position.x != 0 || light.position.z != 0),
            Axis::Z => assert!(light.position.x != 0 || light.position.y != 0),
        }
    }
}

#[test]
fn camera_travels_along_the_chosen_axis() {
    // A slab thin along x: looking down x exposes by far the largest
    // cross-section.
    let mesh = box_mesh(0, 100, 0, 4_000_000, 0, 2_000_000);
    let bb = BoundingBox::new(&mesh);
    let axis = bb.largest_cross_section_axis();
    assert_eq!(axis, Axis::X);
    let cam = bb
        .pick_camera_position(100, 100, TAN_SCALE, &axis)
        .expect("valid configuration");
    // Vertical binds: ceil(4e6 * 1e6 / 2e6) + ceil(100/2) = 2000050, then
    // the margin of an eighth plus two.
    assert_eq!(cam.distance, 2_000_050 + 250_006 + 2);
    assert_eq!(cam.position, v(cam.distance, 0, 0));
    assert_eq!(cam.target, v(0, 0, 0));
}

#[test]
fn bounding_volume_reads_vertex_positions_only() {
    // An extreme normal vector must not widen the volume.
    let mesh = Mesh {
        triangles: vec![Triangle {
            a: v(1, 2, 3),
            b: v(4, 5, 6),
            c: v(7, 8, 9),
            normal: v(1_000_000, -1_000_000, 1_000_000),
        }],
    };
    let bb = BoundingBox::new(&mesh);
    assert_eq!(
        bb,
        BoundingBox {
            x_min: 1,
            x_max: 7,
            y_min: 2,
            y_max: 8,
            z_min: 3,
            z_max: 9,
        }
    );
}

#[test]
fn line_shaped_volume_still_gets_bracketing_clip_planes() {
    // A segment along z: no extent across the view axis at all.
    let mesh = box_mesh(0, 0, 0, 0, 0, 1000);
    let bb = BoundingBox::new(&mesh);
    let axis = bb.largest_cross_section_axis();
    assert_eq!(axis, Axis::Z);
    let cam = bb
        .pick_camera_position(64, 64, TAN_SCALE, &axis)
        .expect("valid configuration");
    assert_eq!(cam.distance, MIN_CAMERA_DISTANCE);
    assert!(0 < cam.znear);
    assert!(2 * cam.znear < 2 * cam.distance - 1000);
    assert!(2 * cam.zfar > 2 * cam.distance + 1000);
}
