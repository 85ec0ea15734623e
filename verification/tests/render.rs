use ascii_cube::angles::Angles;
use ascii_cube::frame::Renderer;
use ascii_cube::params::{BACKGROUND_GLYPH, CAMERA_DISTANCE, HEIGHT, SCALE, WIDTH};
use ascii_cube::project::project;
use ascii_cube::transform::{calculate_x, calculate_y, calculate_z, Trig};

#[test]
fn zero_angles_leave_the_axes_fixed() {
    let an = Angles::new();
    let t = Trig::from_angles(&an);
    assert_eq!(
        t,
        Trig { sin_a: 0, cos_a: SCALE, sin_b: 0, cos_b: SCALE, sin_c: 0, cos_c: SCALE }
    );
    // the rotation is the identity
    assert_eq!(calculate_x(300, -200, 4096, &t), 300);
    assert_eq!(calculate_y(300, -200, 4096, &t), -200);
    assert_eq!(calculate_z(300, -200, 4096, &t), 4096);
}

#[test]
fn a_centred_point_projects_to_the_buffer_centre() {
    // the point (0, 0, -16) in world units, under zero rotation, 100 units
    // in front of the camera: depth 84 units, so ooz is 1/84 in ticks
    let an = Angles::new();
    let t = Trig::from_angles(&an);
    let x = calculate_x(0, 0, -16 * SCALE, &t);
    let y = calculate_y(0, 0, -16 * SCALE, &t);
    let z = calculate_z(0, 0, -16 * SCALE, &t) + CAMERA_DISTANCE;
    assert_eq!((x, y), (0, 0));
    assert_eq!(z, 84 * SCALE);
    let sp = project(x, y, z).unwrap();
    assert_eq!(sp.x, (WIDTH / 2) as i64);
    assert_eq!(sp.y, (HEIGHT / 2) as i64);
    assert_eq!(sp.ooz, 1048576 / 84);
    assert_eq!(sp.ooz, 12483);
}

#[test]
fn a_point_behind_the_camera_is_discarded() {
    assert!(project(0, 0, 0).is_none());
    assert!(project(100, 100, -5).is_none());
    assert!(project(0, 0, 1).is_some());
}

#[test]
fn two_fresh_renderers_draw_byte_identical_frames() {
    let mut r1 = Renderer::new();
    let mut r2 = Renderer::new();
    // leftovers on the canvas do not leak into the next frame
    r2.canvas.plot(30, 13, 999999, '@');
    r1.render_frame();
    r2.render_frame();
    assert_eq!(r1.angles, r2.angles);
    assert_eq!(r1.canvas.glyphs, r2.canvas.glyphs);
    assert_eq!(r1.canvas.depth, r2.canvas.depth);
}

#[test]
fn rendering_twice_without_advancing_repeats_the_frame() {
    let mut r = Renderer::new();
    r.render_frame();
    let first = r.canvas.glyphs.clone();
    r.render_frame();
    assert_eq!(r.canvas.glyphs, first);
}

#[test]
fn the_face_toward_the_camera_covers_the_centre() {
    // under zero rotation the near face (glyph '.') sits at depth 84 units,
    // and its sample nearest the axis lands on the centre cell
    let mut r = Renderer::new();
    r.render_frame();
    assert_eq!(r.canvas.glyph_at(30, 13), '.');
    assert_eq!(r.canvas.depth_at(30, 13), 12483);
    let drawn = r.canvas.glyphs.iter().filter(|&&g| g != BACKGROUND_GLYPH).count();
    assert_eq!(drawn, 465);
}

#[test]
fn advancing_turns_the_cube() {
    let mut r = Renderer::new();
    r.render_frame();
    let first = r.canvas.glyphs.clone();
    r.advance();
    assert_eq!((r.angles.a, r.angles.b, r.angles.c), (33, 33, 7));
    r.render_frame();
    assert_ne!(r.canvas.glyphs, first);
}

#[test]
fn a_frame_spans_exactly_the_screen() {
    let mut r = Renderer::new();
    r.render_frame();
    assert_eq!(r.canvas.glyphs.len(), WIDTH * HEIGHT);
    for y in 0..HEIGHT {
        assert_eq!(r.canvas.row_chars(y).len(), WIDTH);
    }
}
