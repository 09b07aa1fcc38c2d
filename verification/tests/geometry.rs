use pong_core::geometry::{bounce, collide_with_side, Side, Vec2};

fn v(x: i64, y: i64) -> Vec2 {
    Vec2 { x, y }
}

#[test]
fn separated_boxes_do_not_collide() {
    // Ball box ends at x = 235, paddle box starts at x = 245.
    assert_eq!(collide_with_side(v(230, 0), v(5, 5), v(250, 0), v(5, 25)), None);
    // Far above.
    assert_eq!(collide_with_side(v(250, 100), v(5, 5), v(250, 0), v(5, 25)), None);
}

#[test]
fn touching_counts_as_collision() {
    // Ball box ends at x = 245 exactly where the paddle box starts.
    assert_eq!(
        collide_with_side(v(240, 0), v(5, 5), v(250, 0), v(5, 25)),
        Some(Side::Left)
    );
}

#[test]
fn side_left_right_top_bottom() {
    let half_paddle = v(5, 25);
    let at = v(250, 0);
    assert_eq!(collide_with_side(v(242, 0), v(5, 5), at, half_paddle), Some(Side::Left));
    assert_eq!(collide_with_side(v(258, 0), v(5, 5), at, half_paddle), Some(Side::Right));
    assert_eq!(collide_with_side(v(250, 28), v(5, 5), at, half_paddle), Some(Side::Top));
    assert_eq!(collide_with_side(v(250, -28), v(5, 5), at, half_paddle), Some(Side::Bottom));
}

#[test]
fn tie_break_prefers_vertical_axis() {
    // Offsets of equal magnitude: the vertical axis wins, and the sign of
    // the vertical offset picks the face.
    assert_eq!(collide_with_side(v(28, 28), v(5, 5), v(0, 0), v(25, 25)), Some(Side::Top));
    assert_eq!(collide_with_side(v(28, -28), v(5, 5), v(0, 0), v(25, 25)), Some(Side::Bottom));
    // A strictly larger horizontal offset wins the horizontal axis.
    assert_eq!(collide_with_side(v(29, 28), v(5, 5), v(0, 0), v(25, 25)), Some(Side::Right));
    assert_eq!(collide_with_side(v(-29, 28), v(5, 5), v(0, 0), v(25, 25)), Some(Side::Left));
}

#[test]
fn center_inside_box_counts_as_bottom() {
    // Both offsets are zero: the rule reports Bottom.
    assert_eq!(collide_with_side(v(0, 0), v(5, 5), v(0, 0), v(25, 25)), Some(Side::Bottom));
}

#[test]
fn bounce_left_and_right_flip_x_only() {
    let vel = v(2, 3);
    assert_eq!(bounce(vel, Some(Side::Left)), v(-2, 3));
    assert_eq!(bounce(vel, Some(Side::Right)), v(-2, 3));
}

#[test]
fn bounce_top_and_bottom_flip_y_only() {
    let vel = v(2, 3);
    assert_eq!(bounce(vel, Some(Side::Top)), v(2, -3));
    assert_eq!(bounce(vel, Some(Side::Bottom)), v(2, -3));
}

#[test]
fn bounce_without_collision_changes_nothing() {
    let vel = v(2, 3);
    assert_eq!(bounce(vel, None), vel);
}

#[test]
fn repeated_resolution_after_separation_flips_nothing() {
    // A resolved ball that has moved past the overlap region yields no
    // verdict on the next call, so no repeated double-flip.
    let hit = collide_with_side(v(240, 0), v(5, 5), v(250, 0), v(5, 25));
    assert_eq!(hit, Some(Side::Left));
    let vel = bounce(v(2, 0), hit);
    assert_eq!(vel, v(-2, 0));
    let again = collide_with_side(v(238, 0), v(5, 5), v(250, 0), v(5, 25));
    assert_eq!(again, None);
    assert_eq!(bounce(vel, again), vel);
}
