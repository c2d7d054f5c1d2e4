use robo_monitor::world::{extent_of, MapView, Point, Rect, ScreenPoint, World};

fn p(x: i64, y: i64) -> Point {
    Point { x, y }
}

fn sp(x: i128, y: i128) -> ScreenPoint {
    ScreenPoint { x, y }
}

#[test]
fn empty_world_has_no_box() {
    let world = World::new("none", None, vec![]);
    assert_eq!(world.min, None);
    assert_eq!(world.max, None);
    assert!(!world.is_scalable());
    assert!(world.map_view(Rect { x: 0, y: 0, width: 10, height: 10 }).is_none());
}

#[test]
fn box_of_three_points_and_after_removal() {
    let mut world = World::new("w", None, vec![p(1, 2), p(5, 2), p(1, 9)]);
    assert_eq!(world.min, Some(p(1, 2)));
    assert_eq!(world.max, Some(p(5, 9)));
    world.remove_wall_point(p(5, 2));
    assert_eq!(world.wall_list, vec![p(1, 2), p(1, 9)]);
    assert_eq!(world.min, Some(p(1, 2)));
    assert_eq!(world.max, Some(p(1, 9)));
    assert_eq!(world.name, "w");
}

#[test]
fn box_is_absent_exactly_for_no_points() {
    let mut world = World::new("w", Some(p(3, 3)), vec![]);
    assert!(world.min.is_none() && world.max.is_none());
    world.add_wall_point(p(-4, 8));
    assert_eq!(world.min, Some(p(-4, 8)));
    assert_eq!(world.max, Some(p(-4, 8)));
    assert!(!world.is_scalable());
    world.remove_wall_point(p(-4, 8));
    assert!(world.wall_list.is_empty());
    assert!(world.min.is_none() && world.max.is_none());
    assert_eq!(world.location, Some(p(3, 3)));
}

#[test]
fn corners_are_the_true_extrema() {
    let points = vec![p(3, -1), p(-7, 4), p(0, 0), p(12, 4), p(-7, -9), p(5, 5)];
    let world = World::new("w", None, points.clone());
    let lo = world.min.unwrap();
    let hi = world.max.unwrap();
    assert_eq!(lo.x, points.iter().map(|q| q.x).min().unwrap());
    assert_eq!(lo.y, points.iter().map(|q| q.y).min().unwrap());
    assert_eq!(hi.x, points.iter().map(|q| q.x).max().unwrap());
    assert_eq!(hi.y, points.iter().map(|q| q.y).max().unwrap());
    assert_eq!((lo, hi), (p(-7, -9), p(12, 5)));
    assert_eq!(extent_of(&points), (Some(p(-7, -9)), Some(p(12, 5))));
}

#[test]
fn extent_of_extreme_coordinates() {
    let points = vec![p(i64::MAX, i64::MIN), p(i64::MIN, i64::MAX)];
    assert_eq!(
        extent_of(&points),
        (Some(p(i64::MIN, i64::MIN)), Some(p(i64::MAX, i64::MAX)))
    );
    assert_eq!(extent_of(&vec![]), (None, None));
}

#[test]
fn add_appends_and_widens_the_box() {
    let mut world = World::new("w", None, vec![p(0, 0), p(2, 2)]);
    world.add_wall_point(p(-1, 5));
    assert_eq!(world.wall_list, vec![p(0, 0), p(2, 2), p(-1, 5)]);
    assert_eq!(world.min, Some(p(-1, 0)));
    assert_eq!(world.max, Some(p(2, 5)));
}

#[test]
fn remove_takes_every_equal_point_and_keeps_order() {
    let mut world = World::new("w", None, vec![p(1, 1), p(2, 2), p(1, 1), p(3, 3), p(1, 1)]);
    world.remove_wall_point(p(1, 1));
    assert_eq!(world.wall_list, vec![p(2, 2), p(3, 3)]);
    assert_eq!(world.min, Some(p(2, 2)));
    assert_eq!(world.max, Some(p(3, 3)));
}

#[test]
fn remove_of_a_missing_point_changes_nothing() {
    let mut world = World::new("w", None, vec![p(1, 1), p(2, 2)]);
    world.remove_wall_point(p(1, 2));
    assert_eq!(world.wall_list, vec![p(1, 1), p(2, 2)]);
    assert_eq!(world.min, Some(p(1, 1)));
    assert_eq!(world.max, Some(p(2, 2)));
}

#[test]
fn corners_map_to_the_corners_of_the_area() {
    let world = World::new("w", None, vec![p(1, 2), p(5, 2), p(1, 9)]);
    let area = Rect { x: 10, y: 20, width: 80, height: 40 };
    assert!(world.is_scalable());
    assert_eq!(world.normalize(world.min.unwrap(), area), sp(10, 20));
    assert_eq!(world.normalize(world.max.unwrap(), area), sp(90, 60));
}

#[test]
fn normalize_exact_values() {
    let world = World::new("w", None, vec![p(0, 0), p(4, 10)]);
    let area = Rect { x: 1, y: 2, width: 8, height: 5 };
    assert_eq!(world.normalize(p(1, 1), area), sp(3, 2));
    assert_eq!(world.normalize(p(2, 5), area), sp(5, 4));
    assert_eq!(world.normalize(p(3, 9), area), sp(7, 6));
    assert_eq!(world.normalize(p(8, 20), area), sp(17, 12));
    assert_eq!(world.normalize(p(-1, -1), area), sp(-1, 1));
    assert_eq!(world.normalize(p(-1, -3), area), sp(-1, 0));
}

#[test]
fn normalize_far_outside_the_box() {
    let world = World::new("w", None, vec![p(i64::MIN, 0), p(i64::MIN + 1, 1)]);
    let area = Rect { x: u16::MAX, y: 0, width: u16::MAX, height: 1 };
    let out = world.normalize(p(i64::MAX, 0), area);
    assert_eq!(out.x, 65535 + 65535 * (u64::MAX as i128));
    assert_eq!(out.y, 0);
    let wide = World::new("w", None, vec![p(i64::MIN, i64::MIN), p(i64::MAX, i64::MAX)]);
    assert_eq!(wide.normalize(p(i64::MAX, i64::MIN), area), sp(65535 + 65535, 0));
    assert_eq!(wide.normalize(p(-1, -1), area), sp(65535 + 32767, 0));
}

#[test]
fn map_view_scales_agent_and_walls() {
    let world = World::new("w", Some(p(3, 5)), vec![p(1, 2), p(5, 2), p(1, 9)]);
    let area = Rect { x: 0, y: 0, width: 40, height: 70 };
    let MapView { location, walls } = world.map_view(area).unwrap();
    assert_eq!(location, Some(sp(20, 30)));
    assert_eq!(walls, vec![sp(0, 0), sp(40, 0), sp(0, 70)]);
}

#[test]
fn map_view_of_a_flat_box_is_absent() {
    let line = World::new("w", Some(p(0, 0)), vec![p(1, 2), p(5, 2)]);
    assert!(!line.is_scalable());
    assert!(line.map_view(Rect { x: 0, y: 0, width: 4, height: 4 }).is_none());
    let column = World::new("w", None, vec![p(1, 2), p(1, 7)]);
    assert!(!column.is_scalable());
}

#[test]
fn update_min_max_repairs_a_stale_box() {
    let mut world = World::new("w", None, vec![p(0, 0), p(9, 9)]);
    world.wall_list.push(p(20, -3));
    world.update_min_max();
    assert_eq!(world.min, Some(p(0, -3)));
    assert_eq!(world.max, Some(p(20, 9)));
}
