use backrooms::camera::{exit_side, march_step, Heading, MarchStep, RaycastableWorld};
use backrooms::util::Direction;
use backrooms::world::{ArrayWorld, Grid};
use cgmath::{vec2, MetricSpace, Vector2};
use std::sync::Arc;

#[derive(Debug, Clone)]
struct RaycastHit {
    hit_pos: Vector2<f32>,
    wall: Vector2<usize>,
    wall_side: Direction,
}

fn heading(c: f32) -> Heading {
    Heading::from_comparisons(c > 0.0, c == 0.0)
}

/// Raycast to the edge of the box bounded by points (0, 0) and (1, 1).
fn raycast_in_box(pos: Vector2<f32>, ray: Vector2<f32>) -> (Vector2<f32>, Direction) {
    let (hx, hy) = (heading(ray.x), heading(ray.y));
    if hx == Heading::Zero && hy == Heading::Zero {
        panic!("Cannot raycast with zero-valued ray");
    }
    let (flip_x, flip_y) = (hx == Heading::Positive, hy == Heading::Positive);
    let p = vec2(
        if flip_x { 1.0 - pos.x } else { pos.x },
        if flip_y { 1.0 - pos.y } else { pos.y },
    );
    let r = vec2(if flip_x { -ray.x } else { ray.x }, if flip_y { -ray.y } else { ray.y });

    let (o, vertical_first) = if hx == Heading::Zero {
        (vec2(p.x, 0.0), false)
    } else if hy == Heading::Zero {
        (vec2(0.0, p.y), true)
    } else {
        let x_int = p.x - (r.x / r.y) * p.y;
        let y_int = p.y - (r.y / r.x) * p.x;
        if x_int < 0.0 {
            (vec2(0.0, y_int), true)
        } else {
            (vec2(x_int, 0.0), false)
        }
    };

    let side = exit_side(hx, hy, vertical_first);
    (
        vec2(if flip_x { 1.0 - o.x } else { o.x }, if flip_y { 1.0 - o.y } else { o.y }),
        side,
    )
}

fn raycast(
    world: impl RaycastableWorld,
    pos: Vector2<f32>,
    ray: Vector2<f32>,
    max_dist: f32,
) -> Option<RaycastHit> {
    let max_dist_2 = max_dist * max_dist;

    let mut march_pos = pos;
    let mut this_grid = march_pos.map(|x| x.floor()).cast::<isize>().unwrap();

    loop {
        if march_pos.distance2(pos) > max_dist_2 {
            return None;
        }

        let box_offset = this_grid.cast().unwrap();
        let box_pos = march_pos - box_offset;
        let (box_hit_pos, outgoing_dir) = raycast_in_box(box_pos, ray);
        let hit_pos = box_hit_pos + box_offset;

        match march_step(&world, (this_grid.x, this_grid.y), outgoing_dir) {
            MarchStep::Hit { wall, wall_side } => {
                return Some(RaycastHit { hit_pos, wall: vec2(wall.0, wall.1), wall_side });
            }
            MarchStep::Advance { cell } => {
                march_pos = hit_pos;
                this_grid = vec2(cell.0, cell.1);
            }
        }
    }
}

fn world_of(rows: &[[u8; 9]]) -> ArrayWorld {
    let cells: Vec<bool> = rows.iter().flat_map(|row| row.iter().map(|x| *x != 0)).collect();
    ArrayWorld::from(Grid::from_shape_vec(rows.len(), 9, cells).unwrap())
}

fn example_world() -> ArrayWorld {
    world_of(&[
        [1, 1, 3, 1, 1, 1, 1, 1, 1],
        [3, 0, 0, 0, 0, 0, 0, 0, 2],
        [1, 0, 0, 0, 0, 0, 0, 0, 1],
        [2, 0, 0, 0, 0, 0, 3, 0, 1],
        [1, 0, 0, 0, 0, 0, 0, 0, 1],
        [1, 2, 1, 1, 1, 1, 1, 2, 1],
    ])
}

fn empty_world() -> ArrayWorld {
    world_of(&[[0; 9]; 6])
}

fn ulps_eq(a: f32, b: f32) -> bool {
    if (a - b).abs() <= f32::EPSILON {
        return true;
    }
    if a.is_sign_negative() != b.is_sign_negative() {
        return false;
    }
    (a.to_bits() as i64 - b.to_bits() as i64).abs() <= 4
}

fn assert_point(actual: Vector2<f32>, expected: Vector2<f32>) {
    assert!(
        ulps_eq(actual.x, expected.x) && ulps_eq(actual.y, expected.y),
        "{actual:?} is not {expected:?}"
    );
}

fn check_in_box(pos: Vector2<f32>, ray: Vector2<f32>, expected: (Vector2<f32>, Direction)) {
    let (hit, dir) = raycast_in_box(pos, ray);

    assert_eq!(dir, expected.1);
    assert_point(hit, expected.0);
}

#[test]
fn raycast_in_box_leftwards() {
    check_in_box(vec2(0.75, 0.5), vec2(-1.0, 0.0), (vec2(0.0, 0.5), Direction::West));
}

#[test]
fn raycast_in_box_downwards() {
    check_in_box(vec2(0.75, 0.5), vec2(0.0, -1.0), (vec2(0.75, 0.0), Direction::South));
}

#[test]
fn raycast_in_box_up_and_left() {
    check_in_box(vec2(0.5, 0.5), vec2(-1.0, 0.5), (vec2(0.0, 0.75), Direction::West));
}

#[test]
fn raycast_in_box_down_and_right() {
    check_in_box(vec2(0.25, 0.5), vec2(1.0, -0.25), (vec2(1.0, 0.3125), Direction::East));
}

#[test]
fn raycast_in_box_up_and_right() {
    check_in_box(vec2(0.5, 0.25), vec2(1.0, 1.0), (vec2(1.0, 0.75), Direction::East));
}

#[test]
fn raycast_in_box_into_the_corner() {
    check_in_box(vec2(0.5, 0.5), vec2(1.0, 1.0), (vec2(1.0, 1.0), Direction::North));
}

fn check_edge(ray: (Vector2<f32>, Vector2<f32>), expected: RaycastHit) {
    let (pos, ray) = ray;
    let world = example_world();

    let result = raycast(world, pos, ray, 100.0).unwrap();

    assert_eq!(result.wall_side, expected.wall_side);
    assert_eq!(result.wall, expected.wall);
    assert_point(result.hit_pos, expected.hit_pos);
}

#[test]
fn raycast_edge_along_an_axis() {
    check_edge(
        (vec2(2.5, 2.5), vec2(-1.0, 0.0)),
        RaycastHit { hit_pos: vec2(1.0, 2.5), wall: vec2(0, 2), wall_side: Direction::East },
    );
}

#[test]
fn raycast_edge_slanted() {
    check_edge(
        (vec2(1.05, 1.05), vec2(-0.5, -1.0)),
        RaycastHit { hit_pos: vec2(1.025, 1.0), wall: vec2(1, 0), wall_side: Direction::North },
    );
}

#[test]
fn raycast_edge_through_corners() {
    check_edge(
        (vec2(3.5, 3.5), vec2(-1.0, -1.0)),
        RaycastHit { hit_pos: vec2(1.0, 1.0), wall: vec2(1, 0), wall_side: Direction::North },
    );
}

#[test]
fn raycast_in_an_empty_world_finds_nothing() {
    let rays = [
        vec2(1.0, 0.0),
        vec2(0.0, 1.0),
        vec2(-1.0, 0.0),
        vec2(0.0, -1.0),
        vec2(0.3, -0.7),
        vec2(-2.0, 5.0),
        vec2(1.0, 1.0),
    ];
    for ray in rays {
        assert!(raycast(empty_world(), vec2(2.5, 2.5), ray, 20.0).is_none());
        assert!(raycast(empty_world(), vec2(-3.25, 7.5), ray, 0.0).is_none());
    }
}

#[test]
fn raycast_gives_up_beyond_the_budget() {
    assert!(raycast(example_world(), vec2(7.5, 2.5), vec2(-1.0, 0.0), 3.0).is_none());
    assert!(raycast(example_world(), vec2(7.5, 2.5), vec2(-1.0, 0.0), 7.0).is_some());
}

#[test]
fn raycast_twice_gives_the_same_hit() {
    let world = example_world();
    let first = raycast(&world, vec2(1.05, 1.05), vec2(-0.5, -1.0), 100.0).unwrap();
    let second = raycast(&world, vec2(1.05, 1.05), vec2(-0.5, -1.0), 100.0).unwrap();
    assert_eq!(first.hit_pos.x.to_bits(), second.hit_pos.x.to_bits());
    assert_eq!(first.hit_pos.y.to_bits(), second.hit_pos.y.to_bits());
    assert_eq!(first.wall, second.wall);
    assert_eq!(first.wall_side, second.wall_side);
}

#[test]
fn heading_from_comparisons() {
    assert_eq!(heading(2.5), Heading::Positive);
    assert_eq!(heading(0.0), Heading::Zero);
    assert_eq!(heading(-0.0), Heading::Zero);
    assert_eq!(heading(-1e-30), Heading::Negative);
    assert_eq!(heading(f32::NAN), Heading::Negative);
    assert_eq!(Heading::from_comparisons(true, true), Heading::Positive);
}

#[test]
fn exit_side_of_rays_along_an_axis() {
    for first in [false, true] {
        assert_eq!(exit_side(Heading::Zero, Heading::Positive, first), Direction::North);
        assert_eq!(exit_side(Heading::Zero, Heading::Negative, first), Direction::South);
        assert_eq!(exit_side(Heading::Positive, Heading::Zero, first), Direction::East);
        assert_eq!(exit_side(Heading::Negative, Heading::Zero, first), Direction::West);
    }
}

#[test]
fn exit_side_of_slanted_rays() {
    assert_eq!(exit_side(Heading::Positive, Heading::Positive, true), Direction::East);
    assert_eq!(exit_side(Heading::Positive, Heading::Positive, false), Direction::North);
    assert_eq!(exit_side(Heading::Negative, Heading::Positive, true), Direction::West);
    assert_eq!(exit_side(Heading::Negative, Heading::Positive, false), Direction::North);
    assert_eq!(exit_side(Heading::Positive, Heading::Negative, true), Direction::East);
    assert_eq!(exit_side(Heading::Positive, Heading::Negative, false), Direction::South);
    assert_eq!(exit_side(Heading::Negative, Heading::Negative, true), Direction::West);
    assert_eq!(exit_side(Heading::Negative, Heading::Negative, false), Direction::South);
}

#[test]
fn mirrored_ray_leaves_through_the_mirrored_side() {
    let cases = [
        (vec2(0.25f32, 0.5f32), vec2(1.0f32, -0.25f32)),
        (vec2(0.5, 0.25), vec2(1.0, 1.0)),
        (vec2(0.75, 0.5), vec2(-1.0, 0.0)),
        (vec2(0.5, 0.5), vec2(-1.0, 0.5)),
        (vec2(0.75, 0.5), vec2(0.0, -1.0)),
    ];
    for (pos, ray) in cases {
        let (hit, side) = raycast_in_box(pos, ray);
        let (hit_lr, side_lr) = raycast_in_box(vec2(1.0 - pos.x, pos.y), vec2(-ray.x, ray.y));
        assert_eq!(side_lr, side.reflect_lr());
        assert_point(hit_lr, vec2(1.0 - hit.x, hit.y));
        let (hit_ud, side_ud) = raycast_in_box(vec2(pos.x, 1.0 - pos.y), vec2(ray.x, -ray.y));
        assert_eq!(side_ud, side.reflect_ud());
        assert_point(hit_ud, vec2(hit.x, 1.0 - hit.y));
    }
}

#[test]
fn march_step_hits_a_wall_from_the_side_it_came() {
    let world = example_world();
    assert_eq!(
        march_step(&world, (1, 2), Direction::West),
        MarchStep::Hit { wall: (0, 2), wall_side: Direction::East }
    );
    assert_eq!(
        march_step(&world, (1, 1), Direction::South),
        MarchStep::Hit { wall: (1, 0), wall_side: Direction::North }
    );
    assert_eq!(
        march_step(&world, (7, 4), Direction::North),
        MarchStep::Hit { wall: (7, 5), wall_side: Direction::South }
    );
    assert_eq!(
        march_step(&world, (7, 4), Direction::East),
        MarchStep::Hit { wall: (8, 4), wall_side: Direction::West }
    );
}

#[test]
fn march_step_advances_into_an_empty_cell() {
    let world = example_world();
    assert_eq!(march_step(&world, (2, 2), Direction::West), MarchStep::Advance { cell: (1, 2) });
    assert_eq!(march_step(&world, (2, 2), Direction::North), MarchStep::Advance { cell: (2, 3) });
}

#[test]
fn march_step_leaves_the_stored_grid() {
    let world = example_world();
    assert_eq!(march_step(&world, (0, 0), Direction::West), MarchStep::Advance { cell: (-1, 0) });
    assert_eq!(march_step(&world, (0, 0), Direction::South), MarchStep::Advance { cell: (0, -1) });
    assert_eq!(march_step(&world, (8, 5), Direction::East), MarchStep::Advance { cell: (9, 5) });
    assert_eq!(march_step(&world, (8, 5), Direction::North), MarchStep::Advance { cell: (8, 6) });
    assert_eq!(
        march_step(&world, (-1, 0), Direction::East),
        MarchStep::Hit { wall: (0, 0), wall_side: Direction::West }
    );
}

#[test]
fn march_step_never_hits_in_an_empty_world() {
    let world = empty_world();
    for x in -2..11 {
        for y in -2..8 {
            for side in [Direction::East, Direction::North, Direction::West, Direction::South] {
                let (dx, dy) = side.to_unit_vector();
                assert_eq!(
                    march_step(&world, (x, y), side),
                    MarchStep::Advance { cell: (x + dx, y + dy) }
                );
            }
        }
    }
}

#[test]
fn worlds_behind_pointers_answer_alike() {
    let world = example_world();
    let by_ref: &ArrayWorld = &world;
    let boxed: Box<ArrayWorld> = Box::new(world.clone());
    let shared: Arc<ArrayWorld> = Arc::new(world.clone());
    for x in -1..10 {
        for y in -1..7 {
            let here = world.exists_at((x, y));
            assert_eq!(by_ref.exists_at((x, y)), here);
            assert_eq!(boxed.exists_at((x, y)), here);
            assert_eq!(shared.exists_at((x, y)), here);
        }
    }
}

#[test]
fn raycast_in_box_ends_on_the_boundary() {
    let positions = [vec2(0.5f32, 0.5f32), vec2(0.25, 0.75), vec2(0.0, 0.5), vec2(0.875, 0.125)];
    let rays = [
        vec2(1.0f32, 0.0f32),
        vec2(0.0, 1.0),
        vec2(-1.0, 0.0),
        vec2(0.0, -1.0),
        vec2(1.0, 0.5),
        vec2(-0.25, 1.0),
        vec2(-1.0, -0.125),
        vec2(0.5, -2.0),
    ];
    for pos in positions {
        for ray in rays {
            let (hit, side) = raycast_in_box(pos, ray);
            assert!((0.0..=1.0).contains(&hit.x) && (0.0..=1.0).contains(&hit.y));
            match side {
                Direction::East => assert_eq!(hit.x, 1.0),
                Direction::West => assert_eq!(hit.x, 0.0),
                Direction::North => assert_eq!(hit.y, 1.0),
                Direction::South => assert_eq!(hit.y, 0.0),
            }
            let (dx, dy) = side.to_unit_vector();
            assert!(dx as f32 * ray.x + dy as f32 * ray.y > 0.0);
        }
    }
}
