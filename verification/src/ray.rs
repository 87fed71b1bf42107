//! Ray casting: marching a ray through the map in fixed steps until it
//! meets a wall, leaves the map or reaches the maximum rendering depth.

use vstd::prelude::*;
use crate::camera::PlayerCamera;
use crate::fixed::{saturate, saturated, toward_zero};
use crate::grid::GridMap;
use crate::params::{
    FOV, MAP_HEIGHT, MAP_WIDTH, MAX_DEPTH_STEPS, STEPS_PER_CELL, UNITS_PER_CELL,
};
use crate::space::Space;

verus! {

/// The direction of a ray: the components of a unit vector, scaled by
/// `UNITS_PER_CELL`. For a ray at angle `a` they stand for `sin a` and
/// `cos a`.
#[derive(Clone, Copy, Debug, PartialEq, Eq, Structural)]
pub struct Ray {
    pub eye_x: i64,
    pub eye_y: i64,
}

/// The angle of the ray for column `column` of `column_count`, for a camera
/// that looks at `angle`: the columns divide the field of view evenly, from
/// half of it to the left of the heading.
pub open spec fn ray_angle_of(angle: int, column: int, column_count: int) -> int {
    angle - FOV / 2 + (column * FOV) / column_count
}

/// Computes the angle of the ray for one column, in microradians.
pub fn ray_angle(angle: i64, column: usize, column_count: usize) -> (a: i64)
    requires
        column < column_count,
    ensures
        a == saturated(ray_angle_of(angle as int, column as int, column_count as int)),
{
    assert(0 <= column * FOV == column * 897_598);
    let sweep: u128 = ((column as u128) * (FOV as u128)) / (column_count as u128);
    assert(sweep <= column * FOV) by (nonlinear_arith)
        requires
            sweep == (column * FOV) / (column_count as int),
            0 <= column * FOV,
            0 < column_count,
    ;
    saturate((angle as i128) - ((FOV / 2) as i128) + (sweep as i128))
}

/// Computes the angles of the rays for all columns of a screen, from the
/// leftmost to the rightmost.
pub fn ray_angles(player: &PlayerCamera, column_count: usize) -> (angles: Vec<i64>)
    ensures
        angles@.len() == column_count,
        forall|i: int|
            0 <= i < column_count ==> #[trigger] angles@[i] == saturated(
                ray_angle_of(player.angle as int, i, column_count as int),
            ),
{
    let mut angles: Vec<i64> = Vec::new();
    let mut i: usize = 0;
    while i < column_count
        invariant
            i <= column_count,
            angles@.len() == i,
            forall|j: int|
                0 <= j < i ==> #[trigger] angles@[j] == saturated(
                    ray_angle_of(player.angle as int, j, column_count as int),
                ),
        decreases column_count - i,
    {
        angles.push(ray_angle(player.angle, i, column_count));
        i += 1;
    }
    angles
}

/// The coordinate of the point that lies `k` steps from `from` in a
/// direction whose component along this axis is `eye`, as a multiple of the
/// `STEPS_PER_CELL`-th part of a position unit.
pub open spec fn scaled(from: int, eye: int, k: int) -> int {
    STEPS_PER_CELL * from + k * eye
}

/// The coordinate of the same point in whole cells: the exact coordinate
/// `from + eye * k / STEPS_PER_CELL`, rounded toward zero. A point less
/// than one cell below zero therefore counts as lying in cell 0.
pub open spec fn sample(from: int, eye: int, k: int) -> int {
    toward_zero(scaled(from, eye, k), STEPS_PER_CELL * UNITS_PER_CELL)
}

/// A pair of cell coordinates lies on the map.
pub open spec fn in_grid(cx: int, cy: int) -> bool {
    0 <= cx < MAP_WIDTH && 0 <= cy < MAP_HEIGHT
}

/// The ray's point at step `k` lies outside the map.
pub open spec fn leaves_grid(camera: PlayerCamera, ray: Ray, k: int) -> bool {
    !in_grid(
        sample(camera.x as int, ray.eye_x as int, k),
        sample(camera.y as int, ray.eye_y as int, k),
    )
}

/// The ray's point at step `k` lies in a wall cell of the map.
pub open spec fn meets_wall(
    grid: Seq<Seq<Space>>,
    camera: PlayerCamera,
    ray: Ray,
    k: int,
) -> bool {
    let cx = sample(camera.x as int, ray.eye_x as int, k);
    let cy = sample(camera.y as int, ray.eye_y as int, k);
    in_grid(cx, cy) && grid[cy][cx] == Space::Wall
}

/// The ray goes no further than step `k`: its point there lies outside the
/// map or in a wall.
pub open spec fn stops(grid: Seq<Seq<Space>>, camera: PlayerCamera, ray: Ray, k: int) -> bool {
    leaves_grid(camera, ray, k) || meets_wall(grid, camera, ray, k)
}

/// The distance, in steps, that a ray reports once it has passed the steps
/// before `k` without stopping: the maximum depth if it is reached or if
/// the ray leaves the map, the number of the step at which a wall is met
/// otherwise.
pub open spec fn march(grid: Seq<Seq<Space>>, camera: PlayerCamera, ray: Ray, k: int) -> int
    decreases MAX_DEPTH_STEPS - k,
{
    if k >= MAX_DEPTH_STEPS {
        MAX_DEPTH_STEPS as int
    } else if leaves_grid(camera, ray, k) {
        MAX_DEPTH_STEPS as int
    } else if meets_wall(grid, camera, ray, k) {
        k
    } else {
        march(grid, camera, ray, k + 1)
    }
}

/// The distance, in steps, from the camera to where the ray stops. The
/// first point examined is one step away from the camera.
pub open spec fn ray_distance(grid: Seq<Seq<Space>>, camera: PlayerCamera, ray: Ray) -> int {
    march(grid, camera, ray, 1)
}

/// The numerator of the exact coordinate after `k` steps, over the
/// denominator `STEPS_PER_CELL * UNITS_PER_CELL`.
fn scaled_position(from: i64, eye: i64, k: u32) -> (p: i128)
    requires
        k <= MAX_DEPTH_STEPS,
    ensures
        p == scaled(from as int, eye as int, k as int),
{
    assert(-160 * 0x8000_0000_0000_0000 <= k * eye <= 160 * 0x8000_0000_0000_0000)
        by (nonlinear_arith)
        requires
            0 <= k <= 160,
            -0x8000_0000_0000_0000 <= eye < 0x8000_0000_0000_0000,
    ;
    assert(STEPS_PER_CELL * from == 10 * from);
    (STEPS_PER_CELL as i128) * (from as i128) + (k as i128) * (eye as i128)
}

/// The cell coordinate of a scaled position, if it is one of the first
/// `limit` cells of its axis.
fn cell_index(p: i128, limit: usize) -> (c: Option<usize>)
    ensures
        c == if 0 <= toward_zero(p as int, STEPS_PER_CELL * UNITS_PER_CELL) < limit {
            Some(toward_zero(p as int, STEPS_PER_CELL * UNITS_PER_CELL) as usize)
        } else {
            None
        },
{
    assert(STEPS_PER_CELL * UNITS_PER_CELL == 10_000_000);
    let cell: i128 = p / ((STEPS_PER_CELL as i128) * (UNITS_PER_CELL as i128));
    if 0 <= cell && cell < limit as i128 {
        Some(cell as usize)
    } else {
        None
    }
}

impl GridMap {
    /// Casts one ray from the camera and reports the distance, in steps, at
    /// which it stops.
    pub fn cast_ray(&self, player: &PlayerCamera, ray: &Ray) -> (distance: u32)
        ensures
            distance == ray_distance(self@, *player, *ray),
            1 <= distance <= MAX_DEPTH_STEPS,
    {
        let mut k: u32 = 1;
        while k < MAX_DEPTH_STEPS
            invariant
                1 <= k <= MAX_DEPTH_STEPS,
                march(self@, *player, *ray, k as int) == ray_distance(self@, *player, *ray),
            decreases MAX_DEPTH_STEPS - k,
        {
            let test_x = cell_index(scaled_position(player.x, ray.eye_x, k), MAP_WIDTH);
            let test_y = cell_index(scaled_position(player.y, ray.eye_y, k), MAP_HEIGHT);
            match (test_x, test_y) {
                (Some(cx), Some(cy)) => {
                    if self.cell_at(cx, cy) == Space::Wall {
                        return k;
                    }
                },
                _ => {
                    return MAX_DEPTH_STEPS;
                },
            }
            k += 1;
        }
        MAX_DEPTH_STEPS
    }

    /// Casts one ray per entry of `rays` from the camera and reports the
    /// distances in the same order.
    pub fn get_distances(&self, player: &PlayerCamera, rays: &Vec<Ray>) -> (distances: Vec<u32>)
        ensures
            distances@.len() == rays@.len(),
            forall|i: int|
                0 <= i < rays@.len() ==> #[trigger] distances@[i] == ray_distance(
                    self@,
                    *player,
                    rays@[i],
                ),
    {
        let mut distances: Vec<u32> = Vec::new();
        let mut i: usize = 0;
        while i < rays.len()
            invariant
                i <= rays@.len(),
                distances@.len() == i,
                forall|j: int|
                    0 <= j < i ==> #[trigger] distances@[j] == ray_distance(
                        self@,
                        *player,
                        rays@[j],
                    ),
            decreases rays@.len() - i,
        {
            distances.push(self.cast_ray(player, &rays[i]));
            i += 1;
        }
        distances
    }
}

/// A reported distance is at least one step and at most the maximum depth.
pub proof fn lemma_distance_bounds(grid: Seq<Seq<Space>>, camera: PlayerCamera, ray: Ray)
    ensures
        1 <= ray_distance(grid, camera, ray) <= MAX_DEPTH_STEPS,
{
    lemma_march_bounds(grid, camera, ray, 1);
}

proof fn lemma_march_bounds(grid: Seq<Seq<Space>>, camera: PlayerCamera, ray: Ray, k: int)
    requires
        k <= MAX_DEPTH_STEPS,
    ensures
        k <= march(grid, camera, ray, k) <= MAX_DEPTH_STEPS,
    decreases MAX_DEPTH_STEPS - k,
{
    if k < MAX_DEPTH_STEPS && !stops(grid, camera, ray, k) {
        lemma_march_bounds(grid, camera, ray, k + 1);
    }
}

/// Steps at which the ray does not stop do not change what it reports.
proof fn lemma_march_skips(grid: Seq<Seq<Space>>, camera: PlayerCamera, ray: Ray, k: int, n: int)
    requires
        k <= n,
        forall|j: int| k <= j < n ==> !#[trigger] stops(grid, camera, ray, j),
    ensures
        march(grid, camera, ray, k) == march(grid, camera, ray, n),
    decreases n - k,
{
    if k < n {
        lemma_march_skips(grid, camera, ray, k + 1, n);
        assert(!stops(grid, camera, ray, k));
    }
}

/// A ray that meets a wall at step `n`, within the maximum depth, and does
/// not stop before, reports `n`.
pub proof fn lemma_wall_hit(grid: Seq<Seq<Space>>, camera: PlayerCamera, ray: Ray, n: int)
    requires
        1 <= n <= MAX_DEPTH_STEPS,
        meets_wall(grid, camera, ray, n),
        forall|j: int| 1 <= j < n ==> !#[trigger] stops(grid, camera, ray, j),
    ensures
        ray_distance(grid, camera, ray) == n,
{
    lemma_march_skips(grid, camera, ray, 1, n);
}

/// A ray that meets no wall before it leaves the map reports the maximum
/// depth, wherever it leaves.
pub proof fn lemma_leaving_ray_reports_max_depth(
    grid: Seq<Seq<Space>>,
    camera: PlayerCamera,
    ray: Ray,
    n: int,
)
    requires
        1 <= n,
        leaves_grid(camera, ray, n),
        forall|j: int| 1 <= j < n ==> !#[trigger] meets_wall(grid, camera, ray, j),
    ensures
        ray_distance(grid, camera, ray) == MAX_DEPTH_STEPS,
{
    lemma_march_without_wall(grid, camera, ray, 1, n);
}

/// A ray that meets no wall within the maximum depth reports the maximum
/// depth.
pub proof fn lemma_open_ray_reports_max_depth(
    grid: Seq<Seq<Space>>,
    camera: PlayerCamera,
    ray: Ray,
)
    requires
        forall|j: int|
            1 <= j < MAX_DEPTH_STEPS ==> !#[trigger] meets_wall(grid, camera, ray, j),
    ensures
        ray_distance(grid, camera, ray) == MAX_DEPTH_STEPS,
{
    lemma_march_without_wall(grid, camera, ray, 1, MAX_DEPTH_STEPS as int);
}

proof fn lemma_march_without_wall(
    grid: Seq<Seq<Space>>,
    camera: PlayerCamera,
    ray: Ray,
    k: int,
    n: int,
)
    requires
        k <= n,
        n >= MAX_DEPTH_STEPS || leaves_grid(camera, ray, n),
        forall|j: int| k <= j < n ==> !#[trigger] meets_wall(grid, camera, ray, j),
    ensures
        march(grid, camera, ray, k) == MAX_DEPTH_STEPS,
    decreases n - k,
{
    if k < MAX_DEPTH_STEPS && !leaves_grid(camera, ray, k) {
        assert(k < n);
        assert(!meets_wall(grid, camera, ray, k));
        lemma_march_without_wall(grid, camera, ray, k + 1, n);
    }
}

/// The second camera stands `j` whole steps further along the ray than the
/// first.
pub open spec fn advanced_by(from: PlayerCamera, to: PlayerCamera, ray: Ray, j: int) -> bool {
    &&& STEPS_PER_CELL * to.x == STEPS_PER_CELL * from.x + j * ray.eye_x
    &&& STEPS_PER_CELL * to.y == STEPS_PER_CELL * from.y + j * ray.eye_y
}

/// Moving the camera toward a wall shortens the distance: if a ray meets a
/// wall at step `n` and the camera moves `j` whole steps along that ray,
/// short of the wall and keeping the direction, the ray reports `n - j`.
pub proof fn lemma_advancing_shortens(
    grid: Seq<Seq<Space>>,
    far: PlayerCamera,
    near: PlayerCamera,
    ray: Ray,
    j: int,
    n: int,
)
    requires
        0 < j < n <= MAX_DEPTH_STEPS,
        advanced_by(far, near, ray, j),
        meets_wall(grid, far, ray, n),
        forall|i: int| 1 <= i < n ==> !#[trigger] stops(grid, far, ray, i),
    ensures
        ray_distance(grid, far, ray) == n,
        ray_distance(grid, near, ray) == n - j,
        ray_distance(grid, near, ray) < ray_distance(grid, far, ray),
{
    lemma_wall_hit(grid, far, ray, n);
    assert forall|i: int|
        stops(grid, near, ray, i) == stops(grid, far, ray, i + j) && meets_wall(
            grid,
            near,
            ray,
            i,
        ) == meets_wall(grid, far, ray, i + j) by {
        lemma_same_point(far.x as int, near.x as int, ray.eye_x as int, j, i);
        lemma_same_point(far.y as int, near.y as int, ray.eye_y as int, j, i);
    }
    assert forall|i: int| 1 <= i < n - j implies !#[trigger] stops(grid, near, ray, i) by {
        assert(!stops(grid, far, ray, i + j));
    }
    lemma_wall_hit(grid, near, ray, n - j);
}

/// Step `i` from a point that lies `j` steps along is step `i + j` from the
/// start.
proof fn lemma_same_point(from: int, to: int, eye: int, j: int, i: int)
    requires
        STEPS_PER_CELL * to == STEPS_PER_CELL * from + j * eye,
    ensures
        scaled(to, eye, i) == scaled(from, eye, i + j),
        sample(to, eye, i) == sample(from, eye, i + j),
{
    assert((i + j) * eye == i * eye + j * eye) by (nonlinear_arith);
}

/// One more step adds the direction's component once more.
proof fn lemma_one_step(from: int, eye: int, k: int)
    ensures
        scaled(from, eye, k) == scaled(from, eye, k - 1) + eye,
{
    assert(k * eye == (k - 1) * eye + eye) by (nonlinear_arith);
}

/// Every cell on the edge of the map is a wall.
pub open spec fn walled_in(grid: Seq<Seq<Space>>) -> bool {
    forall|x: int, y: int|
        in_grid(x, y) && (x == 0 || x == MAP_WIDTH - 1 || y == 0 || y == MAP_HEIGHT - 1)
            ==> #[trigger] grid[y][x] == Space::Wall
}

/// The camera stands in a cell that is not on the edge of the map.
pub open spec fn stands_inside(camera: PlayerCamera) -> bool {
    &&& UNITS_PER_CELL <= camera.x < (MAP_WIDTH - 1) * UNITS_PER_CELL
    &&& UNITS_PER_CELL <= camera.y < (MAP_HEIGHT - 1) * UNITS_PER_CELL
}

/// No component of the direction is longer than the unit.
pub open spec fn unit_bounded(ray: Ray) -> bool {
    &&& -UNITS_PER_CELL <= ray.eye_x <= UNITS_PER_CELL
    &&& -UNITS_PER_CELL <= ray.eye_y <= UNITS_PER_CELL
}

/// In a room with walls all around, a ray from a camera that stands inside
/// never leaves the map: it reports a distance of at least one step, and
/// one below the maximum depth only where it meets a wall.
pub proof fn lemma_enclosed_ray_stays_inside(
    grid: Seq<Seq<Space>>,
    camera: PlayerCamera,
    ray: Ray,
)
    requires
        walled_in(grid),
        stands_inside(camera),
        unit_bounded(ray),
    ensures
        1 <= ray_distance(grid, camera, ray) <= MAX_DEPTH_STEPS,
        forall|k: int|
            1 <= k <= ray_distance(grid, camera, ray) ==> !#[trigger] leaves_grid(camera, ray, k),
        ray_distance(grid, camera, ray) < MAX_DEPTH_STEPS ==> meets_wall(
            grid,
            camera,
            ray,
            ray_distance(grid, camera, ray),
        ),
{
    assert(STEPS_PER_CELL * UNITS_PER_CELL == 10_000_000);
    lemma_enclosed_march(grid, camera, ray, 1);
}

/// The ray's point at step `k` lies in a cell that is not on the edge.
spec fn point_inside(camera: PlayerCamera, ray: Ray, k: int) -> bool {
    let scale = STEPS_PER_CELL * UNITS_PER_CELL;
    &&& scale <= scaled(camera.x as int, ray.eye_x as int, k) < (MAP_WIDTH - 1) * scale
    &&& scale <= scaled(camera.y as int, ray.eye_y as int, k) < (MAP_HEIGHT - 1) * scale
}

proof fn lemma_enclosed_march(grid: Seq<Seq<Space>>, camera: PlayerCamera, ray: Ray, k: int)
    requires
        walled_in(grid),
        unit_bounded(ray),
        1 <= k <= MAX_DEPTH_STEPS,
        point_inside(camera, ray, k - 1),
    ensures
        k <= march(grid, camera, ray, k) <= MAX_DEPTH_STEPS,
        forall|i: int|
            k <= i <= march(grid, camera, ray, k) ==> !#[trigger] leaves_grid(camera, ray, i),
        march(grid, camera, ray, k) < MAX_DEPTH_STEPS ==> meets_wall(
            grid,
            camera,
            ray,
            march(grid, camera, ray, k),
        ),
    decreases MAX_DEPTH_STEPS - k,
{
    let scale = STEPS_PER_CELL * UNITS_PER_CELL;
    assert(scale == 10_000_000);
    let px = scaled(camera.x as int, ray.eye_x as int, k);
    let py = scaled(camera.y as int, ray.eye_y as int, k);
    lemma_one_step(camera.x as int, ray.eye_x as int, k);
    lemma_one_step(camera.y as int, ray.eye_y as int, k);
    let cx = sample(camera.x as int, ray.eye_x as int, k);
    let cy = sample(camera.y as int, ray.eye_y as int, k);
    assert(0 <= px < MAP_WIDTH * scale && 0 <= py < MAP_HEIGHT * scale);
    assert(in_grid(cx, cy));
    if k < MAX_DEPTH_STEPS && !meets_wall(grid, camera, ray, k) {
        assert(grid[cy][cx] != Space::Wall);
        lemma_enclosed_march(grid, camera, ray, k + 1);
    }
}

} // verus!
