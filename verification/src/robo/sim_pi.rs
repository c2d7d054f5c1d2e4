use crate::robo::grid::{build_grid, grid_fits, grid_for, grid_view, wall_points};
use crate::robo::{
    clamp_velo, listable, sawtooth_step, Pose, RawReading, RobotAccess, RobotState, Sensor,
    WHEEL_VELO_MAX, WHEEL_VELO_MIN,
};
use crate::world::Point;
use vstd::prelude::*;

verus! {

/// What a cell of the occupancy grid holds.
#[derive(Debug, Clone, Copy, PartialEq, Eq, Structural)]
pub enum PositionType {
    Wall,
    Empty,
}

/// A robot that exists in software only. Its sensor reads a sawtooth.
#[derive(Debug)]
pub struct MyPiSim {
    v: i64,
    max_range: i64,
    map: Vec<Vec<PositionType>>,
    robot_position: Pose,
    max_velo: i64,
    min_velo: i64,
    velo_left: i64,
    velo_rigth: i64,
}

impl MyPiSim {
    /// A simulated robot at rest at the origin, its sawtooth at zero, with
    /// the grid for `map`.
    pub fn new(max_range: i64, map: Vec<Point>) -> (sim: Self)
        requires
            grid_fits(map@),
        ensures
            sim.state() == (RobotState {
                sensor: Sensor::Synthetic { level: 0 },
                max_range,
                map: grid_for(map@),
                position: Pose { x: 0, y: 0, heading: 0 },
                velo_max: WHEEL_VELO_MAX,
                velo_min: WHEEL_VELO_MIN,
                velo: (0, 0),
            }),
            listable(sim.state()),
    {
        let mut t = MyPiSim {
            v: 0,
            max_range,
            map: Vec::new(),
            robot_position: Pose { x: 0, y: 0, heading: 0 },
            max_velo: WHEEL_VELO_MAX,
            min_velo: WHEEL_VELO_MIN,
            velo_left: 0,
            velo_rigth: 0,
        };
        t.set_map(map);
        t
    }
}

impl RobotAccess for MyPiSim {
    closed spec fn state(&self) -> RobotState {
        RobotState {
            sensor: Sensor::Synthetic { level: self.v },
            max_range: self.max_range,
            map: grid_view(self.map@),
            position: self.robot_position,
            velo_max: self.max_velo,
            velo_min: self.min_velo,
            velo: (self.velo_left, self.velo_rigth),
        }
    }

    fn start_hcsr04_dist(&mut self) -> (drive: bool) {
        false
    }

    fn get_hcsr04_dist(&mut self, raw: RawReading) -> (out: RawReading) {
        self.v = sawtooth_step(self.v, self.max_range);
        Ok(Some(self.v))
    }

    fn activity_output(&self) -> (on: bool) {
        false
    }

    fn get_hcsr04_max_range(&self) -> (range: i64) {
        self.max_range
    }

    fn get_map(&self) -> (walls: Vec<Point>) {
        wall_points(&self.map)
    }

    fn set_map(&mut self, map: Vec<Point>) {
        self.map = build_grid(&map);
    }

    fn set_robot_position(&mut self, real_robot_position: Pose) {
        self.robot_position = real_robot_position;
    }

    fn robot_position(&self) -> (pose: Pose) {
        self.robot_position
    }

    fn wheel_velo_max(&self) -> (v: i64) {
        self.max_velo
    }

    fn wheel_velo_min(&self) -> (v: i64) {
        self.min_velo
    }

    fn set_wheel_velo(&mut self, left: i64, right: i64) {
        self.velo_left = clamp_velo(left, self.min_velo, self.max_velo);
        self.velo_rigth = clamp_velo(right, self.min_velo, self.max_velo);
    }

    fn get_wheel_velo(&self) -> (velo: (i64, i64)) {
        (self.velo_left, self.velo_rigth)
    }
}

} // verus!
