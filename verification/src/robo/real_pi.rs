use crate::robo::grid::{build_grid, grid_of, grid_view, wall_points};
use crate::robo::sim_pi::PositionType;
use crate::robo::{
    clamp_velo, listable, Pose, RawReading, RobotAccess, RobotState, Sensor, WHEEL_VELO_MAX,
    WHEEL_VELO_MIN,
};
use crate::world::Point;
use vstd::prelude::*;

verus! {

/// A physical robot: the pins its sensor and its activity output hang on,
/// and what the library keeps of it between two runs of the driver.
#[derive(Debug)]
pub struct MyPiReal {
    gpio_led: u8,
    gpio_us_trig: u8,
    gpio_us_echo: u8,
    activity: bool,
    max_range: i64,
    map: Vec<Vec<PositionType>>,
    robot_position: Pose,
    max_velo: i64,
    min_velo: i64,
    velo_left: i64,
    velo_rigth: i64,
}

impl MyPiReal {
    /// The pins of the activity output, of the sensor's trigger and of its echo.
    pub closed spec fn pins(&self) -> (u8, u8, u8) {
        (self.gpio_led, self.gpio_us_trig, self.gpio_us_echo)
    }

    /// A physical robot at rest at the origin, its activity output low,
    /// with no map.
    pub fn new(gpio_led: u8, gpio_us_trig: u8, gpio_us_echo: u8, max_range: i64) -> (pi: Self)
        ensures
            pi.pins() == (gpio_led, gpio_us_trig, gpio_us_echo),
            pi.state() == (RobotState {
                sensor: Sensor::Driven { active: false },
                max_range,
                map: grid_of(None, None),
                position: Pose { x: 0, y: 0, heading: 0 },
                velo_max: WHEEL_VELO_MAX,
                velo_min: WHEEL_VELO_MIN,
                velo: (0, 0),
            }),
            listable(pi.state()),
    {
        let pi = MyPiReal {
            gpio_led,
            gpio_us_trig,
            gpio_us_echo,
            activity: false,
            max_range,
            map: Vec::new(),
            robot_position: Pose { x: 0, y: 0, heading: 0 },
            max_velo: WHEEL_VELO_MAX,
            min_velo: WHEEL_VELO_MIN,
            velo_left: 0,
            velo_rigth: 0,
        };
        assert(grid_view(pi.map@) =~= grid_of(None, None));
        pi
    }

    /// The pins of the activity output, of the sensor's trigger and of its echo.
    pub fn gpio_pins(&self) -> (pins: (u8, u8, u8))
        ensures
            pins == self.pins(),
    {
        (self.gpio_led, self.gpio_us_trig, self.gpio_us_echo)
    }
}

impl RobotAccess for MyPiReal {
    closed spec fn state(&self) -> RobotState {
        RobotState {
            sensor: Sensor::Driven { active: self.activity },
            max_range: self.max_range,
            map: grid_view(self.map@),
            position: self.robot_position,
            velo_max: self.max_velo,
            velo_min: self.min_velo,
            velo: (self.velo_left, self.velo_rigth),
        }
    }

    fn start_hcsr04_dist(&mut self) -> (drive: bool) {
        self.activity = true;
        true
    }

    fn get_hcsr04_dist(&mut self, raw: RawReading) -> (out: RawReading) {
        match raw {
            Ok(Some(dist)) => {
                self.activity = false;
                Ok(Some(dist))
            },
            Ok(None) => {
                self.activity = false;
                Ok(None)
            },
            Err(fault) => {
                self.activity = false;
                Err(fault)
            },
        }
    }

    fn activity_output(&self) -> (on: bool) {
        self.activity
    }

    fn get_hcsr04_max_range(&self) -> (range: i64) {
        self.max_range
    }

    fn get_map(&self) -> (walls: Vec<Point>) {
        wall_points(&self.map)
    }

    fn set_map(&mut self, map: Vec<Point>) {
        self.map = build_grid(&map);
    }

    fn set_robot_position(&mut self, real_robot_position: Pose) {
        self.robot_position = real_robot_position;
    }

    fn robot_position(&self) -> (pose: Pose) {
        self.robot_position
    }

    fn wheel_velo_max(&self) -> (v: i64) {
        self.max_velo
    }

    fn wheel_velo_min(&self) -> (v: i64) {
        self.min_velo
    }

    fn set_wheel_velo(&mut self, left: i64, right: i64) {
        self.velo_left = clamp_velo(left, self.min_velo, self.max_velo);
        self.velo_rigth = clamp_velo(right, self.min_velo, self.max_velo);
    }

    fn get_wheel_velo(&self) -> (velo: (i64, i64)) {
        (self.velo_left, self.velo_rigth)
    }
}

} // verus!
