use crate::robo::grid::{grid_fits, grid_for, grid_listable, grid_walls, Grid};
use crate::robo::real_pi::MyPiReal;
use crate::robo::sim_pi::MyPiSim;
use crate::world::Point;
use vstd::prelude::*;

pub mod grid;
pub mod real_pi;
pub mod sim_pi;

verus! {

/// How many units of this library make one metre (or one metre per second).
pub const UNITS_PER_METRE: i64 = 1000;

/// What the simulated sensor's reading grows by from one measurement to the next.
pub const SIM_STEP: i64 = 200;

/// The fastest forward wheel velocity.
pub const WHEEL_VELO_MAX: i64 = 10_000;

/// The fastest backward wheel velocity.
pub const WHEEL_VELO_MIN: i64 = -10_000;

/// Where the robot stands and which way it looks.
#[derive(Debug, Clone, Copy, PartialEq, Eq, Structural)]
pub struct Pose {
    pub x: i64,
    pub y: i64,
    pub heading: i64,
}

/// The ranging driver failed. Nothing can be done about it but to stop.
#[derive(Debug, Clone, Copy, PartialEq, Eq, Structural)]
pub enum DriverFault {
    Gpio,
}

/// What one run of the ranging driver gives: a distance, no echo, or a fault.
pub type RawReading = Result<Option<i64>, DriverFault>;

/// Where readings come from.
pub enum Sensor {
    /// A physical sensor behind a driver; `active` is the level of the
    /// output that shows a measurement in progress.
    Driven { active: bool },
    /// A sawtooth generator; `level` is the reading it gave last.
    Synthetic { level: i64 },
}

/// What can be observed of a robot, real or simulated.
pub struct RobotState {
    pub sensor: Sensor,
    pub max_range: i64,
    pub map: Grid,
    pub position: Pose,
    pub velo_max: i64,
    pub velo_min: i64,
    pub velo: (i64, i64),
}

/// The grid is small enough to be listed cell by cell.
pub open spec fn listable(s: RobotState) -> bool {
    grid_listable(s.map)
}

/// A measurement can be completed: a driven sensor has its activity output
/// raised, a synthetic one is always ready.
pub open spec fn ready(s: RobotState) -> bool {
    match s.sensor {
        Sensor::Driven { active } => active,
        Sensor::Synthetic { .. } => true,
    }
}

/// The state after a measurement has been started: the activity output of a
/// driven sensor is raised, nothing else moves.
pub open spec fn started(s: RobotState) -> RobotState {
    match s.sensor {
        Sensor::Driven { .. } => RobotState { sensor: Sensor::Driven { active: true }, ..s },
        Sensor::Synthetic { .. } => s,
    }
}

/// The reading that follows `level` on the sawtooth: one step more, or zero
/// once that would pass `max_range`.
pub open spec fn sawtooth_next(level: i64, max_range: i64) -> i64 {
    if level + SIM_STEP > max_range {
        0
    } else {
        (level + SIM_STEP) as i64
    }
}

/// The state after a measurement has been completed with `raw` from the
/// driver: the activity output of a driven sensor is lowered whatever `raw`
/// is, a synthetic sensor has moved along its sawtooth.
pub open spec fn measured(s: RobotState, raw: RawReading) -> RobotState {
    match s.sensor {
        Sensor::Driven { .. } => RobotState { sensor: Sensor::Driven { active: false }, ..s },
        Sensor::Synthetic { level } => RobotState {
            sensor: Sensor::Synthetic { level: sawtooth_next(level, s.max_range) },
            ..s
        },
    }
}

/// What a measurement completed with `raw` from the driver returns: for a
/// driven sensor `raw` itself, for a synthetic one the next reading of the
/// sawtooth, never a fault and never "no echo".
pub open spec fn reading(s: RobotState, raw: RawReading) -> RawReading {
    match s.sensor {
        Sensor::Driven { .. } => raw,
        Sensor::Synthetic { level } => Ok(Some(sawtooth_next(level, s.max_range))),
    }
}

/// `v` moved into the band from `lo` to `hi`.
pub open spec fn clamped(v: int, lo: int, hi: int) -> int {
    if v < lo {
        lo
    } else if v > hi {
        hi
    } else {
        v
    }
}

/// The wheel velocities after `left` and `right` have been asked for: each
/// moved into the band of the robot.
pub open spec fn velo_set(s: RobotState, left: i64, right: i64) -> (i64, i64) {
    (
        clamped(left as int, s.velo_min as int, s.velo_max as int) as i64,
        clamped(right as int, s.velo_min as int, s.velo_max as int) as i64,
    )
}

/// Whatever the driver gave, a completed measurement leaves the activity
/// output low, and changes nothing of a driven robot but that output.
pub proof fn lemma_measured_lowers_activity(s: RobotState, raw: RawReading)
    requires
        s.sensor is Driven,
    ensures
        measured(started(s), raw).sensor == (Sensor::Driven { active: false }),
        measured(s, raw).sensor == (Sensor::Driven { active: false }),
        measured(started(s), raw) == (RobotState { sensor: Sensor::Driven { active: false }, ..s }),
        started(s).sensor == (Sensor::Driven { active: true }),
        reading(started(s), raw) == raw,
{
}

/// A simulated robot never fails and never reports "no echo", whatever is
/// handed to it as the driver's result: its reading is one step above the
/// last one, or zero where that would pass the greatest range.
pub proof fn lemma_sawtooth_reading(s: RobotState, raw: RawReading)
    requires
        s.sensor is Synthetic,
    ensures
        reading(s, raw) == Ok::<Option<i64>, DriverFault>(
            Some(sawtooth_next(s.sensor->level, s.max_range)),
        ),
        measured(s, raw) == (RobotState {
            sensor: Sensor::Synthetic { level: sawtooth_next(s.sensor->level, s.max_range) },
            ..s
        }),
        sawtooth_next(s.sensor->level, s.max_range) == 0 || (sawtooth_next(
            s.sensor->level,
            s.max_range,
        ) == s.sensor->level + SIM_STEP && s.sensor->level + SIM_STEP <= s.max_range),
        started(s) == s,
{
}

/// Wheel velocities that have been set lie in the band of the robot.
pub proof fn lemma_velo_set_in_band(s: RobotState, left: i64, right: i64)
    requires
        s.velo_min <= s.velo_max,
    ensures
        s.velo_min <= velo_set(s, left, right).0 <= s.velo_max,
        s.velo_min <= velo_set(s, left, right).1 <= s.velo_max,
        s.velo_min <= left <= s.velo_max ==> velo_set(s, left, right).0 == left,
        s.velo_min <= right <= s.velo_max ==> velo_set(s, left, right).1 == right,
{
}

/// One way to reach a robot's sensor, pose, wheels and map, the same for a
/// physical robot and a simulated one.
pub trait RobotAccess {
    /// What can be observed of this robot.
    spec fn state(&self) -> RobotState;

    /// Starts a measurement. Where the result is `true` the caller raises the
    /// activity output, runs the ranging driver, and completes the
    /// measurement with what the driver gave.
    fn start_hcsr04_dist(&mut self) -> (drive: bool)
        ensures
            final(self).state() == started(old(self).state()),
            drive == (old(self).state().sensor is Driven),
            ready(final(self).state()),
    ;

    /// Completes a measurement with what the driver gave, and returns the
    /// distance straight ahead, `None` for no echo. After it the activity
    /// output is low, also where the driver failed.
    fn get_hcsr04_dist(&mut self, raw: RawReading) -> (out: RawReading)
        requires
            ready(old(self).state()),
        ensures
            final(self).state() == measured(old(self).state(), raw),
            out == reading(old(self).state(), raw),
    ;

    /// Whether the activity output is to be high.
    fn activity_output(&self) -> (on: bool)
        ensures
            on == (self.state().sensor == Sensor::Driven { active: true }),
    ;

    /// The greatest distance the sensor can report.
    fn get_hcsr04_max_range(&self) -> (range: i64)
        ensures
            range == self.state().max_range,
    ;

    /// The wall cells of the map, row by row.
    fn get_map(&self) -> (walls: Vec<Point>)
        requires
            listable(self.state()),
        ensures
            walls@ == grid_walls(self.state().map),
    ;

    /// Replaces the map by an empty grid of the size of the bounding box of `map`.
    fn set_map(&mut self, map: Vec<Point>)
        requires
            grid_fits(map@),
        ensures
            final(self).state() == (RobotState { map: grid_for(map@), ..old(self).state() }),
            listable(final(self).state()),
    ;

    /// Puts the robot at `real_robot_position`.
    fn set_robot_position(&mut self, real_robot_position: Pose)
        ensures
            final(self).state() == (RobotState {
                position: real_robot_position,
                ..old(self).state()
            }),
    ;

    /// Where the robot is.
    fn robot_position(&self) -> (pose: Pose)
        ensures
            pose == self.state().position,
    ;

    /// The upper end of the band of wheel velocities.
    fn wheel_velo_max(&self) -> (v: i64)
        ensures
            v == self.state().velo_max,
    ;

    /// The lower end of the band of wheel velocities.
    fn wheel_velo_min(&self) -> (v: i64)
        ensures
            v == self.state().velo_min,
    ;

    /// Sets the velocities of the left and the right wheel, each moved into
    /// the band of wheel velocities first.
    fn set_wheel_velo(&mut self, left: i64, right: i64)
        ensures
            final(self).state() == (RobotState {
                velo: velo_set(old(self).state(), left, right),
                ..old(self).state()
            }),
    ;

    /// The velocities of the left and the right wheel.
    fn get_wheel_velo(&self) -> (velo: (i64, i64))
        ensures
            velo == self.state().velo,
    ;
}

/// A robot, either the physical one or a simulation of it.
#[derive(Debug)]
pub enum MyPi {
    Real(MyPiReal),
    Sim(MyPiSim),
}

impl RobotAccess for MyPi {
    open spec fn state(&self) -> RobotState {
        match self {
            MyPi::Real(my_pi_real) => my_pi_real.state(),
            MyPi::Sim(my_pi_sim) => my_pi_sim.state(),
        }
    }

    fn start_hcsr04_dist(&mut self) -> (drive: bool) {
        match self {
            MyPi::Real(my_pi_real) => my_pi_real.start_hcsr04_dist(),
            MyPi::Sim(my_pi_sim) => my_pi_sim.start_hcsr04_dist(),
        }
    }

    fn get_hcsr04_dist(&mut self, raw: RawReading) -> (out: RawReading) {
        match self {
            MyPi::Real(my_pi_real) => my_pi_real.get_hcsr04_dist(raw),
            MyPi::Sim(my_pi_sim) => my_pi_sim.get_hcsr04_dist(raw),
        }
    }

    fn activity_output(&self) -> (on: bool) {
        match self {
            MyPi::Real(my_pi_real) => my_pi_real.activity_output(),
            MyPi::Sim(my_pi_sim) => my_pi_sim.activity_output(),
        }
    }

    fn get_hcsr04_max_range(&self) -> (range: i64) {
        match self {
            MyPi::Real(my_pi_real) => my_pi_real.get_hcsr04_max_range(),
            MyPi::Sim(my_pi_sim) => my_pi_sim.get_hcsr04_max_range(),
        }
    }

    fn get_map(&self) -> (walls: Vec<Point>) {
        match self {
            MyPi::Real(my_pi_real) => my_pi_real.get_map(),
            MyPi::Sim(my_pi_sim) => my_pi_sim.get_map(),
        }
    }

    fn set_map(&mut self, map: Vec<Point>) {
        match self {
            MyPi::Real(my_pi_real) => my_pi_real.set_map(map),
            MyPi::Sim(my_pi_sim) => my_pi_sim.set_map(map),
        }
    }

    fn set_robot_position(&mut self, real_robot_position: Pose) {
        match self {
            MyPi::Real(my_pi_real) => my_pi_real.set_robot_position(real_robot_position),
            MyPi::Sim(my_pi_sim) => my_pi_sim.set_robot_position(real_robot_position),
        }
    }

    fn robot_position(&self) -> (pose: Pose) {
        match self {
            MyPi::Real(my_pi_real) => my_pi_real.robot_position(),
            MyPi::Sim(my_pi_sim) => my_pi_sim.robot_position(),
        }
    }

    fn wheel_velo_max(&self) -> (v: i64) {
        match self {
            MyPi::Real(my_pi_real) => my_pi_real.wheel_velo_max(),
            MyPi::Sim(my_pi_sim) => my_pi_sim.wheel_velo_max(),
        }
    }

    fn wheel_velo_min(&self) -> (v: i64) {
        match self {
            MyPi::Real(my_pi_real) => my_pi_real.wheel_velo_min(),
            MyPi::Sim(my_pi_sim) => my_pi_sim.wheel_velo_min(),
        }
    }

    fn set_wheel_velo(&mut self, left: i64, right: i64) {
        match self {
            MyPi::Real(my_pi_real) => my_pi_real.set_wheel_velo(left, right),
            MyPi::Sim(my_pi_sim) => my_pi_sim.set_wheel_velo(left, right),
        }
    }

    fn get_wheel_velo(&self) -> (velo: (i64, i64)) {
        match self {
            MyPi::Real(my_pi_real) => my_pi_real.get_wheel_velo(),
            MyPi::Sim(my_pi_sim) => my_pi_sim.get_wheel_velo(),
        }
    }
}

/// `v` moved into the band from `lo` to `hi`.
pub fn clamp_velo(v: i64, lo: i64, hi: i64) -> (out: i64)
    ensures
        out == clamped(v as int, lo as int, hi as int),
{
    if v < lo {
        lo
    } else if v > hi {
        hi
    } else {
        v
    }
}

/// The sawtooth's next reading.
pub fn sawtooth_step(level: i64, max_range: i64) -> (next: i64)
    ensures
        next == sawtooth_next(level, max_range),
{
    let raised: i128 = (level as i128) + (SIM_STEP as i128);
    if raised > (max_range as i128) {
        0
    } else {
        raised as i64
    }
}

} // verus!
