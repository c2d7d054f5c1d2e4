use crate::ring::{pushed, RingStatistic, Sample};
use crate::robo::{
    measured, reading, ready, started, DriverFault, MyPi, Pose, RawReading, RobotAccess,
    RobotState,
};
use crate::tabs::TabsState;
use crate::world::{normalized, normalized_all, MapView, Point, Rect, World};
use vstd::prelude::*;

verus! {

/// How many distance readings the monitor keeps.
pub const SIZE_RINGBUFF_DIST: usize = 60;

/// The time between two readings, in milliseconds.
pub const TICK_RATE_MS: u64 = 125;

/// What the user can ask for with a key.
#[derive(Debug, Clone, Copy, PartialEq, Eq, Structural)]
pub enum Key {
    Quit,
    DeactivateSensor,
    ActivateSensor,
    Left,
    Right,
    Other,
}

/// What a tick asks of the one who runs the monitor.
#[derive(Debug, Clone, Copy, PartialEq, Eq, Structural)]
pub enum Step {
    /// Recording is off: there is nothing to do.
    Skip,
    /// A measurement has been started. Where `drive` holds, raise the
    /// activity output and run the ranging driver; then complete the tick.
    Measure { drive: bool },
}

/// What the sensor chart shows: the time axis from the oldest to the newest
/// sample, and the samples, newest first.
#[derive(Debug)]
pub struct Chart {
    pub oldest: u64,
    pub newest: u64,
    pub points: Vec<Sample>,
}

/// What the info box shows.
#[derive(Debug, Clone, Copy, PartialEq, Eq, Structural)]
pub struct Info {
    pub position: Pose,
    pub velo_left: i64,
    pub velo_right: i64,
}

/// The monitor as its contracts see it.
pub struct AppState<'a> {
    pub tabs: TabsState<'a>,
    pub sensing: bool,
    pub samples: Seq<Sample>,
    pub total: int,
    pub world: World<'a>,
    pub robot: RobotState,
    pub exit: bool,
}

/// The value that enters the statistics for a reading: the distance, or
/// the sensor's greatest range where there was no echo.
pub open spec fn substituted(reading: Option<i64>, max_range: i64) -> i64 {
    match reading {
        Some(v) => v,
        None => max_range,
    }
}

/// The time to wait for a key before the next tick is due, `elapsed`
/// milliseconds after the last one.
pub open spec fn spec_timeout(elapsed: u64) -> u64 {
    if elapsed >= TICK_RATE_MS {
        0
    } else {
        (TICK_RATE_MS - elapsed) as u64
    }
}

/// The monitor after a key.
pub open spec fn after_key<'a>(s: AppState<'a>, key: Key) -> AppState<'a> {
    match key {
        Key::Quit => AppState { exit: true, ..s },
        Key::DeactivateSensor => AppState { sensing: false, ..s },
        Key::ActivateSensor => AppState { sensing: true, ..s },
        Key::Left => AppState {
            tabs: TabsState {
                titles: s.tabs.titles,
                index: TabsState::spec_previous(s.tabs.index as int, s.tabs.titles@.len() as int)
                    as usize,
            },
            ..s
        },
        Key::Right => AppState {
            tabs: TabsState {
                titles: s.tabs.titles,
                index: TabsState::spec_next(s.tabs.index as int, s.tabs.titles@.len() as int)
                    as usize,
            },
            ..s
        },
        Key::Other => s,
    }
}

/// The monitor after a tick has begun: where it records, a measurement has
/// been started.
pub open spec fn tick_begun<'a>(s: AppState<'a>) -> AppState<'a> {
    if s.sensing {
        AppState { robot: started(s.robot), ..s }
    } else {
        s
    }
}

/// The monitor after a tick has been completed with `raw` from the driver:
/// the measurement is over, and unless the driver failed its reading has
/// entered the statistics, the greatest range standing in for no echo.
pub open spec fn tick_done<'a>(s: AppState<'a>, raw: RawReading) -> AppState<'a> {
    match reading(s.robot, raw) {
        Ok(r) => {
            let value = substituted(r, s.robot.max_range);
            AppState {
                robot: measured(s.robot, raw),
                samples: pushed(s.samples, value),
                total: s.total + value - s.samples.last().value,
                ..s
            }
        },
        Err(_) => AppState { robot: measured(s.robot, raw), ..s },
    }
}

/// The value that enters the statistics for a reading.
pub fn sample_value(reading: Option<i64>, max_range: i64) -> (value: i64)
    ensures
        value == substituted(reading, max_range),
{
    match reading {
        Some(v) => v,
        None => max_range,
    }
}

/// The time to wait for a key before the next tick is due.
pub fn timeout(elapsed: u64) -> (wait: u64)
    ensures
        wait == spec_timeout(elapsed),
{
    TICK_RATE_MS.saturating_sub(elapsed)
}

/// Whether the next tick is due, `elapsed` milliseconds after the last one.
pub fn tick_due(elapsed: u64) -> (due: bool)
    ensures
        due == (elapsed >= TICK_RATE_MS),
{
    elapsed >= TICK_RATE_MS
}

/// The monitor: which tab is shown, whether readings are recorded, the
/// recorded readings, the world, the robot, and whether to stop.
#[derive(Debug)]
pub struct App<'a> {
    tabs: TabsState<'a>,
    sens_data: bool,
    ring_buf: RingStatistic,
    world: World<'a>,
    my_pi: MyPi,
    exit: bool,
}

impl<'a> View for App<'a> {
    type V = AppState<'a>;

    closed spec fn view(&self) -> AppState<'a> {
        AppState {
            tabs: self.tabs,
            sensing: self.sens_data,
            samples: self.ring_buf@,
            total: self.ring_buf.spec_total(),
            world: self.world,
            robot: self.my_pi.state(),
            exit: self.exit,
        }
    }
}

impl<'a> App<'a> {
    /// The parts of the monitor are sound: a tab is selected, the ring is
    /// full and its total exact, the world has its bounding box.
    pub closed spec fn wf(&self) -> bool {
        &&& self.tabs.wf()
        &&& self.ring_buf.wf()
        &&& self.world.wf()
    }

    /// What `wf` says, over the monitor's state.
    pub proof fn lemma_wf(&self)
        requires
            self.wf(),
        ensures
            self@.tabs.wf(),
            self@.samples.len() > 0,
            crate::ring::consecutive(self@.samples),
            self@.total == crate::ring::sum_values(self@.samples),
            self@.world.wf(),
    {
    }

    /// A monitor over `my_pi` and a world of the given walls: the map tab
    /// shown, recording off, sixty zero readings.
    pub fn new(my_pi: MyPi, walls: Vec<Point>) -> (app: Self)
        ensures
            app.wf(),
            app@.tabs.index == 0,
            app@.tabs.titles@.len() == 2,
            app@.tabs.titles@[0]@ == "Map"@,
            app@.tabs.titles@[1]@ == "Sensor"@,
            !app@.sensing,
            !app@.exit,
            app@.samples == crate::ring::seeded(SIZE_RINGBUFF_DIST as nat),
            app@.total == 0,
            app@.world.name@ == "big"@,
            app@.world.location is None,
            app@.world.wall_list == walls,
            app@.robot == my_pi.state(),
    {
        let mut titles: Vec<&'a str> = Vec::new();
        titles.push("Map");
        titles.push("Sensor");
        App {
            tabs: TabsState::new(titles),
            sens_data: false,
            ring_buf: RingStatistic::seed(SIZE_RINGBUFF_DIST),
            world: World::new("big", None, walls),
            my_pi,
            exit: false,
        }
    }

    /// Acts on a key: stop, recording off or on, the tab to the left or to
    /// the right; any other key changes nothing.
    pub fn on_key(&mut self, key: Key)
        requires
            old(self).wf(),
        ensures
            final(self)@ == after_key(old(self)@, key),
            final(self).wf(),
    {
        match key {
            Key::Quit => self.exit(),
            Key::DeactivateSensor => self.deactivate_sensor(),
            Key::ActivateSensor => self.activate_sensor(),
            Key::Left => self.lower_tab(),
            Key::Right => self.raise_tab(),
            Key::Other => {},
        }
    }

    /// Begins a tick. Where recording is on a measurement is started.
    pub fn begin_tick(&mut self) -> (step: Step)
        requires
            old(self).wf(),
        ensures
            final(self)@ == tick_begun(old(self)@),
            final(self).wf(),
            step == if old(self)@.sensing {
                Step::Measure { drive: old(self)@.robot.sensor is Driven }
            } else {
                Step::Skip
            },
            old(self)@.sensing ==> ready(final(self)@.robot),
    {
        if self.sens_data {
            let drive = self.my_pi.start_hcsr04_dist();
            Step::Measure { drive }
        } else {
            Step::Skip
        }
    }

    /// Completes a tick with what the driver gave. The reading enters the
    /// statistics as the newest sample, the sensor's greatest range standing
    /// in for no echo. Where the driver failed the fault is handed on and
    /// the statistics stay as they were; the activity output is low either
    /// way.
    pub fn finish_tick(&mut self, raw: RawReading) -> (out: Result<(), DriverFault>)
        requires
            old(self).wf(),
            ready(old(self)@.robot),
            old(self)@.samples[0].index < u64::MAX,
        ensures
            final(self)@ == tick_done(old(self)@, raw),
            final(self).wf(),
            out == match reading(old(self)@.robot, raw) {
                Ok(_) => Ok::<(), DriverFault>(()),
                Err(fault) => Err(fault),
            },
    {
        match self.my_pi.get_hcsr04_dist(raw) {
            Ok(r) => {
                let value = sample_value(r, self.my_pi.get_hcsr04_max_range());
                self.ring_buf.push(value);
                Ok(())
            },
            Err(fault) => Err(fault),
        }
    }

    /// The tabs and which of them is shown.
    pub fn tabs(&self) -> (tabs: &TabsState<'a>)
        ensures
            *tabs == self@.tabs,
    {
        &self.tabs
    }

    /// Whether the monitor is to stop.
    pub fn should_exit(&self) -> (exit: bool)
        ensures
            exit == self@.exit,
    {
        self.exit
    }

    /// Whether readings are recorded.
    pub fn is_recording(&self) -> (on: bool)
        ensures
            on == self@.sensing,
    {
        self.sens_data
    }

    /// Whether the ring can take one more reading: its newest index is not
    /// the last that can be counted.
    pub fn can_record(&self) -> (ok: bool)
        requires
            self.wf(),
        ensures
            ok == (self@.samples[0].index < u64::MAX),
    {
        self.ring_buf.newest().index < u64::MAX
    }

    /// Whether the activity output is to be high.
    pub fn activity_output(&self) -> (on: bool)
        ensures
            on == (self@.robot.sensor == crate::robo::Sensor::Driven { active: true }),
    {
        self.my_pi.activity_output()
    }

    /// What the sensor chart shows.
    pub fn chart(&self) -> (chart: Chart)
        requires
            self.wf(),
        ensures
            chart.points@ == self@.samples,
            chart.oldest == self@.samples.last().index,
            chart.newest == self@.samples[0].index,
    {
        Chart {
            oldest: self.ring_buf.oldest().index,
            newest: self.ring_buf.newest().index,
            points: self.ring_buf.snapshot(),
        }
    }

    /// The mean of the recorded readings as a whole part and a rest over
    /// the number of readings.
    pub fn mean(&self) -> (m: (i64, usize))
        requires
            self.wf(),
        ensures
            m.0 == crate::ring::mean_whole(self@.samples),
            m.1 == crate::ring::mean_rest(self@.samples),
    {
        self.ring_buf.mean()
    }

    /// What the info box shows: where the robot is and how fast its wheels turn.
    pub fn info(&self) -> (info: Info)
        ensures
            info == (Info {
                position: self@.robot.position,
                velo_left: self@.robot.velo.0,
                velo_right: self@.robot.velo.1,
            }),
    {
        let (velo_left, velo_right) = self.my_pi.get_wheel_velo();
        Info { position: self.my_pi.robot_position(), velo_left, velo_right }
    }

    /// The name of the world.
    pub fn world_name(&self) -> (name: &'a str)
        ensures
            name == self@.world.name,
    {
        self.world.name
    }

    /// What the map shows in `area`: nothing where the world has no walls or
    /// its bounding box is flat, else the agent and the walls scaled into
    /// `area`.
    pub fn map(&self, area: Rect) -> (view: Option<MapView>)
        ensures
            view is Some <==> self@.world.scalable(),
            view matches Some(m) ==> {
                &&& m.walls@ == normalized_all(
                    self@.world.wall_list@,
                    self@.world.min->0,
                    self@.world.max->0,
                    area,
                )
                &&& m.location == match self@.world.location {
                    Some(l) => Some(normalized(l, self@.world.min->0, self@.world.max->0, area)),
                    None => None,
                }
            },
    {
        self.world.map_view(area)
    }

    fn raise_tab(&mut self)
        requires
            old(self).wf(),
        ensures
            final(self)@ == after_key(old(self)@, Key::Right),
            final(self).wf(),
    {
        let count: usize = self.tabs.titles.len();
        assert(self.tabs.index < count);
        self.tabs.next();
    }

    fn lower_tab(&mut self)
        requires
            old(self).wf(),
        ensures
            final(self)@ == after_key(old(self)@, Key::Left),
            final(self).wf(),
    {
        self.tabs.previous();
    }

    fn exit(&mut self)
        ensures
            final(self)@ == after_key(old(self)@, Key::Quit),
            old(self).wf() ==> final(self).wf(),
    {
        self.exit = true;
    }

    fn activate_sensor(&mut self)
        ensures
            final(self)@ == after_key(old(self)@, Key::ActivateSensor),
            old(self).wf() ==> final(self).wf(),
    {
        self.sens_data = true
    }

    fn deactivate_sensor(&mut self)
        ensures
            final(self)@ == after_key(old(self)@, Key::DeactivateSensor),
            old(self).wf() ==> final(self).wf(),
    {
        self.sens_data = false
    }
}

} // verus!
