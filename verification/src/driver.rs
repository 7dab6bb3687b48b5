//! The frame driver: one step of the real-time loop.
//!
//! The host calls `tick` once per frame with the time the last frame took
//! and with whether the debug key was pressed. The driver records the frame
//! time, flips the debug flag if asked, runs and times the script's `update`
//! and then its `draw`, and says whether the overlay is to be shown. A fault
//! in `update` does not keep `draw` from running, and no fault keeps the
//! next tick from running.

use vstd::prelude::*;
use vstd::string::to_string_from_display_ensures;
use std::time::Instant;
use crate::clock::micros_since;
use crate::interp::{compile, parse_failure};
use crate::overlay::{compose, is_overlay_of, Overlay};
use crate::samples::{pushed, RollingSamples, CAPACITY};
use crate::script::{
    draw_call, handed, init_call, update_call, Call, Callback, CallOutcome, Phase, ScriptEngine,
    ScriptError,
};

verus! {

/// The driver's own state, as contracts speak of it.
pub struct FrameView {
    pub debug: bool,
    pub frame_times: Seq<u64>,
    pub update_times: Seq<u64>,
    pub draw_times: Seq<u64>,
    pub load_micros: u64,
    pub init_micros: u64,
}

/// What one tick did.
#[derive(Clone, Debug, PartialEq, Eq)]
pub struct TickReport {
    /// How `update` ended.
    pub update: CallOutcome,
    /// How long `update` took, in microseconds.
    pub update_micros: u64,
    /// How `draw` ended.
    pub draw: CallOutcome,
    /// How long `draw` took, in microseconds.
    pub draw_micros: u64,
    /// Whether the overlay is to be shown on this frame.
    pub overlay: bool,
}

/// The debug flag after a frame on which the debug key was or was not
/// pressed.
pub open spec fn toggled(flag: bool, pressed: bool) -> bool {
    if pressed {
        !flag
    } else {
        flag
    }
}

/// What one tick makes of a driver: `after` is the driver that `before`
/// becomes on a frame that took `delta_micros`, with the debug key pressed
/// or not, and `report` is what the tick reports. Of the script's callbacks
/// `update` is called first, on the frame time, and `draw` after it.
pub open spec fn ticked(
    before: FrameDriver,
    after: FrameDriver,
    delta_micros: u64,
    debug_pressed: bool,
    report: TickReport,
) -> bool {
    &&& after.wf()
    &&& after@.debug == toggled(before@.debug, debug_pressed)
    &&& after@.frame_times == pushed(before@.frame_times, delta_micros)
    &&& after@.update_times == pushed(before@.update_times, report.update_micros)
    &&& after@.draw_times == pushed(before@.draw_times, report.draw_micros)
    &&& after@.load_micros == before@.load_micros
    &&& after@.init_micros == before@.init_micros
    &&& after.script().engine() == before.script().engine()
    &&& after.script().program() == before.script().program()
    &&& after.script().same_callbacks(&before.script())
    &&& after.script().calls() == handed(
        handed(
            before.script().calls(),
            before.script().defines(Callback::Update),
            update_call(delta_micros),
        ),
        before.script().defines(Callback::Draw),
        draw_call(),
    )
    &&& report.overlay == after@.debug
    &&& report.update is Skipped <==> !before.script().defines(Callback::Update)
    &&& report.draw is Skipped <==> !before.script().defines(Callback::Draw)
    &&& report.update matches CallOutcome::Faulted(fault) ==> fault.callback == Callback::Update
    &&& report.draw matches CallOutcome::Faulted(fault) ==> fault.callback == Callback::Draw
    &&& !before.script().defines(Callback::Update) && !before.script().defines(Callback::Draw)
        ==> after.script() == before.script()
}

/// What a startup that succeeded leaves: a sound driver around `engine`
/// with an initialized runtime, the overlay switched off and no samples yet;
/// `init` was called, and nothing else, if the script defines it, and was
/// skipped if not.
pub open spec fn started_from(engine: rhai::Engine, driver: FrameDriver, init: CallOutcome) -> bool {
    &&& driver.wf()
    &&& driver.script().engine() == engine
    &&& !driver@.debug
    &&& driver@.frame_times == Seq::<u64>::empty()
    &&& driver@.update_times == Seq::<u64>::empty()
    &&& driver@.draw_times == Seq::<u64>::empty()
    &&& driver.script().calls() == handed(
        Seq::<Call>::empty(),
        driver.script().defines(Callback::Init),
        init_call(),
    )
    &&& init is Skipped <==> !driver.script().defines(Callback::Init)
    &&& init matches CallOutcome::Faulted(fault) ==> fault.callback == Callback::Init
}

/// The frame driver.
pub struct FrameDriver {
    script: ScriptEngine,
    debug: bool,
    frame_times: RollingSamples,
    update_times: RollingSamples,
    draw_times: RollingSamples,
    load_micros: u64,
    init_micros: u64,
}

impl View for FrameDriver {
    type V = FrameView;

    closed spec fn view(&self) -> FrameView {
        FrameView {
            debug: self.debug,
            frame_times: self.frame_times@,
            update_times: self.update_times@,
            draw_times: self.draw_times@,
            load_micros: self.load_micros,
            init_micros: self.init_micros,
        }
    }
}

impl FrameDriver {
    /// The script runtime that the driver runs.
    pub closed spec fn script(&self) -> ScriptEngine {
        self.script
    }

    /// The runtime is sound and initialized, and no series is over its
    /// capacity.
    pub open spec fn wf(&self) -> bool {
        &&& self.script().wf()
        &&& self.script().phase() == Phase::Initialized
        &&& self@.frame_times.len() <= CAPACITY
        &&& self@.update_times.len() <= CAPACITY
        &&& self@.draw_times.len() <= CAPACITY
    }

    /// Starts up: compiles `source` with `engine`, times that, and hands
    /// what the parser returned to `launch`. Where `source` parses, the
    /// driver comes back with how `init` ended. Where it does not, the
    /// startup ends with the parser's error: no driver comes to be, so no
    /// frame is ever run.
    pub fn start(engine: rhai::Engine, source: &str) -> (result: Result<
        (FrameDriver, CallOutcome),
        ScriptError,
    >)
        ensures
            match parse_failure(engine, source@) {
                None => {
                    &&& result matches Ok((driver, init))
                    &&& started_from(engine, driver, init)
                },
                Some(error) => {
                    &&& result matches Err(told)
                    &&& to_string_from_display_ensures::<rhai::ParseError>(&error, told.message)
                },
            },
    {
        let load_start = Instant::now();
        let compiled = compile(&engine, source);
        let load_micros: u64 = micros_since(&load_start);
        FrameDriver::launch(engine, compiled, load_micros)
    }

    /// Takes in what the parser returned, with the time the parsing took. A
    /// program is installed in a fresh runtime around `engine`, its `init`
    /// is run and timed, and the driver comes back with how `init` ended: a
    /// fault in `init` does not end the startup. A parse error ends it, and
    /// is handed on with the parser's message.
    pub fn launch(
        engine: rhai::Engine,
        compiled: Result<rhai::AST, rhai::ParseError>,
        load_micros: u64,
    ) -> (result: Result<(FrameDriver, CallOutcome), ScriptError>)
        ensures
            match compiled {
                Ok(program) => {
                    &&& result matches Ok((driver, init))
                    &&& started_from(engine, driver, init)
                    &&& driver.script().program() == Some(program)
                    &&& driver@.load_micros == load_micros
                },
                Err(error) => {
                    &&& result matches Err(told)
                    &&& to_string_from_display_ensures::<rhai::ParseError>(&error, told.message)
                },
            },
    {
        let mut script = ScriptEngine::new(engine);
        match script.install(compiled) {
            Ok(()) => {},
            Err(error) => {
                return Err(error);
            },
        }
        let init_start = Instant::now();
        let init = script.call_init();
        let init_micros: u64 = micros_since(&init_start);
        let driver = FrameDriver {
            script,
            debug: false,
            frame_times: RollingSamples::new(),
            update_times: RollingSamples::new(),
            draw_times: RollingSamples::new(),
            load_micros,
            init_micros,
        };
        Ok((driver, init))
    }

    /// Runs one frame. In this order: the frame time joins its series; the
    /// debug flag flips if the key was pressed; `update` runs on the frame
    /// time and its duration joins its series; `draw` runs and its duration
    /// joins its series. `draw` runs whatever became of `update`, and the
    /// driver is as fit for the next tick as it was for this one.
    pub fn tick(&mut self, delta_micros: u64, debug_pressed: bool) -> (report: TickReport)
        requires
            old(self).wf(),
        ensures
            ticked(*old(self), *final(self), delta_micros, debug_pressed, report),
    {
        self.frame_times.push(delta_micros);
        if debug_pressed {
            self.debug = !self.debug;
        }
        let update_start = Instant::now();
        let update = self.script.call_update(delta_micros);
        let update_micros: u64 = micros_since(&update_start);
        self.update_times.push(update_micros);

        let draw_start = Instant::now();
        let draw = self.script.call_draw();
        let draw_micros: u64 = micros_since(&draw_start);
        self.draw_times.push(draw_micros);

        TickReport { update, update_micros, draw, draw_micros, overlay: self.debug }
    }

    /// Whether the overlay is switched on.
    pub fn debug(&self) -> (on: bool)
        ensures
            on == self@.debug,
    {
        self.debug
    }

    /// The runtime, to look at.
    pub fn runtime(&self) -> (script: &ScriptEngine)
        ensures
            *script == self.script(),
    {
        &self.script
    }

    /// The times of the last frames.
    pub fn frame_times(&self) -> (series: &RollingSamples)
        ensures
            series@ == self@.frame_times,
    {
        &self.frame_times
    }

    /// The durations of the last calls of `update`.
    pub fn update_times(&self) -> (series: &RollingSamples)
        ensures
            series@ == self@.update_times,
    {
        &self.update_times
    }

    /// The durations of the last calls of `draw`.
    pub fn draw_times(&self) -> (series: &RollingSamples)
        ensures
            series@ == self@.draw_times,
    {
        &self.draw_times
    }

    /// Composes the overlay from the three series and the startup times,
    /// which it only reads.
    pub fn overlay(&self) -> (out: Overlay)
        requires
            self.wf(),
        ensures
            is_overlay_of(
                out,
                self@.frame_times,
                self@.update_times,
                self@.draw_times,
                self@.load_micros,
                self@.init_micros,
            ),
    {
        compose(
            &self.frame_times,
            &self.update_times,
            &self.draw_times,
            self.load_micros,
            self.init_micros,
        )
    }
}

/// A fault in `update` on one tick keeps nothing from running: `draw` is
/// called on that tick if the script defines it, and on the tick after it
/// `update` is called again, and `draw` after it, on a driver that is sound.
pub proof fn lemma_fault_isolation(
    first: FrameDriver,
    second: FrameDriver,
    third: FrameDriver,
    first_delta: u64,
    first_pressed: bool,
    first_report: TickReport,
    second_delta: u64,
    second_pressed: bool,
    second_report: TickReport,
)
    requires
        first.wf(),
        ticked(first, second, first_delta, first_pressed, first_report),
        ticked(second, third, second_delta, second_pressed, second_report),
        first_report.update is Faulted,
    ensures
        first_report.draw is Skipped <==> !first.script().defines(Callback::Draw),
        second.script().calls() == handed(
            first.script().calls().push(update_call(first_delta)),
            first.script().defines(Callback::Draw),
            draw_call(),
        ),
        !(second_report.update is Skipped),
        second_report.draw is Skipped <==> !first.script().defines(Callback::Draw),
        third.script().calls() == handed(
            second.script().calls().push(update_call(second_delta)),
            first.script().defines(Callback::Draw),
            draw_call(),
        ),
        third.wf(),
{
}

/// Two ticks with the debug key pressed leave the debug flag as it was.
pub proof fn lemma_toggle_twice(
    first: FrameDriver,
    second: FrameDriver,
    third: FrameDriver,
    first_delta: u64,
    first_report: TickReport,
    second_delta: u64,
    second_report: TickReport,
)
    requires
        ticked(first, second, first_delta, true, first_report),
        ticked(second, third, second_delta, true, second_report),
    ensures
        second@.debug != first@.debug,
        third@.debug == first@.debug,
{
}

} // verus!
