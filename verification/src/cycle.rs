//! The control loop's core: the per-cycle decisions and their
//! failure-isolation guarantees.
//!
//! One cycle, in order: obtain the next bar column from the animation,
//! draw the bar, hand the frame to the device, attempt a measurement,
//! report the outcome, sleep for the fixed interval.  The blocking parts —
//! the bus transfer, the sensor protocol, the sleep — run outside the
//! library; `draw_phase` and `finish_cycle` make every decision between
//! them, and the laws below state that the stages cannot disturb one
//! another: no sensor fault and no display fault ever steers the
//! controller's state or silences another stage's report.

use vstd::prelude::*;
use vstd::arithmetic::div_mod::lemma_add_mod_noop_right;
use vstd::arithmetic::div_mod::lemma_small_mod;
use crate::anim::AnimationState;
use crate::anim::lemma_next_column_is_mod;
use crate::anim::next_column;
use crate::canvas::DisplayError;
use crate::canvas::FrameCanvas;
use crate::sensor::Measurement;
use crate::sensor::SensorError;
use crate::units::celsius_to_fahrenheit;
use crate::units::fahrenheit_hundredths;

verus! {

/// What one cycle reports to the console sink: either the converted
/// reading or the cycle's sensor fault.  One line per reported event.
#[derive(Clone, Copy, Debug, PartialEq, Eq, Structural)]
pub enum Report {
    /// A successful reading: temperature in hundredths of a degree
    /// Fahrenheit, humidity in tenths of a percent.
    Reading { temperature_f_hundredths: i32, humidity_tenths: u16 },
    /// The sensor failed this cycle; the next cycle is the natural retry.
    SensorFault(SensorError),
}

/// The transient record of one cycle: the bar column drawn, how each
/// stage fared, and what is owed to the sink.  Not retained across
/// cycles.
#[derive(Clone, Copy, Debug, PartialEq, Eq)]
pub struct CycleOutcome {
    /// The column the bar was drawn at this cycle.
    pub column: usize,
    /// How the bar draw fared.
    pub bar_draw: Result<(), DisplayError>,
    /// How the transfer of the frame to the device fared.
    pub flush: Result<(), DisplayError>,
    /// The line owed to the console sink.
    pub report: Report,
}

/// The report a cycle owes the sink for a given sensor outcome: a
/// successful reading is converted and reported, a failure is reported as
/// the fault it was.  The display stages play no part in it.
pub open spec fn report_of(sensor: Result<Measurement, SensorError>) -> Report {
    match sensor {
        Ok(m) => Report::Reading {
            temperature_f_hundredths: fahrenheit_hundredths(m.temperature as int) as i32,
            humidity_tenths: m.humidity,
        },
        Err(e) => Report::SensorFault(e),
    }
}

/// The full record of a cycle, as a function of its stage outcomes.
pub open spec fn outcome_of(
    column: usize,
    bar_draw: Result<(), DisplayError>,
    flush: Result<(), DisplayError>,
    sensor: Result<Measurement, SensorError>,
) -> CycleOutcome {
    CycleOutcome { column, bar_draw, flush, report: report_of(sensor) }
}

/// A mathematical snapshot of the controller: the bar column, the frame
/// dimensions, and the coordinates of the lit pixels.
#[verifier::ext_equal]
pub ghost struct ControllerModel {
    /// The column the next bar will be drawn at.
    pub col: nat,
    /// Frame width in pixels.
    pub width: nat,
    /// Frame height in pixels.
    pub height: nat,
    /// The lit pixels of the frame.
    pub lit: Set<(int, int)>,
}

/// A controller model is well formed when its frame is non-empty and the
/// bar column lies within it.
pub open spec fn model_wf(m: ControllerModel) -> bool {
    &&& 0 < m.width
    &&& m.col < m.width
}

/// The pixels of a full-height, one-pixel-wide bar at column `col`.
pub open spec fn bar_pixels(col: nat, height: nat) -> Set<(int, int)> {
    Set::new(|p: (int, int)| p.0 == col && 0 <= p.1 < height)
}

/// What a cycle leaves behind: the bar at the current column is lit on
/// top of whatever was already drawn, and the counter has moved one
/// column on.  A function of the controller's own state alone.
pub open spec fn advance_model(m: ControllerModel) -> ControllerModel {
    ControllerModel {
        col: next_column(m.col, m.width),
        lit: m.lit.union(bar_pixels(m.col, m.height)),
        ..m
    }
}

/// The controller state after one full cycle with the given sensor and
/// flush outcomes.  It equals `advance_model` of the old state by
/// definition: the outcomes do not enter into it.  This is the loop's
/// central isolation property, stated as the laws below.
pub open spec fn cycle_model(
    m: ControllerModel,
    sensor: Result<Measurement, SensorError>,
    flush: Result<(), DisplayError>,
) -> ControllerModel {
    advance_model(m)
}

/// The controller state after a run of cycles, one per entry of
/// `events`, each entry the (sensor, flush) outcome pair of its cycle.
pub open spec fn run_model(
    m: ControllerModel,
    events: Seq<(Result<Measurement, SensorError>, Result<(), DisplayError>)>,
) -> ControllerModel
    decreases events.len(),
{
    if events.len() == 0 {
        m
    } else {
        run_model(cycle_model(m, events[0].0, events[0].1), events.skip(1))
    }
}

/// Failure isolation: the state a cycle leaves behind does not depend on
/// that cycle's sensor or display outcome.  A sensor fault does not stop
/// the animation, and a flush fault does not disturb the frame.
pub proof fn lemma_outcomes_do_not_steer_state(
    m: ControllerModel,
    s1: Result<Measurement, SensorError>,
    f1: Result<(), DisplayError>,
    s2: Result<Measurement, SensorError>,
    f2: Result<(), DisplayError>,
)
    ensures
        cycle_model(m, s1, f1) == cycle_model(m, s2, f2),
{
}

/// Every sensor fault is reported: a cycle whose measurement failed owes
/// the sink exactly that fault, whatever the display stages did.
pub proof fn lemma_fault_is_reported(
    column: usize,
    bar_draw: Result<(), DisplayError>,
    flush: Result<(), DisplayError>,
    e: SensorError,
)
    ensures
        outcome_of(column, bar_draw, flush, Err(e)).report == Report::SensorFault(e),
{
}

/// A flush failure does not block sensor reporting within its own cycle:
/// the report is a function of the sensor outcome alone, so a cycle whose
/// flush failed still reports its measurement in full.
pub proof fn lemma_flush_does_not_block_report(
    column: usize,
    bar_draw: Result<(), DisplayError>,
    f1: Result<(), DisplayError>,
    f2: Result<(), DisplayError>,
    sensor: Result<Measurement, SensorError>,
)
    ensures
        outcome_of(column, bar_draw, f1, sensor).report == outcome_of(
            column,
            bar_draw,
            f2,
            sensor,
        ).report,
{
}

/// The loop outlives any run of failures: after any number of cycles
/// with any outcomes — a hundred sensor faults in a row, a flush that
/// never succeeds — the controller is still well formed, its frame
/// unchanged in size, and its bar has advanced exactly one column per
/// cycle, wrapping at the frame width.
pub proof fn lemma_loop_outlives_failures(
    m: ControllerModel,
    events: Seq<(Result<Measurement, SensorError>, Result<(), DisplayError>)>,
)
    requires
        model_wf(m),
    ensures
        model_wf(run_model(m, events)),
        run_model(m, events).width == m.width,
        run_model(m, events).height == m.height,
        run_model(m, events).col == ((m.col + events.len()) as int) % (m.width as int),
    decreases events.len(),
{
    if events.len() == 0 {
        lemma_small_mod(m.col, m.width);
    } else {
        let m1 = cycle_model(m, events[0].0, events[0].1);
        lemma_next_column_is_mod(m.col, m.width);
        lemma_loop_outlives_failures(m1, events.skip(1));
        lemma_add_mod_noop_right(
            events.len() - 1,
            (m.col + 1) as int,
            m.width as int,
        );
    }
}

/// The control loop's state: the animation counter and the frame canvas,
/// each touched by no one else.  The loop around it performs the outside
/// work — the bus transfer, the sensor exchange, the sleep — and hands
/// the outcomes back as plain values.
pub struct Controller {
    anim: AnimationState,
    canvas: FrameCanvas,
}

impl Controller {
    /// Both owned states are well formed and agree on the frame width.
    pub closed spec fn wf(&self) -> bool {
        &&& self.anim.wf()
        &&& self.canvas.wf()
        &&& self.anim.width() == self.canvas.width()
    }

    /// The mathematical snapshot of this controller.
    pub closed spec fn model(&self) -> ControllerModel {
        ControllerModel {
            col: self.anim.col(),
            width: self.canvas.width(),
            height: self.canvas.height(),
            lit: self.canvas.lit_set(),
        }
    }

    /// A controller for a `width` by `height` display: bar at column 0,
    /// frame blank.
    pub fn new(width: usize, height: usize) -> (c: Self)
        requires
            0 < width,
            0 < height,
            width * height <= usize::MAX,
        ensures
            c.wf(),
            model_wf(c.model()),
            c.model() == (ControllerModel {
                col: 0,
                width: width as nat,
                height: height as nat,
                lit: Set::<(int, int)>::empty(),
            }),
    {
        let c = Controller {
            anim: AnimationState::new(width),
            canvas: FrameCanvas::new(width, height),
        };
        proof {
            assert(c.canvas.lit_set() =~= Set::<(int, int)>::empty());
            assert(c.model() =~= (ControllerModel {
                col: 0,
                width: width as nat,
                height: height as nat,
                lit: Set::<(int, int)>::empty(),
            }));
        }
        c
    }

    /// The first half of a cycle: obtain the bar column from the
    /// animation and draw the bar there.  In this frame buffer the drawn
    /// column is always in range, so the draw succeeds; the returned
    /// result is recorded in the cycle's outcome all the same.  The new
    /// state is `advance_model` of the old one — nothing the other
    /// stages do can enter into it.
    pub fn draw_phase(&mut self) -> (r: (usize, Result<(), DisplayError>))
        requires
            old(self).wf(),
        ensures
            final(self).wf(),
            r.0 == old(self).model().col,
            r.1 is Ok,
            final(self).model() == advance_model(old(self).model()),
    {
        let col = self.anim.advance();
        let bar = self.canvas.draw_bar(col);
        proof {
            let w = old(self).canvas.width() as int;
            let h = old(self).canvas.height() as int;
            let c = old(self).anim.col() as int;
            let bar_set = bar_pixels(old(self).anim.col(), old(self).canvas.height());
            assert forall|p: (int, int)|
                self.canvas.lit_set().contains(p) == (old(self).canvas.lit_set().contains(p)
                    || bar_set.contains(p)) by {
                if 0 <= p.0 < w && 0 <= p.1 < h {
                    assert(self.canvas.pixel(p.0, p.1) == (old(self).canvas.pixel(p.0, p.1)
                        || p.0 == c));
                }
            }
            assert(self.canvas.lit_set() =~= old(self).canvas.lit_set().union(bar_set));
            assert(self.model() =~= advance_model(old(self).model()));
        }
        (col, bar)
    }

    /// The second half of a cycle: classify the stage outcomes and build
    /// the cycle's record.  A successful measurement is converted to
    /// Fahrenheit, a failed one is reported as the fault it was.  Total:
    /// no outcome stops the loop.
    pub fn finish_cycle(
        column: usize,
        bar_draw: Result<(), DisplayError>,
        flush: Result<(), DisplayError>,
        sensor: Result<Measurement, SensorError>,
    ) -> (r: CycleOutcome)
        ensures
            r == outcome_of(column, bar_draw, flush, sensor),
    {
        let report = match sensor {
            Ok(m) => Report::Reading {
                temperature_f_hundredths: celsius_to_fahrenheit(m.temperature),
                humidity_tenths: m.humidity,
            },
            Err(e) => Report::SensorFault(e),
        };
        CycleOutcome { column, bar_draw, flush, report }
    }

    /// Borrow the frame canvas, e.g. to mirror its pixels onto the
    /// device.
    pub fn canvas(&self) -> (r: &FrameCanvas)
        requires
            self.wf(),
        ensures
            r.wf(),
            r.width() == self.model().width,
            r.height() == self.model().height,
            r.lit_set() == self.model().lit,
    {
        &self.canvas
    }

    /// The column the next cycle's bar will use.
    pub fn column(&self) -> (r: usize)
        ensures
            r == self.model().col,
    {
        self.anim.current()
    }
}

} // verus!
