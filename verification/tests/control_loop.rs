//! Scenario tests of the control loop: failure isolation across many
//! cycles and the end-to-end reporting path.

use enviro_loop::canvas::DisplayError;
use enviro_loop::cycle::Controller;
use enviro_loop::cycle::Report;
use enviro_loop::sensor::Measurement;
use enviro_loop::sensor::SensorError;

#[test]
fn new_controller_starts_blank_at_column_zero() {
    let ctl = Controller::new(128, 64);
    assert_eq!(ctl.column(), 0);
    let canvas = ctl.canvas();
    assert_eq!(canvas.dimensions(), (128, 64));
    for x in 0..128 {
        for y in 0..64 {
            assert!(!canvas.pixel_at(x, y));
        }
    }
}

#[test]
fn draw_phase_advances_and_draws() {
    let mut ctl = Controller::new(16, 8);
    let (col, bar) = ctl.draw_phase();
    assert_eq!(col, 0);
    assert_eq!(bar, Ok(()));
    assert_eq!(ctl.column(), 1);
    let canvas = ctl.canvas();
    for x in 0..16 {
        for y in 0..8 {
            assert_eq!(canvas.pixel_at(x, y), x == 0);
        }
    }
}

#[test]
fn controller_sweep_wraps_after_full_width() {
    let mut ctl = Controller::new(4, 2);
    for want in [0usize, 1, 2, 3, 0, 1] {
        assert_eq!(ctl.draw_phase().0, want);
    }
}

#[test]
fn a_hundred_sensor_faults_do_not_halt_the_loop() {
    let mut ctl = Controller::new(128, 64);
    let mut faults = 0;
    for n in 0..100usize {
        let (col, bar) = ctl.draw_phase();
        assert_eq!(col, n % 128);
        let out = Controller::finish_cycle(col, bar, Ok(()), Err(SensorError::Timeout));
        match out.report {
            Report::SensorFault(e) => {
                assert_eq!(e, SensorError::Timeout);
                faults += 1;
            }
            Report::Reading { .. } => panic!("a failed measurement produced a reading"),
        }
    }
    // one log entry per failed cycle, and the loop is still running
    assert_eq!(faults, 100);
    let (col, _) = ctl.draw_phase();
    assert_eq!(col, 100);
}

#[test]
fn failing_flush_never_blocks_measurement() {
    let mut ctl = Controller::new(128, 64);
    let mut readings = 0;
    for n in 0..10usize {
        let (col, bar) = ctl.draw_phase();
        // the flush fails every cycle; the measurement is still taken
        // once per cycle and reported in full
        let sensor = Ok(Measurement { temperature: 200 + n as i16, humidity: 500 });
        let out = Controller::finish_cycle(col, bar, Err(DisplayError::BusWrite), sensor);
        assert_eq!(out.flush, Err(DisplayError::BusWrite));
        match out.report {
            Report::Reading { temperature_f_hundredths, humidity_tenths } => {
                assert_eq!(temperature_f_hundredths, (200 + n as i32) * 18 + 3200);
                assert_eq!(humidity_tenths, 500);
                readings += 1;
            }
            Report::SensorFault(_) => panic!("reading lost after a flush failure"),
        }
    }
    assert_eq!(readings, 10);
}

#[test]
fn end_to_end_two_cycles() {
    let mut ctl = Controller::new(128, 64);

    // cycle 1: bar at column 0; the sensor returns 25.0 degrees Celsius
    // and 60.0 percent humidity; the report is 77.00 degrees Fahrenheit
    let (col, bar) = ctl.draw_phase();
    assert_eq!(col, 0);
    assert_eq!(bar, Ok(()));
    let sensor = Ok(Measurement { temperature: 250, humidity: 600 });
    let out = Controller::finish_cycle(col, bar, Ok(()), sensor);
    assert_eq!(out.column, 0);
    assert_eq!(out.bar_draw, Ok(()));
    assert_eq!(out.flush, Ok(()));
    assert_eq!(
        out.report,
        Report::Reading { temperature_f_hundredths: 7700, humidity_tenths: 600 }
    );

    // cycle 2: bar at column 1; the sensor times out; the report is the
    // fault and carries no temperature or humidity line
    let (col2, bar2) = ctl.draw_phase();
    assert_eq!(col2, 1);
    let out2 = Controller::finish_cycle(col2, bar2, Ok(()), Err(SensorError::Timeout));
    assert_eq!(out2.column, 1);
    assert_eq!(out2.report, Report::SensorFault(SensorError::Timeout));
    assert!(!matches!(out2.report, Report::Reading { .. }));
}

#[test]
fn each_sensor_fault_kind_is_reported_as_itself() {
    for e in [
        SensorError::Timeout,
        SensorError::ChecksumMismatch,
        SensorError::Gpio(-7),
    ] {
        let out = Controller::finish_cycle(3, Ok(()), Ok(()), Err(e));
        assert_eq!(out.report, Report::SensorFault(e));
    }
}

#[test]
fn outcome_records_every_stage() {
    let out = Controller::finish_cycle(
        9,
        Err(DisplayError::OutOfBounds),
        Err(DisplayError::BusWrite),
        Err(SensorError::Gpio(3)),
    );
    assert_eq!(out.column, 9);
    assert_eq!(out.bar_draw, Err(DisplayError::OutOfBounds));
    assert_eq!(out.flush, Err(DisplayError::BusWrite));
    assert_eq!(out.report, Report::SensorFault(SensorError::Gpio(3)));
}
