use imu_telemetry::average::Acceleration;
use imu_telemetry::average::Average;
use imu_telemetry::average::MagneticField;
use imu_telemetry::average::SimpleMovingAverage;
use imu_telemetry::average::SlidingWindow;
use imu_telemetry::control::Measuring;
use imu_telemetry::controller::SamplingController;
use imu_telemetry::timing::ElapsedTimeTracker;

fn mean(a: Average) -> f64 {
    a.sum as f64 / a.count as f64
}

fn accel(x: i32, y: i32, z: i32) -> Acceleration {
    Acceleration { x_mg: x, y_mg: y, z_mg: z }
}

#[test]
fn average_of_short_run_is_mean_of_all() {
    let mut w = SlidingWindow::new();
    w.push(10, 5);
    w.push(20, 5);
    w.push(30, 5);
    assert_eq!(w.len(), 3);
    let a = w.average().unwrap();
    assert_eq!(a.sum, 60);
    assert_eq!(a.count, 3);
    assert_eq!(mean(a), 20.0);
}

#[test]
fn eviction_keeps_only_latest_window() {
    let mut w = SlidingWindow::new();
    let samples: [i32; 6] = [10, 20, 30, 40, 50, 60];
    for &x in samples.iter() {
        w.push(x, 4);
    }
    assert_eq!(w.len(), 4);
    let a = w.average().unwrap();
    assert_eq!(a.sum, 30 + 40 + 50 + 60);
    assert_eq!(a.count, 4);
    assert_eq!(mean(a), 45.0);
}

#[test]
fn window_three_averages_last_three() {
    let mut sma = SimpleMovingAverage::new(3);
    let xs: [i32; 4] = [100, 200, 300, 400];
    for &x in xs.iter() {
        sma.add_acceleration(accel(x, 0, 0));
    }
    let (ax, ay, az) = sma.get_acc_average().unwrap();
    assert_eq!(ax.sum, 900);
    assert_eq!(ax.count, 3);
    assert_eq!(mean(ax), 300.0);
    assert_eq!(mean(ay), 0.0);
    assert_eq!(mean(az), 0.0);
}

#[test]
fn resize_smaller_never_bulk_truncates() {
    let mut sma = SimpleMovingAverage::new(5);
    let xs: [i32; 5] = [1, 2, 3, 4, 5];
    for &x in xs.iter() {
        sma.add_acceleration(accel(x, x, x));
    }
    let (ax, _, _) = sma.get_acc_average().unwrap();
    assert_eq!(ax.count, 5);
    sma.update_size(2);
    assert_eq!(sma.get_num_aves(), 2);
    let (ax, _, _) = sma.get_acc_average().unwrap();
    assert_eq!(ax.count, 5);
    assert_eq!(ax.sum, 15);
    sma.add_acceleration(accel(6, 6, 6));
    let (ax, _, _) = sma.get_acc_average().unwrap();
    assert_eq!(ax.count, 5);
    assert_eq!(ax.sum, 2 + 3 + 4 + 5 + 6);
}

#[test]
fn magnetic_and_temperature_channels_average_independently() {
    let mut sma = SimpleMovingAverage::new(4);
    assert!(sma.get_mag_average().is_none());
    assert!(sma.get_temp_average().is_none());
    sma.add_magnetic(MagneticField { x_nt: 100, y_nt: -200, z_nt: 300 });
    sma.add_magnetic(MagneticField { x_nt: 300, y_nt: 200, z_nt: 500 });
    let (mx, my, mz) = sma.get_mag_average().unwrap();
    assert_eq!(mean(mx), 200.0);
    assert_eq!(mean(my), 0.0);
    assert_eq!(mean(mz), 400.0);
    assert!(sma.get_acc_average().is_none());
    sma.add_temp(2150);
    let t = sma.get_temp_average().unwrap();
    assert_eq!(t.sum, 2150);
    assert_eq!(t.count, 1);
}

#[test]
fn empty_window_reports_no_data() {
    let sma = SimpleMovingAverage::new(3);
    assert!(sma.get_acc_average().is_none());
    assert!(sma.get_mag_average().is_none());
    assert!(sma.get_temp_average().is_none());
    let w = SlidingWindow::new();
    assert!(w.average().is_none());
}

#[test]
fn negative_samples_average_exactly() {
    let mut w = SlidingWindow::new();
    w.push(-2_000_000_000, 3);
    w.push(-2_000_000_000, 3);
    w.push(1_000_000_000, 3);
    let a = w.average().unwrap();
    assert_eq!(a.sum, -3_000_000_000);
    assert_eq!(a.count, 3);
    assert_eq!(mean(a), -1_000_000_000.0);
}

#[test]
fn toggle_twice_restores_state() {
    let mut m = Measuring { active: true, num_aves: 8 };
    let before = m.snapshot();
    m.toggle_active();
    assert!(!m.get_meas_state());
    assert_eq!(m.get_num_aves(), 8);
    m.toggle_active();
    assert_eq!(m, before);
}

#[test]
fn window_size_increment_saturates_at_capacity() {
    let mut m = Measuring { active: true, num_aves: 254 };
    m.increment_window_size();
    assert_eq!(m.get_num_aves(), 255);
    m.increment_window_size();
    assert_eq!(m.get_num_aves(), 255);
}

#[test]
fn button_events_drive_control_state() {
    let mut m = Measuring { active: true, num_aves: 8 };
    m.apply_button_events(true, false);
    assert!(!m.get_meas_state());
    m.apply_button_events(false, true);
    assert_eq!(m.get_num_aves(), 9);
    m.apply_button_events(true, true);
    assert!(m.get_meas_state());
    assert_eq!(m.get_num_aves(), 10);
}

#[test]
fn tick_measures_since_mark() {
    let mut t = ElapsedTimeTracker::new();
    assert_eq!(t.tick(500), 500);
    t.set_mark(500);
    assert_eq!(t.tick(750), 250);
    t.accumulate(500);
    t.accumulate(250);
    assert_eq!(t.total_ticks(), 750);
}

#[test]
fn tick_delta_nonnegative_across_wraparound() {
    let mut t = ElapsedTimeTracker::new();
    t.set_mark(0xFFFF_FFF0);
    let delta = t.tick(5);
    assert_eq!(delta, 21);
    t.accumulate(delta);
    t.mark_counter_cleared();
    assert_eq!(t.total_ticks(), 21);
    assert_eq!(t.tick(9), 9);
}

#[test]
fn controller_reports_at_interval_when_active() {
    let mut c = SamplingController::new(8, 1000);
    let active = Measuring { active: true, num_aves: 8 };

    let out = c.step(Some(accel(120, -60, 1000)), 400, active);
    assert!(!out.clear_counter);
    assert!(out.report.is_none());
    assert_eq!(c.total_elapsed_ticks(), 0);

    let out = c.step(Some(accel(80, 60, 1000)), 1200, active);
    assert!(out.clear_counter);
    let rep = out.report.unwrap();
    assert_eq!(rep.timestamp_ticks, 1200);
    assert_eq!(rep.window_size, 8);
    assert_eq!(rep.acc.0.sum, 200);
    assert_eq!(rep.acc.0.count, 2);
    assert_eq!(mean(rep.acc.0), 100.0);
    assert_eq!(mean(rep.acc.1), 0.0);
    assert_eq!(mean(rep.acc.2), 1000.0);
    assert_eq!(c.total_elapsed_ticks(), 1200);
}

#[test]
fn controller_inactive_skips_report_and_resize() {
    let mut c = SamplingController::new(8, 1000);
    let inactive = Measuring { active: false, num_aves: 12 };
    let out = c.step(Some(accel(10, 10, 10)), 2000, inactive);
    assert!(out.clear_counter);
    assert!(out.report.is_none());
    assert_eq!(c.current_window_size(), 8);
    assert_eq!(c.total_elapsed_ticks(), 2000);
}

#[test]
fn controller_applies_snapshot_window_size_clamped() {
    let mut c = SamplingController::new(8, 1000);
    let active = Measuring { active: true, num_aves: 0 };
    let out = c.step(Some(accel(1, 2, 3)), 1500, active);
    assert!(out.report.is_some());
    assert_eq!(c.current_window_size(), 1);
    let fresh = SamplingController::new(0, 1000);
    assert_eq!(fresh.current_window_size(), 1);
}

#[test]
fn controller_empty_windows_give_no_report() {
    let mut c = SamplingController::new(8, 1000);
    let active = Measuring { active: true, num_aves: 8 };
    let out = c.step(None, 3000, active);
    assert!(out.clear_counter);
    assert!(out.report.is_none());
    assert_eq!(c.total_elapsed_ticks(), 3000);
}
