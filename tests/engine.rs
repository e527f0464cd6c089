use std::cell::Cell;

use loadcell::action::Action;
use loadcell::classifier::EventClassifier;
use loadcell::config::{CalibrationConfig, DeviceIdentity};
use loadcell::error::Error;
use loadcell::scale::{DisconnectedScale, Scale, SensorChannel, Weight};
use loadcell::settle::{SettleStatus, Settler};
use loadcell::usb::{is_phidget_bridge, parse_serial_number};
use loadcell::window::StabilityWindow;

/// A sensor that replays a fixed list of raw samples, then repeats the last one.
struct StubSensor {
    samples: Vec<Result<i64, Error>>,
    next: Cell<usize>,
    opens: Cell<usize>,
    closes: Cell<usize>,
    fail_open: bool,
}

impl StubSensor {
    fn new(samples: Vec<i64>) -> StubSensor {
        StubSensor {
            samples: samples.into_iter().map(Ok).collect(),
            next: Cell::new(0),
            opens: Cell::new(0),
            closes: Cell::new(0),
            fail_open: false,
        }
    }
}

impl SensorChannel for StubSensor {
    fn open(&mut self, _channel_id: i32, _sensor_id: i32, _sample_period_ms: u64) -> Result<(), Error> {
        self.opens.set(self.opens.get() + 1);
        if self.fail_open {
            Err(Error::Connection(-3))
        } else {
            Ok(())
        }
    }

    fn read_ratio(&self) -> Result<i64, Error> {
        let i = self.next.get();
        let idx = if i < self.samples.len() { i } else { self.samples.len() - 1 };
        self.next.set(i + 1);
        self.samples[idx]
    }

    fn close(&mut self) -> Result<(), Error> {
        self.closes.set(self.closes.get() + 1);
        Ok(())
    }
}

fn config(buffer_length: usize, max_noise: i64) -> CalibrationConfig {
    CalibrationConfig {
        gain: 1,
        offset: 0,
        buffer_length,
        max_noise,
        sample_period_ms: 250,
        sensor_id: 716588,
        channel_id: 0,
    }
}

fn device() -> DeviceIdentity {
    DeviceIdentity { model: 0, index: 0 }
}

fn connect(cfg: CalibrationConfig, samples: Vec<i64>) -> Scale<StubSensor> {
    DisconnectedScale::new(cfg, device()).connect(StubSensor::new(samples)).unwrap()
}

/// Drives a settle-and-measure loop on a stub sensor with a simulated clock
/// that advances one sample period per iteration.
fn settle_raw(
    sensor: &StubSensor,
    stable_samples: usize,
    timeout_ms: u64,
    max_noise_ppm: u32,
    period_ms: u64,
) -> Result<(i64, u64), Error> {
    let mut settler = Settler::new(sensor.read_ratio()?, stable_samples, max_noise_ppm);
    let mut elapsed: u64 = 0;
    if settler.is_settled() {
        return Ok((settler.baseline(), elapsed));
    }
    loop {
        let sample = sensor.read_ratio()?;
        elapsed += period_ms;
        match settler.step(sample, elapsed, timeout_ms) {
            SettleStatus::Pending => {}
            SettleStatus::Settled(v) => return Ok((v, elapsed)),
            SettleStatus::TimedOut => return Err(Error::Timeout),
        }
    }
}

#[test]
fn window_never_holds_more_than_capacity() {
    let mut w = StabilityWindow::new(4, 5);
    for i in 0..20i64 {
        w.push(i * 100);
        assert!(w.len() <= 4);
        if w.len() < 4 {
            assert!(!w.is_stable());
        }
    }
    assert_eq!(w.to_vec(), vec![1600, 1700, 1800, 1900]);
}

#[test]
fn window_stable_then_evicts_oldest() {
    let mut w = StabilityWindow::new(3, 1000);
    w.push(10000);
    assert!(!w.is_stable());
    w.push(10200);
    assert!(!w.is_stable());
    w.push(10900);
    assert!(w.is_stable());
    w.push(12000);
    assert_eq!(w.to_vec(), vec![10200, 10900, 12000]);
    assert!(!w.is_stable());
}

#[test]
fn window_range_equal_to_noise_is_unstable() {
    let mut w = StabilityWindow::new(2, 1000);
    w.push(5000);
    w.push(6000);
    assert!(!w.is_stable());
    w.push(5001);
    assert!(w.is_stable());
}

#[test]
fn window_clear_and_last() {
    let mut w = StabilityWindow::new(2, 10);
    assert_eq!(w.last(), None);
    w.push(7);
    w.push(9);
    assert_eq!(w.last(), Some(9));
    w.clear();
    assert_eq!(w.len(), 0);
    assert_eq!(w.capacity(), 2);
    assert_eq!(w.max_noise(), 10);
}

#[test]
fn first_stable_observation_emits_nothing() {
    for v in [i64::MIN, -5, 0, 100000, i64::MAX] {
        let mut c = EventClassifier::new();
        assert_eq!(c.observe_stable(v, 1000), None);
        assert_eq!(c.last_stable_weight, Some(v));
    }
}

#[test]
fn refilled_then_served() {
    let mut c = EventClassifier::new();
    assert_eq!(c.observe_stable(100000, 1000), None);
    assert_eq!(c.observe_stable(100000, 1000), None);
    assert_eq!(c.observe_stable(150000, 1000), Some((Action::Refilled, 50000)));
    assert_eq!(c.observe_stable(100000, 1000), Some((Action::Served, -50000)));
}

#[test]
fn delta_equal_to_noise_is_silent() {
    let mut c = EventClassifier::new();
    assert_eq!(c.observe_stable(100000, 1000), None);
    assert_eq!(c.observe_stable(101000, 1000), None);
    assert_eq!(c.observe_stable(100000, 1000), None);
    assert_eq!(c.observe_stable(101001, 1000), Some((Action::Refilled, 1001)));
}

#[test]
fn unstable_observation_keeps_baseline() {
    let mut c = EventClassifier::new();
    assert_eq!(c.observe(true, 100, 1), None);
    assert_eq!(c.observe(false, 900, 1), None);
    assert_eq!(c.last_stable_weight, Some(100));
    c.reset();
    assert_eq!(c.last_stable_weight, None);
}

#[test]
fn extreme_delta_is_exact() {
    let mut c = EventClassifier::new();
    c.observe_stable(i64::MIN, 0);
    assert_eq!(
        c.observe_stable(i64::MAX, 0),
        Some((Action::Refilled, (i64::MAX as i128) - (i64::MIN as i128)))
    );
}

#[test]
fn scale_polls_and_classifies() {
    let mut scale = connect(config(3, 1000), vec![100000, 100000, 100000, 100000, 150000, 150000, 150000, 100000, 100000, 100000]);
    assert_eq!(scale.get_weight(), Ok(Weight::Unstable(100000)));
    assert_eq!(scale.check_for_action(), None);
    assert_eq!(scale.get_weight(), Ok(Weight::Unstable(100000)));
    assert_eq!(scale.get_weight(), Ok(Weight::Stable(100000)));
    assert_eq!(scale.check_for_action(), None);
    assert_eq!(scale.last_stable_weight(), Some(100000));
    assert_eq!(scale.get_weight(), Ok(Weight::Stable(100000)));
    assert_eq!(scale.check_for_action(), None);
    assert_eq!(scale.get_weight(), Ok(Weight::Unstable(150000)));
    assert_eq!(scale.check_for_action(), None);
    assert_eq!(scale.get_weight(), Ok(Weight::Unstable(150000)));
    assert_eq!(scale.get_weight(), Ok(Weight::Stable(150000)));
    assert_eq!(scale.check_for_action(), Some((Action::Refilled, 50000)));
    assert_eq!(scale.get_weight(), Ok(Weight::Unstable(100000)));
    assert_eq!(scale.get_weight(), Ok(Weight::Unstable(100000)));
    assert_eq!(scale.get_weight(), Ok(Weight::Stable(100000)));
    assert_eq!(scale.check_for_action(), Some((Action::Served, -50000)));
}

#[test]
fn scale_applies_calibration() {
    let mut cfg = config(2, 10);
    cfg.gain = 3;
    cfg.offset = 7;
    let mut scale = connect(cfg, vec![5, -2]);
    assert_eq!(scale.get_raw_reading(), Ok(5));
    assert_eq!(scale.get_weight(), Ok(Weight::Unstable(-13)));
    assert_eq!(scale.get_weight().map(|w| w.get_amount()), Ok(-13));
    assert_eq!(scale.window_values(), vec![-13, -13]);
}

#[test]
fn calibrate_values() {
    let mut cfg = config(1, 1);
    cfg.gain = 834;
    cfg.offset = -3;
    assert_eq!(cfg.calibrate(10), 8343);
    assert_eq!(cfg.calibrate(-10), -8337);
    assert_eq!(cfg.get_gain(), 834);
    assert_eq!(cfg.get_offset(), -3);
    cfg.gain = i64::MAX;
    assert_eq!(cfg.calibrate(2), i64::MAX);
    assert_eq!(cfg.calibrate(-2), i64::MIN);
}

#[test]
fn sensor_fault_propagates_and_keeps_window() {
    let mut sensor = StubSensor::new(vec![10, 10]);
    sensor.samples.insert(1, Err(Error::Sensor(-7)));
    let mut scale = DisconnectedScale::new(config(2, 5), device()).connect(sensor).unwrap();
    assert_eq!(scale.get_weight(), Ok(Weight::Unstable(10)));
    assert_eq!(scale.get_weight(), Err(Error::Sensor(-7)));
    assert_eq!(scale.window_values(), vec![10]);
    assert_eq!(scale.get_weight(), Ok(Weight::Stable(10)));
}

#[test]
fn connect_refuses_zero_buffer_length() {
    let r = DisconnectedScale::new(config(0, 5), device()).connect(StubSensor::new(vec![1]));
    assert!(matches!(r, Err(Error::Config)));
}

#[test]
fn connect_propagates_open_fault() {
    let mut sensor = StubSensor::new(vec![1]);
    sensor.fail_open = true;
    let r = DisconnectedScale::new(config(2, 5), device()).connect(sensor);
    assert!(matches!(r, Err(Error::Connection(-3))));
}

#[test]
fn restart_clears_history() {
    let mut scale = connect(config(3, 1000), vec![500]);
    for _ in 0..3 {
        scale.get_weight().unwrap();
    }
    assert!(scale.is_stable());
    assert_eq!(scale.check_for_action(), None);
    assert_eq!(scale.last_stable_weight(), Some(500));
    assert_eq!(scale.restart(), Ok(()));
    assert!(!scale.is_stable());
    assert_eq!(scale.last_stable_weight(), None);
    assert_eq!(scale.window_values(), Vec::<i64>::new());
    assert_eq!(scale.get_weight(), Ok(Weight::Unstable(500)));
    assert_eq!(scale.get_weight(), Ok(Weight::Unstable(500)));
    assert!(!scale.is_stable());
    assert_eq!(scale.get_weight(), Ok(Weight::Stable(500)));
    assert!(scale.is_stable());
    assert_eq!(scale.get_config(), config(3, 1000));
}

#[test]
fn disconnect_returns_calibration() {
    let scale = connect(config(3, 1000), vec![1]);
    assert_eq!(scale.get_device(), device());
    let d = scale.disconnect().unwrap();
    assert_eq!(d.get_config(), config(3, 1000));
    assert_eq!(d.get_device(), device());
}

#[test]
fn settle_constant_converges() {
    let sensor = StubSensor::new(vec![79406]);
    let (value, elapsed) = settle_raw(&sensor, 3, 10_000, 1, 250).unwrap();
    assert_eq!(value, 79406);
    assert_eq!(elapsed, 750);
}

#[test]
fn settle_drifting_times_out() {
    let samples: Vec<i64> = (0..60).map(|i| 1000i64 << i).collect();
    let sensor = StubSensor::new(samples);
    assert_eq!(settle_raw(&sensor, 3, 10_000, 100_000, 250), Err(Error::Timeout));
    assert_eq!(sensor.next.get(), 42);
}

#[test]
fn settle_outlier_rebaselines() {
    let mut s = Settler::new(1000, 2, 100_000);
    assert_eq!(s.step(1050, 0, 10), SettleStatus::Pending);
    assert_eq!(s.stable_count(), 1);
    assert_eq!(s.step(2000, 0, 10), SettleStatus::Pending);
    assert_eq!(s.baseline(), 2000);
    assert_eq!(s.stable_count(), 0);
    assert_eq!(s.step(2100, 0, 10), SettleStatus::Pending);
    assert_eq!(s.step(1901, 0, 10), SettleStatus::Settled(2000));
}

#[test]
fn settle_zero_required_is_settled_at_once() {
    let s = Settler::new(42, 0, 1);
    assert!(s.is_settled());
    assert_eq!(s.baseline(), 42);
}

#[test]
fn settle_timeout_wins_over_convergence() {
    let mut s = Settler::new(1000, 1, 100_000);
    assert_eq!(s.step(1000, 11, 10), SettleStatus::TimedOut);
}

#[test]
fn band_is_relative_and_strict() {
    assert!(Settler::within_band(1000, 1099, 100_000));
    assert!(!Settler::within_band(1000, 1100, 100_000));
    assert!(!Settler::within_band(-1000, -1100, 100_000));
    assert!(Settler::within_band(-1000, -901, 100_000));
    assert!(!Settler::within_band(0, 0, 100_000));
}

#[test]
fn weigh_once_settled() {
    let weight_reading: i64 = 79406;
    let empty_reading: i64 = -3223;
    let mut cfg = config(1, 1);
    cfg.gain = 10;
    cfg.offset = 10 * empty_reading;
    let sensor = StubSensor::new(vec![weight_reading]);
    let (raw, _) = settle_raw(&sensor, 3, 10_000, 100_000, 250).unwrap();
    assert_eq!(cfg.calibrate(raw), 10 * (weight_reading - empty_reading));
}

#[test]
fn action_names() {
    assert_eq!(Action::Served.name(), "Served");
    assert_eq!(Action::RanOut.name(), "RanOut");
    assert_eq!(Action::Refilled.to_string(), "Refilled");
    assert_eq!(Action::Starting.name(), "Starting");
    assert_eq!(Action::Heartbeat.name(), "Heartbeat");
    assert_eq!(Action::Offline.to_string(), "Offline");
}

#[test]
fn weight_accessors() {
    assert_eq!(Weight::Stable(5).get_amount(), 5);
    assert_eq!(Weight::Unstable(-5).get_amount(), -5);
    assert!(Weight::Stable(5).is_stable());
    assert!(!Weight::Unstable(5).is_stable());
}

#[test]
fn serial_numbers_parse() {
    assert_eq!(parse_serial_number("716588"), Ok(716588));
    assert_eq!(parse_serial_number("-5"), Ok(-5));
    assert_eq!(parse_serial_number("+12"), Ok(12));
    assert_eq!(parse_serial_number(""), Err(Error::ParseInt));
    assert_eq!(parse_serial_number("abc"), Err(Error::ParseInt));
    assert_eq!(parse_serial_number(" 7"), Err(Error::ParseInt));
    assert_eq!(parse_serial_number("2147483648"), Err(Error::ParseInt));
    assert_eq!(parse_serial_number("-2147483648"), Ok(i32::MIN));
}

#[test]
fn bridge_ids_match() {
    assert!(is_phidget_bridge(1730, 59));
    assert!(!is_phidget_bridge(1730, 58));
    assert!(!is_phidget_bridge(1731, 59));
}
