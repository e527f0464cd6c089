use crate::action::Action;
use crate::classifier::{event_spec, EventClassifier};
use crate::config::{calibrated, CalibrationConfig, DeviceIdentity};
use crate::error::Error;
use crate::window::{slide, slide_all, stable_spec, window_never_exceeds_capacity, StabilityWindow};
use vstd::prelude::*;

verus! {

/// A hardware channel that produces raw ratio samples. Each sensor variant
/// (bridge board, amplifier chip, test stub) implements it.
pub trait SensorChannel {
    /// Opens the channel of the given sensor, sampling every `sample_period_ms`.
    fn open(&mut self, channel_id: i32, sensor_id: i32, sample_period_ms: u64) -> Result<(), Error>;

    /// Reads one raw sample, in integer counts.
    fn read_ratio(&self) -> Result<i64, Error>;

    /// Closes the channel.
    fn close(&mut self) -> Result<(), Error>;
}

/// A calibrated weight, tagged with whether the stability window was stable
/// once it had taken the weight in.
#[derive(Debug, Clone, Copy, PartialEq, Eq, Structural)]
pub enum Weight {
    Stable(i64),
    Unstable(i64),
}

/// The weight `value` with the tag `stable`.
pub open spec fn tagged(value: i64, stable: bool) -> Weight {
    if stable {
        Weight::Stable(value)
    } else {
        Weight::Unstable(value)
    }
}

impl Weight {
    pub open spec fn amount_spec(&self) -> i64 {
        match self {
            Weight::Stable(v) => *v,
            Weight::Unstable(v) => *v,
        }
    }

    /// The weight, whatever its tag.
    pub fn get_amount(&self) -> (r: i64)
        ensures
            r == self.amount_spec(),
    {
        match self {
            Weight::Stable(v) => *v,
            Weight::Unstable(v) => *v,
        }
    }

    /// Whether the weight was read from a stable window.
    pub fn is_stable(&self) -> (r: bool)
        ensures
            r == (self matches Weight::Stable(_)),
    {
        match self {
            Weight::Stable(_) => true,
            Weight::Unstable(_) => false,
        }
    }
}

/// A scale that is not connected: its calibration and identity.
#[derive(Debug, Clone, Copy, PartialEq, Eq, Structural)]
pub struct DisconnectedScale {
    pub config: CalibrationConfig,
    pub device: DeviceIdentity,
}

impl DisconnectedScale {
    pub fn new(config: CalibrationConfig, device: DeviceIdentity) -> (r: DisconnectedScale)
        ensures
            r.config == config,
            r.device == device,
    {
        DisconnectedScale { config, device }
    }

    pub fn get_device(&self) -> (r: DeviceIdentity)
        ensures
            r == self.device,
    {
        self.device
    }

    pub fn get_config(&self) -> (r: CalibrationConfig)
        ensures
            r == self.config,
    {
        self.config
    }

    /// Opens `channel` with the calibration's channel, sensor and sample
    /// period, and starts a scale with an empty window and no stable weight.
    /// A calibration with a zero buffer length is refused before the channel
    /// is touched; a fault of the channel is returned as it came.
    pub fn connect<C: SensorChannel>(self, channel: C) -> (r: Result<Scale<C>, Error>)
        ensures
            !self.config.wf() ==> r == Err::<Scale<C>, Error>(Error::Config),
            r matches Ok(s) ==> {
                &&& s.wf()
                &&& s.spec_config() == self.config
                &&& s.spec_device() == self.device
                &&& s.window_view() == Seq::<i64>::empty()
                &&& s.last_stable() == None::<i64>
            },
    {
        if !self.config.is_valid() {
            return Err(Error::Config);
        }
        let mut channel = channel;
        match channel.open(self.config.channel_id, self.config.sensor_id, self.config.sample_period_ms) {
            Err(e) => Err(e),
            Ok(()) => Ok(
                Scale {
                    channel,
                    config: self.config,
                    device: self.device,
                    window: StabilityWindow::new(self.config.buffer_length, self.config.max_noise),
                    classifier: EventClassifier::new(),
                },
            ),
        }
    }
}

/// A connected scale: it owns the open sensor channel, the stability window
/// and the event classifier's baseline.
pub struct Scale<C: SensorChannel> {
    channel: C,
    config: CalibrationConfig,
    device: DeviceIdentity,
    window: StabilityWindow,
    classifier: EventClassifier,
}

impl<C: SensorChannel> Scale<C> {
    pub closed spec fn spec_config(&self) -> CalibrationConfig {
        self.config
    }

    pub closed spec fn spec_device(&self) -> DeviceIdentity {
        self.device
    }

    /// The readings in the stability window, oldest first.
    pub closed spec fn window_view(&self) -> Seq<i64> {
        self.window@
    }

    /// The last weight observed while the window was stable.
    pub closed spec fn last_stable(&self) -> Option<i64> {
        self.classifier.last_stable_weight
    }

    /// The window has the calibration's length and threshold.
    pub closed spec fn wf(&self) -> bool {
        &&& self.config.wf()
        &&& self.window.wf()
        &&& self.window.spec_capacity() == self.config.buffer_length
        &&& self.window.spec_max_noise() == self.config.max_noise
    }

    /// The window is stable under the scale's calibration.
    pub open spec fn stable(&self) -> bool {
        stable_spec(
            self.window_view(),
            self.spec_config().buffer_length as nat,
            self.spec_config().max_noise as int,
        )
    }

    /// The calibrated reading of the raw sample `raw`.
    pub open spec fn reading_of(&self, raw: i64) -> i64 {
        calibrated(raw as int, self.spec_config().gain as int, self.spec_config().offset as int) as i64
    }

    /// The window after the calibrated reading `reading` is pushed into it.
    pub open spec fn slid(&self, reading: i64) -> Seq<i64> {
        slide(self.window_view(), reading, self.spec_config().buffer_length as nat)
    }

    pub fn get_device(&self) -> (r: DeviceIdentity)
        ensures
            r == self.spec_device(),
    {
        self.device
    }

    pub fn get_config(&self) -> (r: CalibrationConfig)
        ensures
            r == self.spec_config(),
    {
        self.config
    }

    /// The readings in the stability window, oldest first.
    pub fn window_values(&self) -> (r: Vec<i64>)
        ensures
            r@ == self.window_view(),
    {
        self.window.to_vec()
    }

    /// The last weight observed while the window was stable, if any.
    pub fn last_stable_weight(&self) -> (r: Option<i64>)
        ensures
            r == self.last_stable(),
    {
        self.classifier.last_stable_weight
    }

    /// One raw sample from the sensor channel; a fault is returned as it came.
    pub fn get_raw_reading(&self) -> (r: Result<i64, Error>) {
        self.channel.read_ratio()
    }

    /// One calibrated reading: `raw * gain - offset` of a fresh raw sample.
    fn get_reading(&self) -> (r: Result<i64, Error>)
        ensures
            r matches Ok(w) ==> exists|raw: i64| w == #[trigger] self.reading_of(raw),
    {
        match self.get_raw_reading() {
            Err(e) => Err(e),
            Ok(raw) => {
                let w = self.config.calibrate(raw);
                assert(w == self.reading_of(raw));
                Ok(w)
            },
        }
    }

    /// Whether the window is full and its spread is below the noise threshold.
    pub fn is_stable(&self) -> (r: bool)
        requires
            self.wf(),
        ensures
            r == self.stable(),
    {
        self.window.is_stable()
    }

    /// Pushes a calibrated reading into the window and tags it with the
    /// window's verdict.
    pub fn push_reading(&mut self, reading: i64) -> (r: Weight)
        requires
            old(self).wf(),
        ensures
            final(self).wf(),
            final(self).window_view() == old(self).slid(reading),
            final(self).spec_config() == old(self).spec_config(),
            final(self).spec_device() == old(self).spec_device(),
            final(self).last_stable() == old(self).last_stable(),
            r == tagged(reading, final(self).stable()),
    {
        self.window.push(reading);
        if self.window.is_stable() {
            Weight::Stable(reading)
        } else {
            Weight::Unstable(reading)
        }
    }

    /// Reads a calibrated weight, pushes it into the window and returns it
    /// tagged with the window's verdict. A sensor fault leaves the window as it was.
    pub fn get_weight(&mut self) -> (r: Result<Weight, Error>)
        requires
            old(self).wf(),
        ensures
            final(self).wf(),
            final(self).spec_config() == old(self).spec_config(),
            final(self).spec_device() == old(self).spec_device(),
            final(self).last_stable() == old(self).last_stable(),
            r is Err ==> final(self).window_view() == old(self).window_view(),
            r matches Ok(w) ==> exists|raw: i64|
                {
                    &&& final(self).window_view() == old(self).slid(#[trigger] old(self).reading_of(raw))
                    &&& w == tagged(old(self).reading_of(raw), final(self).stable())
                },
    {
        match self.get_reading() {
            Err(e) => Err(e),
            Ok(reading) => Ok(self.push_reading(reading)),
        }
    }

    /// The event classifier, run after a poll: nothing unless the window is
    /// stable; then the latest reading becomes the stable weight, and an event
    /// is emitted when it differs from the previous one by more than the noise
    /// threshold.
    pub fn check_for_action(&mut self) -> (r: Option<(Action, i128)>)
        requires
            old(self).wf(),
        ensures
            final(self).wf(),
            final(self).spec_config() == old(self).spec_config(),
            final(self).spec_device() == old(self).spec_device(),
            final(self).window_view() == old(self).window_view(),
            !old(self).stable() ==> r == None::<(Action, i128)> && final(self).last_stable()
                == old(self).last_stable(),
            old(self).stable() ==> final(self).last_stable() == Some(old(self).window_view().last()),
            old(self).stable() ==> r == event_spec(
                old(self).last_stable(),
                old(self).window_view().last(),
                old(self).spec_config().max_noise as int,
            ),
    {
        if self.window.is_stable() {
            match self.window.last() {
                Some(last) => self.classifier.observe_stable(last, self.config.max_noise),
                None => None,
            }
        } else {
            None
        }
    }

    /// Closes and reopens the sensor channel, then clears the window and the
    /// stable weight; the calibration is kept. A channel fault is returned and
    /// leaves the window and the stable weight as they were.
    pub fn restart(&mut self) -> (r: Result<(), Error>)
        requires
            old(self).wf(),
        ensures
            final(self).wf(),
            final(self).spec_config() == old(self).spec_config(),
            final(self).spec_device() == old(self).spec_device(),
            r is Ok ==> final(self).window_view() == Seq::<i64>::empty(),
            r is Ok ==> final(self).last_stable() == None::<i64>,
            r is Err ==> final(self).window_view() == old(self).window_view(),
            r is Err ==> final(self).last_stable() == old(self).last_stable(),
    {
        match self.channel.close() {
            Err(e) => return Err(e),
            Ok(()) => {},
        }
        match self.channel.open(self.config.channel_id, self.config.sensor_id, self.config.sample_period_ms) {
            Err(e) => return Err(e),
            Ok(()) => {},
        }
        self.window.clear();
        self.classifier.reset();
        Ok(())
    }

    /// Closes the sensor channel and gives back the calibration and identity.
    pub fn disconnect(self) -> (r: Result<DisconnectedScale, Error>)
        ensures
            r matches Ok(d) ==> d.config == self.spec_config() && d.device == self.spec_device(),
    {
        let mut channel = self.channel;
        match channel.close() {
            Err(e) => Err(e),
            Ok(()) => Ok(DisconnectedScale { config: self.config, device: self.device }),
        }
    }
}

/// A scale whose window was emptied, as a successful restart leaves it, is
/// not stable, and stays unstable until as many readings as the buffer length
/// have been pushed again.
pub proof fn restarted_scale_is_unstable_until_full<C: SensorChannel>(s: Scale<C>, readings: Seq<i64>)
    requires
        s.wf(),
        s.window_view() == Seq::<i64>::empty(),
        readings.len() < s.spec_config().buffer_length,
    ensures
        !s.stable(),
        !stable_spec(
            slide_all(s.window_view(), readings, s.spec_config().buffer_length as nat),
            s.spec_config().buffer_length as nat,
            s.spec_config().max_noise as int,
        ),
{
    window_never_exceeds_capacity(
        s.window_view(),
        readings,
        s.spec_config().buffer_length as nat,
        s.spec_config().max_noise as int,
    );
}

} // verus!
