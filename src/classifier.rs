use crate::action::Action;
use vstd::prelude::*;

verus! {

/// The event for a new stable weight `last` against the remembered stable
/// weight `baseline`: nothing without a baseline or when the change is within
/// `noise`, else `Refilled` for a gain and `Served` for a loss, with the change.
pub open spec fn event_spec(baseline: Option<i64>, last: i64, noise: int) -> Option<(Action, i128)> {
    match baseline {
        None => None,
        Some(b) => {
            let delta = last - b;
            if delta > noise || -delta > noise {
                Some((if delta > 0 { Action::Refilled } else { Action::Served }, delta as i128))
            } else {
                None
            }
        },
    }
}

/// Remembers the last stable weight and turns settled changes into events.
#[derive(Debug, Clone, Copy, PartialEq, Eq, Structural)]
pub struct EventClassifier {
    pub last_stable_weight: Option<i64>,
}

impl EventClassifier {
    /// A classifier with no baseline yet.
    pub fn new() -> (r: EventClassifier)
        ensures
            r.last_stable_weight == None::<i64>,
    {
        EventClassifier { last_stable_weight: None }
    }

    /// Forgets the baseline.
    pub fn reset(&mut self)
        ensures
            final(self).last_stable_weight == None::<i64>,
    {
        self.last_stable_weight = None;
    }

    /// Takes in a weight observed while the window was stable. The weight
    /// becomes the new baseline; an event is emitted when it differs from the
    /// previous baseline by more than `max_noise`.
    pub fn observe_stable(&mut self, last: i64, max_noise: i64) -> (r: Option<(Action, i128)>)
        ensures
            final(self).last_stable_weight == Some(last),
            r == event_spec(old(self).last_stable_weight, last, max_noise as int),
    {
        let previous = self.last_stable_weight;
        self.last_stable_weight = Some(last);
        match previous {
            None => None,
            Some(b) => {
                let delta: i128 = (last as i128) - (b as i128);
                let noise: i128 = max_noise as i128;
                if delta > noise || -delta > noise {
                    let action = if delta > 0 {
                        Action::Refilled
                    } else {
                        Action::Served
                    };
                    Some((action, delta))
                } else {
                    None
                }
            },
        }
    }

    /// Takes in the state of the window after a poll: nothing happens unless
    /// it is stable, in which case its latest value is observed.
    pub fn observe(&mut self, stable: bool, last: i64, max_noise: i64) -> (r: Option<(Action, i128)>)
        ensures
            !stable ==> r == None::<(Action, i128)> && *final(self) == *old(self),
            stable ==> final(self).last_stable_weight == Some(last),
            stable ==> r == event_spec(old(self).last_stable_weight, last, max_noise as int),
    {
        if stable {
            self.observe_stable(last, max_noise)
        } else {
            None
        }
    }
}

/// The first stable observation never emits an event, whatever its value.
pub proof fn first_stable_observation_is_silent(last: i64, noise: int)
    ensures
        event_spec(None, last, noise) == None::<(Action, i128)>,
{
}

/// A change of exactly `noise`, up or down, never emits an event.
pub proof fn change_equal_to_noise_is_silent(baseline: i64, last: i64, noise: int)
    requires
        last - baseline == noise || baseline - last == noise,
        noise >= 0,
    ensures
        event_spec(Some(baseline), last, noise) == None::<(Action, i128)>,
{
}

/// An emitted event carries the exact change, and its kind follows the sign.
pub proof fn event_kind_follows_sign(baseline: i64, last: i64, noise: int)
    requires
        noise >= 0,
    ensures
        last - baseline > noise ==> event_spec(Some(baseline), last, noise)
            == Some((Action::Refilled, (last - baseline) as i128)),
        baseline - last > noise ==> event_spec(Some(baseline), last, noise)
            == Some((Action::Served, (last - baseline) as i128)),
{
}

} // verus!
