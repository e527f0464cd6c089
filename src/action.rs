use vstd::prelude::*;

verus! {

/// An inventory event. Only `Served` and `Refilled` come out of the event
/// classifier; the others are produced by operational logic elsewhere.
#[derive(Debug, Clone, Copy, PartialEq, Eq, Structural)]
pub enum Action {
    Served,
    RanOut,
    Refilled,
    Starting,
    Heartbeat,
    Offline,
}

/// The display name of an action.
pub open spec fn action_name(a: Action) -> Seq<char> {
    match a {
        Action::Served => "Served"@,
        Action::RanOut => "RanOut"@,
        Action::Refilled => "Refilled"@,
        Action::Starting => "Starting"@,
        Action::Heartbeat => "Heartbeat"@,
        Action::Offline => "Offline"@,
    }
}

impl Action {
    /// The name under which the action is shown and reported.
    pub fn name(&self) -> (r: &'static str)
        ensures
            r@ == action_name(*self),
    {
        match self {
            Action::Served => "Served",
            Action::RanOut => "RanOut",
            Action::Refilled => "Refilled",
            Action::Starting => "Starting",
            Action::Heartbeat => "Heartbeat",
            Action::Offline => "Offline",
        }
    }

    /// The name as an owned string.
    pub fn to_string(&self) -> (r: String)
        ensures
            r@ == action_name(*self),
    {
        let s = self.name();
        s.to_string()
    }
}

} // verus!
