//! The dryer itself: its reported state, the fan, the sensor and the heater.

pub mod fan;
pub mod heater;
pub mod regulator;
pub mod sensor;

use vstd::prelude::*;

verus! {

/// What a state report says, as plain values.
pub struct StateView {
    pub active: bool,
    pub temperature: u16,
    pub action: Seq<char>,
}

/// One report on the cycle: whether it runs, the last reading, and the word
/// for what the regulator did with it.
#[derive(Debug)]
pub struct State {
    active: bool,
    temp: u16,
    action: String,
}

impl View for State {
    type V = StateView;

    closed spec fn view(&self) -> StateView {
        StateView { active: self.active, temperature: self.temp, action: self.action@ }
    }
}

impl State {
    pub fn new(active: bool, temp: u16, action: String) -> (state: Self)
        ensures
            state@ == (StateView { active, temperature: temp, action: action@ }),
    {
        Self { active, temp, action }
    }

    /// The report sent when a cycle is asked for: running, nothing read yet.
    pub fn active() -> (state: Self)
        ensures
            state@ == (StateView { active: true, temperature: 0, action: Seq::empty() }),
    {
        Self { active: true, temp: 0, action: String::new() }
    }

    /// The report sent when no cycle runs.
    pub fn inactive() -> (state: Self)
        ensures
            state@ == (StateView { active: false, temperature: 0, action: Seq::empty() }),
    {
        Self { active: false, temp: 0, action: String::new() }
    }

    pub fn is_active(&self) -> (active: bool)
        ensures
            active == self@.active,
    {
        self.active
    }

    pub fn temperature(&self) -> (temp: u16)
        ensures
            temp == self@.temperature,
    {
        self.temp
    }

    pub fn action(&self) -> (action: &str)
        ensures
            action@ == self@.action,
    {
        self.action.as_str()
    }

    /// The topic under which reports are published.
    pub fn topic(&self) -> (topic: &'static str)
        ensures
            topic@ == "/state"@,
    {
        "/state"
    }
}

} // verus!
