//! The panel: the three widgets side by side, and where each event goes.
use vstd::prelude::*;
use crate::battery;
use crate::battery::{Battery, Reading, SensorError};
use crate::clock::{Clock, LocalTime};
use crate::power;
use crate::power::{Power, Prompt};

verus! {

/// An event for the panel: a refresh tick, or a click on a power button.
#[derive(Clone, Copy, Debug, PartialEq, Eq, Structural)]
pub enum Message {
    Tick,
    Power(power::Message),
}

/// The three widgets.
pub struct Panel {
    pub battery: Battery,
    pub clock: Clock,
    pub power: Power,
}

/// What the panel draws at one moment.
#[derive(Debug)]
pub struct Frame {
    pub battery: Vec<battery::Item>,
    pub clock: String,
    pub power: Vec<power::Message>,
}

impl Panel {
    pub fn new(clock: Clock, power: Power, battery: Battery) -> (r: Panel)
        ensures
            r.clock == clock,
            r.power == power,
            r.battery == battery,
    {
        Panel { clock, power, battery }
    }

    /// A tick asks nothing of the user; a click on a power button asks for
    /// confirmation, and only while the power widget shows its buttons.
    pub fn update(&self, message: Message) -> (r: Option<Prompt>)
        ensures
            message is Tick ==> r is None,
            !self.power.cfg.enable ==> r is None,
            match message {
                Message::Tick => r is None,
                Message::Power(m) => self.power.cfg.enable ==> (r matches Some(p) && p.kind == m
                    && p.title@ == power::title_of(m) && p.text@ == power::question_of(m)),
            },
    {
        match message {
            Message::Tick => None,
            Message::Power(m) => self.power.update(m),
        }
    }

    /// The frame for the time `now` and the latest battery readings.
    pub fn view(&self, now: &LocalTime, readings: &Result<Vec<Reading>, SensorError>) -> (r:
        Frame)
        ensures
            r.clock@ == (if self.clock.cfg.enable {
                crate::clock::clock_text(*now, self.clock.cfg.format@)
            } else {
                Seq::empty()
            }),
            r.power@ == power::buttons_of(self.power.cfg.enable),
            !self.battery.cfg.enable || !self.battery.sensor ==> r.battery@.len() == 0,
            self.battery.cfg.enable && self.battery.sensor ==> match readings {
                Ok(rs) => battery::items_match(rs@, r.battery@),
                Err(_) => r.battery@.len() == 0,
            },
    {
        Frame {
            battery: self.battery.view(readings),
            clock: self.clock.view(now),
            power: self.power.view(),
        }
    }
}

} // verus!
