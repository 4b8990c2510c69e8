//! The battery widget: one icon and one percentage per physical battery.
use vstd::prelude::*;
use crate::color::push_char;

verus! {

/// Settings of the battery widget.
#[derive(Clone, Debug)]
pub struct Config {
    pub enable: bool,
}

impl Default for Config {
    fn default() -> (r: Config)
        ensures
            r.enable,
    {
        Config { enable: true }
    }
}

/// What the sensor says a battery is doing.
#[derive(Clone, Copy, Debug, PartialEq, Eq, Structural)]
pub enum ChargeState {
    Unknown,
    Charging,
    Discharging,
    Empty,
    Full,
}

/// The largest charge, in millionths.
pub const FULL_CHARGE: u32 = 1_000_000;

/// One battery's reading: its state and its charge in millionths of full.
#[derive(Clone, Copy, Debug, PartialEq, Eq, Structural)]
pub struct Reading {
    pub state: ChargeState,
    pub charge: u32,
}

/// The icon drawn for a battery.
#[derive(Clone, Copy, Debug, PartialEq, Eq, Structural)]
pub enum Icon {
    Charging,
    Connected,
    Empty,
    Full,
    Low,
    Medium,
    Unknown,
}

/// The sensor could not be read.
#[derive(Clone, Copy, Debug, PartialEq, Eq, Structural)]
pub struct SensorError;

/// The icon for a state and a charge (in millionths): a discharging battery above
/// three quarters is full, above half medium, above a quarter low, else empty.
pub open spec fn icon_of(state: ChargeState, charge: u32) -> Icon {
    match state {
        ChargeState::Unknown => Icon::Unknown,
        ChargeState::Charging => Icon::Charging,
        ChargeState::Discharging => if charge > 750_000 {
            Icon::Full
        } else if charge > 500_000 {
            Icon::Medium
        } else if charge > 250_000 {
            Icon::Low
        } else {
            Icon::Empty
        },
        ChargeState::Empty => Icon::Empty,
        ChargeState::Full => Icon::Connected,
    }
}

/// The charge as a whole percentage, halves rounded up.
pub open spec fn percent_of(charge: u32) -> nat {
    ((charge as nat + 5000) / 10000) as nat
}

/// The decimal digits of a number, without leading zeros.
pub open spec fn decimal(n: nat) -> Seq<char>
    decreases n,
{
    if n < 10 {
        seq![((n + 48) as u8) as char]
    } else {
        decimal(n / 10).push(((n % 10 + 48) as u8) as char)
    }
}

/// The text shown beside the icon, such as `87%`.
pub open spec fn label_of(charge: u32) -> Seq<char> {
    decimal(percent_of(charge)).push('%')
}

/// The icon for a battery.
pub fn classify(state: ChargeState, charge: u32) -> (r: Icon)
    ensures
        r == icon_of(state, charge),
{
    match state {
        ChargeState::Unknown => Icon::Unknown,
        ChargeState::Charging => Icon::Charging,
        ChargeState::Discharging => if charge > 750_000 {
            Icon::Full
        } else if charge > 500_000 {
            Icon::Medium
        } else if charge > 250_000 {
            Icon::Low
        } else {
            Icon::Empty
        },
        ChargeState::Empty => Icon::Empty,
        ChargeState::Full => Icon::Connected,
    }
}

/// The charge as a whole percentage.
pub fn percent(charge: u32) -> (r: u32)
    ensures
        r == percent_of(charge),
{
    ((charge as u64 + 5000) / 10000) as u32
}

fn push_decimal(s: &mut String, n: u32)
    ensures
        final(s)@ == old(s)@ + decimal(n as nat),
    decreases n,
{
    if n >= 10 {
        push_decimal(s, n / 10);
    }
    push_char(s, ((n % 10) as u8 + 48) as char);
    proof {
        if n >= 10 {
            assert(final(s)@ =~= old(s)@ + decimal(n as nat));
        } else {
            assert(final(s)@ =~= old(s)@ + decimal(n as nat));
        }
    }
}

/// The percentage text for a charge.
pub fn percent_label(charge: u32) -> (r: String)
    ensures
        r@ == label_of(charge),
{
    let mut s = String::new();
    push_decimal(&mut s, percent(charge));
    push_char(&mut s, '%');
    proof {
        assert(s@ =~= label_of(charge));
    }
    s
}

/// What is drawn for one battery.
#[derive(Clone, Debug)]
pub struct Item {
    pub icon: Icon,
    pub label: String,
}

/// The items drawn for a list of readings, one each, in order.
pub open spec fn items_match(readings: Seq<Reading>, items: Seq<Item>) -> bool {
    items.len() == readings.len() && forall|i: int|
        0 <= i < readings.len() ==> items[i].icon == icon_of(readings[i].state, readings[i].charge)
            && items[i].label@ == label_of(readings[i].charge)
}

/// The battery widget. `sensor` is false when no sensor could be opened.
pub struct Battery {
    pub cfg: Config,
    pub sensor: bool,
}

impl Battery {
    pub fn new(cfg: Config, sensor: bool) -> (r: Battery)
        ensures
            r.cfg.enable == cfg.enable,
            r.sensor == sensor,
    {
        Battery { cfg, sensor }
    }

    /// The items for the latest readings; nothing when disabled or without a sensor,
    /// and the sensor's error when the readings could not be taken.
    pub fn try_view(&self, readings: &Result<Vec<Reading>, SensorError>) -> (r: Result<
        Vec<Item>,
        SensorError,
    >)
        ensures
            !self.cfg.enable || !self.sensor ==> (r matches Ok(v) && v@.len() == 0),
            self.cfg.enable && self.sensor ==> match readings {
                Ok(rs) => (r matches Ok(v) && items_match(rs@, v@)),
                Err(e) => r == Err::<Vec<Item>, SensorError>(*e),
            },
    {
        if !self.cfg.enable || !self.sensor {
            return Ok(Vec::new());
        }
        let rs = match readings {
            Ok(rs) => rs,
            Err(e) => return Err(*e),
        };
        let mut items: Vec<Item> = Vec::new();
        let mut i: usize = 0;
        while i < rs.len()
            invariant
                i <= rs@.len(),
                items_match(rs@.subrange(0, i as int), items@),
            decreases rs@.len() - i,
        {
            let reading = rs[i];
            items.push(Item { icon: classify(reading.state, reading.charge), label: percent_label(reading.charge) });
            i = i + 1;
            proof {
                assert(rs@.subrange(0, i as int) =~= rs@.subrange(0, i - 1).push(reading));
            }
        }
        proof {
            assert(rs@.subrange(0, i as int) =~= rs@);
        }
        Ok(items)
    }

    /// As `try_view`, with a failed reading drawn as nothing.
    pub fn view(&self, readings: &Result<Vec<Reading>, SensorError>) -> (r: Vec<Item>)
        ensures
            !self.cfg.enable || !self.sensor ==> r@.len() == 0,
            self.cfg.enable && self.sensor ==> match readings {
                Ok(rs) => items_match(rs@, r@),
                Err(_) => r@.len() == 0,
            },
    {
        match self.try_view(readings) {
            Ok(v) => v,
            Err(_) => Vec::new(),
        }
    }
}

} // verus!
