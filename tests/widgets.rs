use polarbear::battery::{self, classify, percent, percent_label, Battery, ChargeState, Icon, Reading, SensorError};
use polarbear::clock::{self, Clock, LocalTime};
use polarbear::panel::{self, Panel};
use polarbear::power::{self, Power};
use polarbear::tick::TickScheduler;

fn charge(p: f64) -> u32 {
    (p * battery::FULL_CHARGE as f64).round() as u32
}

#[test]
fn discharging_thresholds() {
    assert_eq!(classify(ChargeState::Discharging, charge(0.80)), Icon::Full);
    assert_eq!(classify(ChargeState::Discharging, charge(0.60)), Icon::Medium);
    assert_eq!(classify(ChargeState::Discharging, charge(0.30)), Icon::Low);
    assert_eq!(classify(ChargeState::Discharging, charge(0.10)), Icon::Empty);
}

#[test]
fn discharging_boundaries_are_exclusive() {
    assert_eq!(classify(ChargeState::Discharging, 750_000), Icon::Medium);
    assert_eq!(classify(ChargeState::Discharging, 750_001), Icon::Full);
    assert_eq!(classify(ChargeState::Discharging, 500_000), Icon::Low);
    assert_eq!(classify(ChargeState::Discharging, 250_000), Icon::Empty);
    assert_eq!(classify(ChargeState::Discharging, 0), Icon::Empty);
}

#[test]
fn other_states_ignore_charge() {
    for c in [0, 100_000, 600_000, 1_000_000] {
        assert_eq!(classify(ChargeState::Charging, c), Icon::Charging);
        assert_eq!(classify(ChargeState::Full, c), Icon::Connected);
        assert_eq!(classify(ChargeState::Empty, c), Icon::Empty);
        assert_eq!(classify(ChargeState::Unknown, c), Icon::Unknown);
    }
}

#[test]
fn percentage_rounds() {
    assert_eq!(percent(charge(0.873)), 87);
    assert_eq!(percent_label(charge(0.873)), "87%");
    assert_eq!(percent_label(charge(0.875)), "88%");
    assert_eq!(percent_label(0), "0%");
    assert_eq!(percent_label(battery::FULL_CHARGE), "100%");
    assert_eq!(percent_label(charge(0.05)), "5%");
}

#[test]
fn battery_items_follow_readings() {
    let b = Battery::new(battery::Config { enable: true }, true);
    let readings = Ok(vec![
        Reading { state: ChargeState::Discharging, charge: charge(0.873) },
        Reading { state: ChargeState::Charging, charge: charge(0.2) },
    ]);
    let items = b.view(&readings);
    assert_eq!(items.len(), 2);
    assert_eq!(items[0].icon, Icon::Full);
    assert_eq!(items[0].label, "87%");
    assert_eq!(items[1].icon, Icon::Charging);
    assert_eq!(items[1].label, "20%");
}

#[test]
fn battery_sensor_error_renders_nothing() {
    let b = Battery::new(battery::Config { enable: true }, true);
    let failed: Result<Vec<Reading>, SensorError> = Err(SensorError);
    assert_eq!(b.try_view(&failed).err(), Some(SensorError));
    assert!(b.view(&failed).is_empty());
}

#[test]
fn battery_disabled_or_without_sensor_renders_nothing() {
    let readings = Ok(vec![Reading { state: ChargeState::Full, charge: 1_000_000 }]);
    let off = Battery::new(battery::Config { enable: false }, true);
    assert!(off.view(&readings).is_empty());
    let no_sensor = Battery::new(battery::Config { enable: true }, false);
    assert!(no_sensor.view(&readings).is_empty());
    let empty: Result<Vec<Reading>, SensorError> = Ok(vec![]);
    let on = Battery::new(battery::Config { enable: true }, true);
    assert!(on.view(&empty).is_empty());
}

#[test]
fn clock_formats_local_time() {
    let clock = Clock::new(clock::Config::default());
    let epoch = LocalTime { secs: 0, nanos: 0, offset: 0 };
    assert_eq!(clock.view(&epoch), "1970/01/01 00:00:00");
    let east = LocalTime { secs: 1_431_648_000, nanos: 0, offset: 3600 };
    assert_eq!(clock.view(&east), "2015/05/15 01:00:00");
}

#[test]
fn clock_custom_pattern_and_disabled() {
    let clock = Clock::new(clock::Config { enable: true, format: "%H:%M".to_string() });
    let t = LocalTime { secs: 45_000, nanos: 0, offset: -3600 };
    assert_eq!(clock.view(&t), "11:30");
    let off = Clock::new(clock::Config { enable: false, format: "%H:%M".to_string() });
    assert_eq!(off.view(&t), "");
}

#[test]
fn clock_bad_offset_shows_nothing() {
    let clock = Clock::new(clock::Config::default());
    let t = LocalTime { secs: 0, nanos: 0, offset: 86_400 };
    assert_eq!(clock.view(&t), "");
}

#[test]
fn clock_bad_pattern_keeps_what_was_written() {
    let clock = Clock::new(clock::Config { enable: true, format: "%Y %".to_string() });
    let t = LocalTime { secs: 0, nanos: 0, offset: 0 };
    let shown = clock.view(&t);
    assert!(shown.starts_with("1970"));
}

#[test]
fn two_ticks_after_1200ms_at_500ms() {
    let mut t = TickScheduler::new(500);
    let mut refreshes: u64 = 0;
    let mut now: u64 = 0;
    while now <= 1200 {
        refreshes += t.advance(now);
        now += 100;
    }
    assert_eq!(refreshes, 2);
    assert_eq!(t.fired(), 2);
}

#[test]
fn tick_at_exact_multiple_fires() {
    let mut t = TickScheduler::new(500);
    assert_eq!(t.advance(499), 0);
    assert_eq!(t.advance(500), 1);
    assert_eq!(t.advance(500), 0);
    assert_eq!(t.advance(1600), 2);
    assert_eq!(t.advance(1000), 0);
    assert_eq!(t.fired(), 3);
    assert_eq!(t.period(), 500);
}

#[test]
fn disabled_power_exposes_no_target() {
    let cfg = power::Config { enable: false, action: power::Action::KDE6 };
    let panel = Panel::new(
        Clock::new(clock::Config::default()),
        Power::new(cfg),
        Battery::new(battery::Config::default(), false),
    );
    let frame = panel.view(&LocalTime { secs: 0, nanos: 0, offset: 0 }, &Ok(vec![]));
    assert!(frame.power.is_empty());
    for m in [power::Message::Logout, power::Message::Hibernate, power::Message::Reboot, power::Message::Poweroff] {
        assert!(panel.update(panel::Message::Power(m)).is_none());
    }
}

#[test]
fn enabled_power_shows_four_buttons_and_asks() {
    let panel = Panel::new(
        Clock::new(clock::Config::default()),
        Power::new(power::Config::default()),
        Battery::new(battery::Config::default(), false),
    );
    let frame = panel.view(&LocalTime { secs: 0, nanos: 0, offset: 0 }, &Ok(vec![]));
    assert_eq!(
        frame.power,
        vec![power::Message::Hibernate, power::Message::Reboot, power::Message::Poweroff, power::Message::Logout]
    );
    assert_eq!(frame.clock, "1970/01/01 00:00:00");
    assert!(panel.update(panel::Message::Tick).is_none());
    let p = panel.update(panel::Message::Power(power::Message::Reboot)).unwrap();
    assert_eq!(p.kind, power::Message::Reboot);
    assert_eq!(p.title, "Reboot - Polarbear");
    assert_eq!(p.text, "Confirm reboot?");
}
