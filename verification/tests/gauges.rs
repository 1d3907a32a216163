use wldash::cmd::{Cmd, CmdQueue};
use wldash::color::Color;
use wldash::wait::WaitContext;
use wldash::widgets::audio::{Audio, AudioBackend, AudioReading, AudioReply};
use wldash::widgets::backlight::{Backlight, BacklightError, BacklightReply};
use wldash::widgets::battery::{
    BatteryError, BatteryReading, UpowerBattery, UpowerBatteryState, UpowerReply,
};

fn battery_reply(type_code: u32, capacity_centi: u32, state_code: u32) -> UpowerReply {
    UpowerReply {
        type_code: Some(type_code),
        capacity_centi: Some(capacity_centi),
        state_code: Some(state_code),
        watch_fds: vec![7],
    }
}

#[test]
fn battery_discharging_at_five_percent_is_amber() {
    let b = UpowerBattery::from_device("BAT0", &battery_reply(2, 500, 2)).unwrap();
    assert_eq!(b.value(), 500);
    assert_eq!(b.color(), Color::new(1000, 500, 0, 1000));
}

#[test]
fn battery_charging_at_fifty_percent_is_green() {
    let b = UpowerBattery::from_device("BAT0", &battery_reply(2, 5000, 1)).unwrap();
    assert_eq!(b.value(), 5000);
    assert_eq!(b.color(), Color::new(500, 1000, 500, 1000));
}

#[test]
fn battery_at_exactly_ten_percent_discharging_is_amber() {
    let b = UpowerBattery::from_device("BAT0", &battery_reply(2, 1000, 2)).unwrap();
    assert_eq!(b.color(), Color::new(1000, 500, 0, 1000));
}

#[test]
fn battery_not_charging_is_pink_and_full_is_green() {
    let b = UpowerBattery::from_device("BAT0", &battery_reply(2, 9000, 5)).unwrap();
    assert_eq!(b.color(), Color::new(1000, 500, 500, 1000));
    let b = UpowerBattery::from_device("BAT0", &battery_reply(2, 10000, 4)).unwrap();
    assert_eq!(b.color(), Color::new(500, 1000, 500, 1000));
}

#[test]
fn battery_device_path_is_built_from_the_device_name() {
    let b = UpowerBattery::from_device("BAT1", &battery_reply(2, 100, 2)).unwrap();
    assert_eq!(b.device_path, "/org/freedesktop/UPower/devices/battery_BAT1");
}

#[test]
fn battery_state_code_six_aliases_discharging() {
    let b = UpowerBattery::from_device("BAT0", &battery_reply(2, 5000, 6)).unwrap();
    assert_eq!(b.state, UpowerBatteryState::Discharging);
    let b = UpowerBattery::from_device("BAT0", &battery_reply(2, 5000, 99)).unwrap();
    assert_eq!(b.state, UpowerBatteryState::Unknown);
    let b = UpowerBattery::from_device("BAT0", &battery_reply(2, 5000, 3)).unwrap();
    assert_eq!(b.state, UpowerBatteryState::Empty);
}

#[test]
fn battery_probe_errors_match_their_causes() {
    let mut r = battery_reply(2, 500, 2);
    r.type_code = None;
    assert_eq!(UpowerBattery::from_device("BAT0", &r).unwrap_err(), BatteryError::NoSuchDevice);

    let r = battery_reply(1, 500, 2);
    assert_eq!(UpowerBattery::from_device("BAT0", &r).unwrap_err(), BatteryError::NotABattery);

    let mut r = battery_reply(2, 500, 2);
    r.capacity_centi = None;
    assert_eq!(UpowerBattery::from_device("BAT0", &r).unwrap_err(), BatteryError::NoSuchDevice);

    let mut r = battery_reply(2, 500, 2);
    r.watch_fds = vec![3, 4];
    assert_eq!(UpowerBattery::from_device("BAT0", &r).unwrap_err(), BatteryError::WatchCount);
}

#[test]
fn battery_failed_refresh_keeps_value_and_color() {
    let mut b = UpowerBattery::from_device("BAT0", &battery_reply(2, 500, 2)).unwrap();
    let mut ctx = WaitContext::new();
    let mut cmds = CmdQueue::new();
    let before_value = b.value();
    let before_color = b.color();
    b.wait(&mut ctx, &mut cmds, &vec![None, None]);
    assert_eq!(b.value(), before_value);
    assert_eq!(b.color(), before_color);
    assert!(!b.dirty);
    assert_eq!(cmds.cmds.len(), 0);
}

#[test]
fn battery_wait_applies_readings_sets_dirty_and_enqueues_redraws() {
    let mut b = UpowerBattery::from_device("BAT0", &battery_reply(2, 500, 2)).unwrap();
    let mut ctx = WaitContext::new();
    let mut cmds = CmdQueue::new();
    let readings = vec![
        Some(BatteryReading { state_code: 1, capacity_centi: 700 }),
        None,
        Some(BatteryReading { state_code: 1, capacity_centi: 800 }),
    ];
    b.wait(&mut ctx, &mut cmds, &readings);
    assert_eq!(b.value(), 800);
    assert_eq!(b.state, UpowerBatteryState::Charging);
    assert!(b.dirty);
    assert_eq!(cmds.cmds.len(), 2);
    assert!(matches!(cmds.cmds[0], Cmd::Draw));
    assert_eq!(ctx.fds.len(), 1);
    assert_eq!(ctx.fds[0].fd, 7);
}

#[test]
fn battery_dirty_stays_true_across_failed_and_successful_waits() {
    let mut b = UpowerBattery::from_device("BAT0", &battery_reply(2, 500, 2)).unwrap();
    let mut ctx = WaitContext::new();
    let mut cmds = CmdQueue::new();
    b.wait(&mut ctx, &mut cmds, &vec![Some(BatteryReading { state_code: 2, capacity_centi: 400 })]);
    assert!(b.dirty);
    b.wait(&mut ctx, &mut cmds, &vec![None]);
    assert!(b.dirty);
    b.wait(&mut ctx, &mut cmds, &vec![]);
    assert!(b.dirty);
}

#[test]
fn battery_mutators_are_no_ops() {
    let mut b = UpowerBattery::from_device("BAT0", &battery_reply(2, 500, 2)).unwrap();
    b.inc(5);
    b.set(9000);
    b.toggle();
    assert_eq!(b.value(), 500);
    assert_eq!(b.name(), "battery");
}

#[test]
fn backlight_value_is_proportional_to_the_range() {
    let reply = BacklightReply { raw: Some(300), max: Some(1000) };
    let b = Backlight::from_device("intel_backlight".to_string(), &reply).unwrap();
    assert_eq!(b.value(), 3000);
    assert_eq!(b.name(), "backlight");
}

#[test]
fn backlight_probe_errors() {
    let reply = BacklightReply { raw: None, max: Some(10) };
    let e = Backlight::from_device("x".to_string(), &reply).unwrap_err();
    assert_eq!(e, BacklightError::Unreadable);
    let reply = BacklightReply { raw: Some(3), max: Some(0) };
    let e = Backlight::from_device("x".to_string(), &reply).unwrap_err();
    assert_eq!(e, BacklightError::ZeroRange);
}

#[test]
fn backlight_inc_and_set_clamp_into_range() {
    let reply = BacklightReply { raw: Some(500), max: Some(1000) };
    let mut b = Backlight::from_device("d".to_string(), &reply).unwrap();
    assert_eq!(b.inc(200), 700);
    assert_eq!(b.inc(1_000_000), 1000);
    assert_eq!(b.inc(-5_000_000), 0);
    assert_eq!(b.set(5000), 500);
    assert_eq!(b.set(10000), 1000);
    assert!(b.dirty);
}

#[test]
fn audio_toggle_flips_mute_and_marks_dirty() {
    let reply = AudioReply { reading: Some(AudioReading { volume: 2500, muted: false }) };
    let mut a = Audio::from_probe(AudioBackend::Pulse, &reply).unwrap();
    assert_eq!(a.value(), 2500);
    assert!(!a.muted);
    assert!(a.toggle());
    assert!(a.muted);
    assert!(a.dirty);
    assert!(!a.toggle());
    assert_eq!(a.name(), "audio");
}

#[test]
fn audio_inc_clamps_to_full_scale() {
    let reply = AudioReply { reading: Some(AudioReading { volume: 9900, muted: false }) };
    let mut a = Audio::from_probe(AudioBackend::Alsa, &reply).unwrap();
    assert_eq!(a.inc(500), 10000);
    assert_eq!(a.inc(-20000), 0);
    assert_eq!(a.set(1234), 1234);
}

#[test]
fn redraw_commands_coalesce_into_one_cycle() {
    let cmds = vec![Cmd::Draw, Cmd::Draw, Cmd::Draw, Cmd::Draw, Cmd::Draw];
    let plan = wldash::cmd::plan_drain(cmds);
    assert!(plan.redraw);
    assert!(plan.execs.is_empty());
}

#[test]
fn drained_spawn_requests_keep_their_order() {
    let cmds = vec![
        Cmd::Draw,
        Cmd::Exec { line: "first".to_string() },
        Cmd::Draw,
        Cmd::Exec { line: "second".to_string() },
    ];
    let plan = wldash::cmd::plan_drain(cmds);
    assert!(plan.redraw);
    assert_eq!(plan.execs, vec!["first".to_string(), "second".to_string()]);
}

#[test]
fn empty_drain_plans_no_redraw() {
    let plan = wldash::cmd::plan_drain(Vec::new());
    assert!(!plan.redraw);
    assert!(plan.execs.is_empty());
}

#[test]
fn next_minute_timeout_counts_to_the_boundary() {
    assert_eq!(wldash::time::next_minute_timeout_ms(wldash::time::Timestamp { secs: 0 }), 60000);
    assert_eq!(wldash::time::next_minute_timeout_ms(wldash::time::Timestamp { secs: 59 }), 1000);
    assert_eq!(wldash::time::next_minute_timeout_ms(wldash::time::Timestamp { secs: 61 }), 59000);
}

#[test]
fn battery_capacity_reads_clamp_to_full_scale() {
    let mut r = battery_reply(2, 20000, 2);
    let b = UpowerBattery::from_device("BAT0", &r).unwrap();
    assert_eq!(b.value(), 10000);
    r = battery_reply(2, 0, 2);
    let mut b = UpowerBattery::from_device("BAT0", &r).unwrap();
    let mut ctx = WaitContext::new();
    let mut cmds = CmdQueue::new();
    b.wait(
        &mut ctx,
        &mut cmds,
        &vec![Some(BatteryReading { state_code: 2, capacity_centi: 99999 })],
    );
    assert_eq!(b.value(), 10000);
}

#[test]
fn battery_error_descriptions_name_their_causes() {
    assert_eq!(BatteryError::NoSuchDevice.description(), "no such upower device");
    assert_eq!(BatteryError::NotABattery.description(), "UPower device is not a battery.");
    assert_eq!(BatteryError::WatchCount.description(), "expected 1 watch fd from dbus");
}
