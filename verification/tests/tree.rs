use wldash::cmd::CmdQueue;
use wldash::config::{Config, OutputMode, ProbeOutcome, ProbeRequest, Widget};
use wldash::time::Timestamp;
use wldash::wait::WaitContext;
use wldash::widget::{ContentItem, GaugeEvent, GaugeKind, RuntimeWidget};
use wldash::widgets::backlight::BacklightReply;
use wldash::widgets::battery::{BatteryReading, UpowerReply};

fn now() -> Timestamp {
    Timestamp { secs: 120 }
}

fn good_battery() -> ProbeOutcome {
    ProbeOutcome::Battery {
        reply: UpowerReply {
            type_code: Some(2),
            capacity_centi: Some(500),
            state_code: Some(2),
            watch_fds: vec![9],
        },
    }
}

fn good_backlight() -> ProbeOutcome {
    ProbeOutcome::Backlight { reply: BacklightReply { raw: Some(250), max: Some(1000) } }
}

fn row(children: Vec<Widget>) -> Widget {
    Widget::HorizontalLayout(children)
}

#[test]
fn pruning_drops_exactly_the_failed_probes_and_keeps_order() {
    // three gauge leaves, the middle probe fails; the clock survives.
    let spec = row(vec![
        Widget::Battery { font_size: 24, length: 600 },
        Widget::Clock { font_size: 64 },
        Widget::Backlight { device: String::new(), font_size: 24, length: 600 },
        Widget::Battery { font_size: 24, length: 600 },
    ]);
    let outs = vec![good_battery(), ProbeOutcome::Failed, good_battery()];
    let (tree, used) = spec.construct(now(), &outs, 0);
    assert_eq!(used, 3);
    let tree = tree.unwrap();
    let mut content = Vec::new();
    tree.content(&mut content);
    // N = 3 gauge leaves, M = 1 failed probe: 2 bars survive, plus the clock,
    // in the original order.
    assert_eq!(content.len(), 3);
    assert!(matches!(content[0], ContentItem::Bar { kind: GaugeKind::Battery, .. }));
    assert!(matches!(content[1], ContentItem::Clock { .. }));
    assert!(matches!(content[2], ContentItem::Bar { kind: GaugeKind::Battery, .. }));
}

#[test]
fn battery_node_without_hardware_is_absent_and_siblings_unaffected() {
    let spec = row(vec![
        Widget::Date { font_size: 32 },
        Widget::Battery { font_size: 24, length: 600 },
        Widget::Calendar { font_size: 16, sections: 3 },
    ]);
    let outs = vec![ProbeOutcome::Failed];
    let (tree, _) = spec.construct(now(), &outs, 0);
    let mut content = Vec::new();
    tree.unwrap().content(&mut content);
    assert_eq!(content.len(), 2);
    assert!(matches!(content[0], ContentItem::Date { .. }));
    assert!(matches!(content[1], ContentItem::Calendar { .. }));
}

#[test]
fn margin_around_failed_gauge_prunes_with_it() {
    let spec = Widget::Margin {
        margins: (1, 2, 3, 4),
        widget: Box::new(Widget::Battery { font_size: 24, length: 600 }),
    };
    let outs = vec![ProbeOutcome::Failed];
    let (tree, used) = spec.construct(now(), &outs, 0);
    assert!(tree.is_none());
    assert_eq!(used, 1);
}

#[test]
fn empty_backlight_device_resolves_to_the_platform_default() {
    let spec = Widget::Backlight { device: String::new(), font_size: 24, length: 600 };
    let outs = vec![good_backlight()];
    let (tree, _) = spec.construct(now(), &outs, 0);
    match tree.unwrap() {
        RuntimeWidget::Backlight { gauge, .. } => {
            assert_eq!(gauge.device, "intel_backlight");
        },
        _ => panic!("expected a backlight leaf"),
    }
}

#[test]
fn named_backlight_device_is_kept() {
    let spec = Widget::Backlight { device: "amdgpu_bl0".to_string(), font_size: 24, length: 600 };
    let outs = vec![good_backlight()];
    let (tree, _) = spec.construct(now(), &outs, 0);
    match tree.unwrap() {
        RuntimeWidget::Backlight { gauge, .. } => {
            assert_eq!(gauge.device, "amdgpu_bl0");
        },
        _ => panic!("expected a backlight leaf"),
    }
}

#[test]
fn empty_url_opener_falls_back_to_the_default() {
    let spec = Widget::Launcher {
        font_size: 32,
        length: 1200,
        app_opener: String::new(),
        term_opener: String::new(),
        url_opener: String::new(),
    };
    let (tree, _) = spec.construct(now(), &Vec::new(), 0);
    match tree.unwrap() {
        RuntimeWidget::Launcher { url_opener, .. } => {
            assert_eq!(url_opener, "xdg_open ");
        },
        _ => panic!("expected a launcher leaf"),
    }
}

#[test]
fn mismatched_probe_outcome_counts_as_a_failure() {
    let spec = Widget::Battery { font_size: 24, length: 600 };
    let outs = vec![good_backlight()];
    let (tree, _) = spec.construct(now(), &outs, 0);
    assert!(tree.is_none());
}

#[test]
fn layout_with_all_probes_failed_still_constructs_empty() {
    let spec = Widget::VerticalLayout(vec![
        Widget::Battery { font_size: 24, length: 600 },
        Widget::Battery { font_size: 24, length: 600 },
    ]);
    let outs = vec![ProbeOutcome::Failed, ProbeOutcome::Failed];
    let (tree, used) = spec.construct(now(), &outs, 0);
    assert_eq!(used, 2);
    let mut content = Vec::new();
    tree.unwrap().content(&mut content);
    assert!(content.is_empty());
}

#[test]
fn content_and_wait_visit_children_in_stored_order() {
    let spec = row(vec![
        Widget::Battery { font_size: 1, length: 100 },
        Widget::Battery { font_size: 2, length: 200 },
        Widget::Battery { font_size: 3, length: 300 },
    ]);
    let outs = vec![
        battery_with_fd(11),
        battery_with_fd(22),
        battery_with_fd(33),
    ];
    let (tree, _) = spec.construct(now(), &outs, 0);
    let tree = tree.unwrap();

    let mut content = Vec::new();
    tree.content(&mut content);
    let lengths: Vec<u32> = content
        .iter()
        .map(|c| match c {
            ContentItem::Bar { length, .. } => *length,
            _ => panic!("expected bars only"),
        })
        .collect();
    assert_eq!(lengths, vec![100, 200, 300]);

    let mut ctx = WaitContext::new();
    let mut cmds = CmdQueue::new();
    let evs = vec![no_battery_events(), no_battery_events(), no_battery_events()];
    let (_, used) = tree.wait(&mut ctx, &mut cmds, &evs, 0);
    assert_eq!(used, 3);
    let fds: Vec<i32> = ctx.fds.iter().map(|d| d.fd).collect();
    assert_eq!(fds, vec![11, 22, 33]);
}

fn battery_with_fd(fd: i32) -> ProbeOutcome {
    ProbeOutcome::Battery {
        reply: UpowerReply {
            type_code: Some(2),
            capacity_centi: Some(500),
            state_code: Some(2),
            watch_fds: vec![fd],
        },
    }
}

fn no_battery_events() -> GaugeEvent {
    GaugeEvent::Battery { readings: Vec::new() }
}

#[test]
fn wait_applies_events_and_take_dirty_clears_once() {
    let spec = row(vec![Widget::Battery { font_size: 24, length: 600 }]);
    let outs = vec![battery_with_fd(5)];
    let (tree, _) = spec.construct(now(), &outs, 0);
    let tree = tree.unwrap();

    let mut ctx = WaitContext::new();
    let mut cmds = CmdQueue::new();
    let evs = vec![GaugeEvent::Battery {
        readings: vec![Some(BatteryReading { state_code: 1, capacity_centi: 9000 })],
    }];
    let (tree, _) = tree.wait(&mut ctx, &mut cmds, &evs, 0);
    assert_eq!(cmds.cmds.len(), 1);

    // the dirty flag is observed true until the loop's own clear step,
    // then reads false exactly once.
    let (tree, was_dirty) = tree.take_dirty();
    assert!(was_dirty);
    let (tree, was_dirty) = tree.take_dirty();
    assert!(!was_dirty);

    let mut content = Vec::new();
    tree.content(&mut content);
    match content[0] {
        ContentItem::Bar { value, .. } => assert_eq!(value, 9000),
        _ => panic!("expected a bar"),
    }
}

#[test]
fn probe_requests_come_in_tree_order_with_resolved_devices() {
    let spec = row(vec![
        Widget::Clock { font_size: 10 },
        Widget::Backlight { device: String::new(), font_size: 24, length: 600 },
        Widget::Battery { font_size: 24, length: 600 },
    ]);
    let mut reqs = Vec::new();
    spec.probe_requests(&mut reqs);
    assert_eq!(reqs.len(), 2);
    match &reqs[0] {
        ProbeRequest::Backlight { device } => assert_eq!(device, "intel_backlight"),
        _ => panic!("expected a backlight request first"),
    }
    match &reqs[1] {
        ProbeRequest::Battery { device } => assert_eq!(device, "BAT0"),
        _ => panic!("expected a battery request second"),
    }
}

#[test]
fn default_config_has_the_stock_tree() {
    let c = Config::default();
    assert!(matches!(c.output_mode, OutputMode::Active));
    assert_eq!(c.scale, 1);
    assert_eq!(c.background.a, 900);
    match &c.widget {
        Widget::Margin { margins, widget } => {
            assert_eq!(*margins, (20, 20, 20, 20));
            match widget.as_ref() {
                Widget::VerticalLayout(rows) => assert_eq!(rows.len(), 3),
                _ => panic!("expected the stock vertical layout"),
            }
        },
        _ => panic!("expected the stock outer margin"),
    }
    assert!(matches!(OutputMode::default(), OutputMode::Active));
}

#[test]
fn default_tree_constructs_with_failed_probes_without_gauges() {
    let c = Config::default();
    let mut reqs = Vec::new();
    c.widget.probe_requests(&mut reqs);
    let outs: Vec<ProbeOutcome> = reqs.iter().map(|_| ProbeOutcome::Failed).collect();
    let (tree, used) = c.widget.construct(now(), &outs, 0);
    assert_eq!(used, outs.len());
    let mut content = Vec::new();
    tree.unwrap().content(&mut content);
    // date, clock, calendar and launcher survive; both bars are pruned.
    assert_eq!(content.len(), 4);
}
