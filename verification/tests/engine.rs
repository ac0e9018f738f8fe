use barust::battery::{Battery, BatteryReading};
use barust::disk::Disk;
use barust::hook::hook_channel;
use barust::layout::{click_target, compute_layout, Rect};
use barust::statusbar::{DispatcherState, Reading, StatusBar, WidgetKind};
use barust::timer::TimedHooks;
use barust::widget::{HookPlan, WidgetConfig};

fn bat_reading(now: &str, full: &str) -> BatteryReading {
    BatteryReading {
        charge_now: Some(now.to_string()),
        charge_full: Some(full.to_string()),
        energy_now: None,
        energy_full: None,
        status: None,
    }
}

fn empty_bat_reading() -> BatteryReading {
    BatteryReading {
        charge_now: None,
        charge_full: None,
        energy_now: None,
        energy_full: None,
        status: None,
    }
}

fn bat_widget(format: &str, config: &WidgetConfig) -> WidgetKind {
    let names = vec!["BAT0".to_string()];
    WidgetKind::Battery(*Battery::new(format, None, config, &names).unwrap())
}

#[test]
fn channel_carries_widget_identity() {
    let (sender, receiver) = hook_channel(8, 7);
    assert!(sender.send());
    assert_eq!(receiver.try_recv(), Some(7));
    assert_eq!(receiver.try_recv(), None);
    assert!(sender.for_widget(3).send());
    assert_eq!(receiver.try_recv(), Some(3));
    assert_eq!(receiver.recv_timeout_ms(5), None);
}

#[test]
fn timer_fairness_two_subscriptions() {
    let (sender, receiver) = hook_channel(64, 0);
    let mut hooks = TimedHooks::new();
    hooks.subscribe(1000, sender.for_widget(0)).unwrap();
    hooks.subscribe(5000, sender.for_widget(1)).unwrap();
    for _ in 0..27 {
        hooks.tick(200);
    }
    // after 5.4 seconds: floor(5400/1000) and floor(5400/5000) firings
    assert_eq!(hooks.subs[0].fired, 5);
    assert_eq!(hooks.subs[1].fired, 1);
    assert_eq!(hooks.subs[0].total_ms, 5400);
    assert_eq!(hooks.subs[0].elapsed_ms(), 400);
    // the due subscriptions really signalled on their senders
    let mut got = Vec::new();
    while let Some(id) = receiver.try_recv() {
        got.push(id);
    }
    assert_eq!(got.iter().filter(|&&id| id == 0).count(), 5);
    assert_eq!(got.iter().filter(|&&id| id == 1).count(), 1);
}

#[test]
fn timer_rejects_zero_duration() {
    let (sender, _receiver) = hook_channel(8, 0);
    let mut hooks = TimedHooks::new();
    assert!(hooks.subscribe(0, sender).is_err());
    assert_eq!(hooks.subs.len(), 0);
}

#[test]
fn layout_packs_left_and_right() {
    let entries = vec![(5u64, 2u64), (3u64, 1u64)];
    let (rects, overflow) = compute_layout(&entries, 1, 100);
    assert_eq!(rects[0], Rect { x: 0, width: 9 });
    assert_eq!(rects[1], Rect { x: 95, width: 5 });
    assert!(!overflow);
}

#[test]
fn layout_reports_overflow() {
    let entries = vec![(50u64, 0u64), (60u64, 0u64)];
    let (rects, overflow) = compute_layout(&entries, 1, 100);
    assert_eq!(rects[0].x, 0);
    assert_eq!(rects[1].x, 40);
    assert!(overflow);
}

#[test]
fn clicks_resolve_to_the_owning_widget() {
    let entries = vec![(5u64, 2u64), (3u64, 1u64)];
    let (rects, _) = compute_layout(&entries, 1, 100);
    assert_eq!(click_target(&rects, 3), Some(0));
    assert_eq!(click_target(&rects, 97), Some(1));
    assert_eq!(click_target(&rects, 50), None);
}

#[test]
fn bar_refuses_empty_composition() {
    assert!(StatusBar::new(Vec::new(), Vec::new(), 100, 20).is_err());
}

#[test]
fn startup_updates_and_draws_every_widget() {
    let config = WidgetConfig::standard();
    let left = vec![bat_widget("%c%", &config)];
    let right = vec![WidgetKind::Disk(*Disk::new("%u", "/", &config))];
    let mut bar = StatusBar::new(left, right, 200, 20).unwrap();
    assert_eq!(bar.state, DispatcherState::Starting);
    let (plans, pass) = bar.start(vec![
        Reading::Battery(bat_reading("42", "100")),
        Reading::Disk(None),
    ]);
    assert_eq!(bar.state, DispatcherState::Running);
    // every widget got exactly one hook decision and one draw call
    assert_eq!(plans.len(), 2);
    assert!(matches!(plans[0], HookPlan::Timed { interval_ms: 1000 }));
    assert_eq!(pass.cmds.len(), 2);
    assert_eq!(pass.cmds[0].widget, 0);
    assert_eq!(pass.cmds[1].widget, 1);
    assert_eq!(pass.cmds[0].text, "42%");
    // the failing disk still rendered (its initial, empty text)
    assert_eq!(pass.cmds[1].text, "");
    // timed widgets are subscribed on the shared multiplexer
    assert_eq!(bar.hooks.subs.len(), 2);
}

#[test]
fn burst_coalesces_into_one_pass() {
    let config = WidgetConfig::standard();
    let left = vec![bat_widget("%c%", &config), bat_widget("b:%c", &config)];
    let mut bar = StatusBar::new(left, Vec::new(), 200, 5).unwrap();
    let (_, first) = bar.start(vec![
        Reading::Battery(bat_reading("10", "100")),
        Reading::Battery(bat_reading("20", "100")),
    ]);
    assert_eq!(first.seq_no, 0);
    // several widgets signalled within one window: exactly one more pass,
    // referencing both widgets' post-update state
    let pass = bar.step(
        vec![
            (0, Reading::Battery(bat_reading("55", "100"))),
            (1, Reading::Battery(bat_reading("60", "100"))),
        ],
        100,
    );
    assert_eq!(pass.seq_no, 1);
    assert_eq!(bar.pass_count, 2);
    assert_eq!(pass.cmds.len(), 2);
    assert_eq!(pass.cmds[0].text, "55%");
    assert_eq!(pass.cmds[1].text, "b:60");
    // passes stay serialized and ordered
    let next = bar.step(Vec::new(), 100);
    assert_eq!(next.seq_no, 2);
    assert_eq!(next.cmds.len(), 2);
}

#[test]
fn failing_provider_never_blocks_the_others() {
    let config = WidgetConfig::standard();
    let left = vec![bat_widget("%c%", &config)];
    let right = vec![WidgetKind::Disk(*Disk::new("%u", "/", &config))];
    let mut bar = StatusBar::new(left, right, 200, 5).unwrap();
    let (_, _) = bar.start(vec![
        Reading::Battery(bat_reading("42", "100")),
        Reading::Disk(None),
    ]);
    // the disk provider keeps failing; the battery keeps updating and
    // every pass still completes over the whole bar
    for round in 0..3u64 {
        let pass = bar.step(
            vec![
                (0, Reading::Battery(bat_reading("50", "100"))),
                (1, Reading::Disk(None)),
            ],
            100,
        );
        assert_eq!(pass.cmds.len(), 2);
        assert_eq!(pass.cmds[0].text, "50%");
        assert_eq!(pass.cmds[1].text, "");
        assert_eq!(pass.seq_no, 1 + round);
    }
}

#[test]
fn stale_reading_keeps_last_good_value() {
    let config = WidgetConfig::standard();
    let left = vec![bat_widget("%c%", &config)];
    let mut bar = StatusBar::new(left, Vec::new(), 200, 5).unwrap();
    let (_, first) = bar.start(vec![Reading::Battery(bat_reading("42", "100"))]);
    assert_eq!(first.cmds[0].text, "42%");
    // the provider then fails: the displayed text stays "42%"
    let pass = bar.step(vec![(0, Reading::Battery(empty_bat_reading()))], 100);
    assert_eq!(pass.cmds[0].text, "42%");
}

#[test]
fn signals_drain_to_distinct_widgets() {
    let config = WidgetConfig::standard();
    let left = vec![bat_widget("%c%", &config), bat_widget("%c", &config)];
    let bar = StatusBar::new(left, Vec::new(), 200, 5).unwrap();
    assert!(bar.sender.for_widget(0).send());
    assert!(bar.sender.for_widget(1).send());
    assert!(bar.sender.for_widget(0).send());
    assert!(bar.sender.for_widget(9).send());
    let mut ids = bar.wait_signals(50);
    ids.sort();
    assert_eq!(ids, vec![0, 1]);
    // a quiet channel times out with no signals
    assert_eq!(bar.wait_signals(5), Vec::<usize>::new());
}

#[test]
fn stopping_walks_the_lifecycle() {
    let config = WidgetConfig::standard();
    let left = vec![bat_widget("%c%", &config)];
    let mut bar = StatusBar::new(left, Vec::new(), 200, 5).unwrap();
    let _ = bar.start(vec![Reading::Battery(bat_reading("42", "100"))]);
    bar.request_stop();
    assert_eq!(bar.state, DispatcherState::Stopping);
    bar.confirm_stopped();
    assert_eq!(bar.state, DispatcherState::Stopped);
}

#[test]
fn tick_timers_fires_due_widgets() {
    let config = WidgetConfig::standard();
    let left = vec![bat_widget("%c%", &config)];
    let mut bar = StatusBar::new(left, Vec::new(), 200, 5).unwrap();
    let _ = bar.start(vec![Reading::Battery(bat_reading("42", "100"))]);
    bar.tick_timers(1000);
    assert_eq!(bar.hooks.subs[0].fired, 1);
    let ids = bar.wait_signals(50);
    assert_eq!(ids, vec![0]);
}

#[test]
fn clicks_route_through_the_latest_layout() {
    let config = WidgetConfig::standard();
    let left = vec![bat_widget("%c%", &config)];
    let right = vec![bat_widget("%c", &config)];
    let mut bar = StatusBar::new(left, right, 200, 5).unwrap();
    let (_, pass) = bar.start(vec![
        Reading::Battery(bat_reading("42", "100")),
        Reading::Battery(bat_reading("9", "100")),
    ]);
    // "42%" spans 3 + 2*10 padding = 23 cells from the left edge
    assert_eq!(pass.cmds[0].rect, Rect { x: 0, width: 23 });
    assert_eq!(bar.route_click(5), Some(0));
    assert_eq!(bar.route_click(190), Some(1));
    assert_eq!(bar.route_click(100), None);
}

#[test]
fn standard_config_values() {
    let config = WidgetConfig::default();
    assert_eq!(config.font, "monospace");
    assert_eq!(config.font_size, 15);
    assert_eq!(config.padding, 10);
    assert_eq!(config.hide_timeout_ms, 2500);
    assert!(!config.flex);
}
