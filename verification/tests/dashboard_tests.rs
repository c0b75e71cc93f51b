use dashboard::bus::MessageBus;
use dashboard::events::{is_quit_event, AppEvent, KeyCode, KeyEvent, KeyModifiers, Message};
use dashboard::layout::{split_grid, Region};
use dashboard::runtime::{Dashboard, LoopSignal};
use dashboard::sched::TickScheduler;
use dashboard::widget_four::WidgetFour;
use dashboard::widget_one::WidgetOne;
use dashboard::widget_three::WidgetThree;
use dashboard::widget_two::WidgetTwo;
use dashboard::TICK_RATE_MS;

fn key(code: KeyCode) -> KeyEvent {
    KeyEvent { code, modifiers: KeyModifiers::none() }
}

fn ctrl(code: KeyCode) -> KeyEvent {
    KeyEvent { code, modifiers: KeyModifiers { control: true, shift: false, alt: false } }
}

#[test]
fn quit_on_plain_q() {
    assert!(is_quit_event(&key(KeyCode::Char('q'))));
}

#[test]
fn quit_on_q_with_any_modifiers() {
    assert!(is_quit_event(&ctrl(KeyCode::Char('q'))));
    let shifted = KeyEvent {
        code: KeyCode::Char('q'),
        modifiers: KeyModifiers { control: false, shift: true, alt: true },
    };
    assert!(is_quit_event(&shifted));
}

#[test]
fn quit_on_ctrl_c_only_with_control() {
    assert!(is_quit_event(&ctrl(KeyCode::Char('c'))));
    assert!(!is_quit_event(&key(KeyCode::Char('c'))));
}

#[test]
fn quit_false_on_everything_else() {
    assert!(!is_quit_event(&key(KeyCode::Char('x'))));
    assert!(!is_quit_event(&key(KeyCode::Up)));
    assert!(!is_quit_event(&key(KeyCode::Down)));
    assert!(!is_quit_event(&ctrl(KeyCode::Left)));
    assert!(!is_quit_event(&key(KeyCode::Other)));
}

#[test]
fn counter_counts_net_of_ups_and_downs() {
    let mut w = WidgetOne::new();
    let mut bus = MessageBus::new();
    assert_eq!(w.count(), 0);
    for _ in 0..5 {
        w.handle_input(key(KeyCode::Up), &mut bus);
    }
    for _ in 0..2 {
        w.handle_input(key(KeyCode::Down), &mut bus);
    }
    w.handle_input(key(KeyCode::Left), &mut bus);
    w.handle_input(key(KeyCode::Char('z')), &mut bus);
    assert_eq!(w.count(), 3);
}

#[test]
fn counter_goes_negative_without_clamping() {
    let mut w = WidgetOne::new();
    let mut bus = MessageBus::new();
    for _ in 0..4 {
        w.handle_input(key(KeyCode::Down), &mut bus);
    }
    assert_eq!(w.count(), -4);
}

#[test]
fn counter_announces_every_change_with_new_count() {
    let mut w = WidgetOne::new();
    let mut bus = MessageBus::new();
    w.handle_input(key(KeyCode::Up), &mut bus);
    w.handle_input(key(KeyCode::Up), &mut bus);
    w.handle_input(key(KeyCode::Down), &mut bus);
    let msgs = bus.drain();
    assert_eq!(
        msgs,
        vec![
            AppEvent::ModuleMessage(Message::CounterIncremented { value: 1 }),
            AppEvent::ModuleMessage(Message::CounterIncremented { value: 2 }),
            AppEvent::ModuleMessage(Message::CounterDecremented { value: 1 }),
        ]
    );
}

#[test]
fn selection_starts_on_first_of_four_fruits() {
    let w = WidgetTwo::new();
    assert_eq!(w.item_count(), 4);
    assert_eq!(w.index(), 0);
    assert_eq!(w.item(0).as_str(), "apple");
    assert_eq!(w.item(1).as_str(), "banana");
    assert_eq!(w.item(2).as_str(), "grapes");
    assert_eq!(w.item(3).as_str(), "orange");
}

#[test]
fn selection_move_left_at_start_is_silent_noop() {
    let mut w = WidgetTwo::new();
    let mut bus = MessageBus::new();
    w.handle_input(key(KeyCode::Left), &mut bus);
    assert_eq!(w.index(), 0);
    assert_eq!(bus.len(), 0);
}

#[test]
fn selection_move_right_at_end_is_silent_noop() {
    let mut w = WidgetTwo::new();
    let mut bus = MessageBus::new();
    for _ in 0..3 {
        w.handle_input(key(KeyCode::Right), &mut bus);
    }
    assert_eq!(w.index(), 3);
    let _ = bus.drain();
    w.handle_input(key(KeyCode::Right), &mut bus);
    assert_eq!(w.index(), 3);
    assert_eq!(bus.len(), 0);
}

#[test]
fn selection_index_stays_in_range_under_many_moves() {
    let mut w = WidgetTwo::new();
    let mut bus = MessageBus::new();
    let moves = [
        KeyCode::Right,
        KeyCode::Right,
        KeyCode::Left,
        KeyCode::Right,
        KeyCode::Right,
        KeyCode::Right,
        KeyCode::Left,
        KeyCode::Left,
        KeyCode::Left,
        KeyCode::Left,
        KeyCode::Up,
        KeyCode::Right,
    ];
    for m in moves {
        w.handle_input(key(m), &mut bus);
        assert!(w.index() < w.item_count());
    }
}

#[test]
fn selection_announces_moves_with_new_index() {
    let mut w = WidgetTwo::new();
    let mut bus = MessageBus::new();
    w.handle_input(key(KeyCode::Right), &mut bus);
    w.handle_input(key(KeyCode::Right), &mut bus);
    w.handle_input(key(KeyCode::Left), &mut bus);
    let msgs = bus.drain();
    assert_eq!(
        msgs,
        vec![
            AppEvent::ModuleMessage(Message::SelectionChanged { index: 1 }),
            AppEvent::ModuleMessage(Message::SelectionChanged { index: 2 }),
            AppEvent::ModuleMessage(Message::SelectionChanged { index: 1 }),
        ]
    );
}

#[test]
fn poll_timeout_counts_down_and_clamps_to_zero() {
    let sched = TickScheduler::new(TICK_RATE_MS);
    assert_eq!(sched.poll_timeout(0), 250);
    assert_eq!(sched.poll_timeout(100), 150);
    assert_eq!(sched.poll_timeout(249), 1);
    assert_eq!(sched.poll_timeout(250), 0);
    assert_eq!(sched.poll_timeout(100_000), 0);
}

#[test]
fn poll_timeout_never_exceeds_the_interval() {
    let sched = TickScheduler::new(TICK_RATE_MS);
    for elapsed in [0u64, 1, 17, 249, 250, 251, 10_000, u64::MAX] {
        assert!(sched.poll_timeout(elapsed) <= TICK_RATE_MS);
    }
}

#[test]
fn tick_advances_only_after_full_interval() {
    let sched = TickScheduler::new(TICK_RATE_MS);
    assert!(!sched.tick_elapsed(0));
    assert!(!sched.tick_elapsed(249));
    assert!(sched.tick_elapsed(250));
    assert!(sched.tick_elapsed(9_999));
}

#[test]
fn bus_delivers_in_emission_order() {
    let mut bus = MessageBus::new();
    let a = AppEvent::ModuleMessage(Message::CounterIncremented { value: 1 });
    let b = AppEvent::ModuleMessage(Message::SelectionChanged { index: 2 });
    bus.send(a);
    bus.send(b);
    assert_eq!(bus.try_recv(), Some(a));
    assert_eq!(bus.try_recv(), Some(b));
    assert_eq!(bus.try_recv(), None);
}

#[test]
fn bus_preserves_order_across_panels_and_drains() {
    let mut w1 = WidgetOne::new();
    let mut w2 = WidgetTwo::new();
    let mut bus = MessageBus::new();
    w1.handle_input(key(KeyCode::Up), &mut bus);
    w2.handle_input(key(KeyCode::Right), &mut bus);
    let first = bus.drain();
    assert_eq!(
        first,
        vec![
            AppEvent::ModuleMessage(Message::CounterIncremented { value: 1 }),
            AppEvent::ModuleMessage(Message::SelectionChanged { index: 1 }),
        ]
    );
    w2.handle_input(key(KeyCode::Left), &mut bus);
    w1.handle_input(key(KeyCode::Down), &mut bus);
    let second = bus.drain();
    assert_eq!(
        second,
        vec![
            AppEvent::ModuleMessage(Message::SelectionChanged { index: 0 }),
            AppEvent::ModuleMessage(Message::CounterDecremented { value: 0 }),
        ]
    );
    assert_eq!(bus.len(), 0);
}

#[test]
fn grid_splits_even_area_into_equal_quarters() {
    let g = split_grid(Region { x: 0, y: 0, width: 100, height: 50 });
    assert_eq!(g.top_left, Region { x: 0, y: 0, width: 50, height: 25 });
    assert_eq!(g.top_right, Region { x: 50, y: 0, width: 50, height: 25 });
    assert_eq!(g.bottom_left, Region { x: 0, y: 25, width: 50, height: 25 });
    assert_eq!(g.bottom_right, Region { x: 50, y: 25, width: 50, height: 25 });
}

#[test]
fn grid_tiles_odd_area_exactly() {
    let area = Region { x: 3, y: 7, width: 9, height: 5 };
    let g = split_grid(area);
    assert_eq!(g.top_left.width + g.top_right.width, area.width);
    assert_eq!(g.bottom_left.width + g.bottom_right.width, area.width);
    assert_eq!(g.top_left.height + g.bottom_left.height, area.height);
    assert_eq!(g.top_right.height + g.bottom_right.height, area.height);
    assert_eq!(g.top_right.x, g.top_left.x + g.top_left.width);
    assert_eq!(g.bottom_left.y, g.top_left.y + g.top_left.height);
}

#[test]
fn gauge_advances_two_hundredths_per_render() {
    let mut w = WidgetThree::new();
    assert_eq!(w.progress(), 0);
    w.render_step();
    assert_eq!(w.progress(), 2);
    w.render_step();
    assert_eq!(w.progress(), 4);
}

#[test]
fn gauge_wraps_to_empty_at_full() {
    let mut w = WidgetThree::new();
    for _ in 0..49 {
        w.render_step();
        assert!(w.progress() < 100);
    }
    assert_eq!(w.progress(), 98);
    w.render_step();
    assert_eq!(w.progress(), 0);
}

#[test]
fn chart_starts_as_thirty_zero_samples() {
    let w = WidgetFour::new();
    assert_eq!(w.data().len(), 30);
    assert!(w.data().iter().all(|&v| v == 0));
}

#[test]
fn chart_slides_window_left_on_push() {
    let mut w = WidgetFour::new();
    w.push_sample(7);
    w.push_sample(9);
    assert_eq!(w.data().len(), 30);
    assert_eq!(w.data()[27], 0);
    assert_eq!(w.data()[28], 7);
    assert_eq!(w.data()[29], 9);
}

#[test]
fn chart_render_appends_bounded_sample() {
    let mut w = WidgetFour::new();
    for _ in 0..40 {
        w.render_step();
        assert_eq!(w.data().len(), 30);
        assert!(w.data()[29] < 100);
    }
}

#[test]
fn three_arrow_ups_reach_count_three_with_ordered_notifications() {
    let mut d = Dashboard::new();
    let mut seen: Vec<AppEvent> = Vec::new();
    for _ in 0..3 {
        let (signal, messages) = d.tick(Some(key(KeyCode::Up)));
        assert_eq!(signal, LoopSignal::Continue);
        seen.extend(messages);
    }
    assert_eq!(d.count(), 3);
    assert_eq!(
        seen,
        vec![
            AppEvent::ModuleMessage(Message::CounterIncremented { value: 1 }),
            AppEvent::ModuleMessage(Message::CounterIncremented { value: 2 }),
            AppEvent::ModuleMessage(Message::CounterIncremented { value: 3 }),
        ]
    );
}

#[test]
fn quit_key_stops_the_loop_within_one_tick() {
    let mut d = Dashboard::new();
    let (s1, _) = d.tick(Some(key(KeyCode::Up)));
    assert_eq!(s1, LoopSignal::Continue);
    let (s2, _) = d.tick(None);
    assert_eq!(s2, LoopSignal::Continue);
    let count_before = d.count();
    let progress_before = d.progress();
    let samples_before = d.samples().clone();
    let selection_before = d.selection_index();
    let (signal, messages) = d.tick(Some(key(KeyCode::Char('q'))));
    assert_eq!(signal, LoopSignal::Stop);
    assert!(messages.is_empty());
    assert_eq!(d.count(), count_before);
    assert_eq!(d.progress(), progress_before);
    assert_eq!(d.samples(), &samples_before);
    assert_eq!(d.selection_index(), selection_before);
}

#[test]
fn quit_by_ctrl_c_stops_the_loop_too() {
    let mut d = Dashboard::new();
    let (signal, messages) = d.tick(Some(ctrl(KeyCode::Char('c'))));
    assert_eq!(signal, LoopSignal::Stop);
    assert!(messages.is_empty());
}

#[test]
fn tick_without_input_drains_and_renders() {
    let mut d = Dashboard::new();
    let (signal, messages) = d.tick(None);
    assert_eq!(signal, LoopSignal::Continue);
    assert!(messages.is_empty());
    assert_eq!(d.count(), 0);
    assert_eq!(d.progress(), 2);
    assert_eq!(d.samples().len(), 30);
}

#[test]
fn irrelevant_key_is_silently_discarded() {
    let mut d = Dashboard::new();
    let (signal, messages) = d.tick(Some(key(KeyCode::Char('z'))));
    assert_eq!(signal, LoopSignal::Continue);
    assert!(messages.is_empty());
    assert_eq!(d.count(), 0);
    assert_eq!(d.selection_index(), 0);
}

#[test]
fn pending_messages_survive_until_the_next_drain() {
    let mut d = Dashboard::new();
    let (_, first) = d.tick(Some(key(KeyCode::Right)));
    assert_eq!(
        first,
        vec![AppEvent::ModuleMessage(Message::SelectionChanged { index: 1 })]
    );
    let (_, second) = d.tick(None);
    assert!(second.is_empty());
}
