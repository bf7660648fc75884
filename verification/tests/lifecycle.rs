use miwu::dispatch::on_irq;
use miwu::driver::{AnyWakeUpInput, WakeUp};
use miwu::init;
use miwu::mode::{Edge, Level, Mode};
use miwu::wui::{WuiIndex, WuiMap};

fn tbit(x: u8, i: u8) -> bool {
    (x >> i) & 1 == 1
}

fn handle(miwu_n: u8, group: u8, subgroup: u8) -> WakeUp {
    let map = WuiMap { miwu_n, group, subgroup };
    WakeUp::new(AnyWakeUpInput::new(WuiIndex::new(map)))
}

#[test]
fn reset_state_is_quiet() {
    let st = init();
    for miwu_n in 0..3u8 {
        for group in 0..8u8 {
            let r = st.group_regs(miwu_n, group);
            assert_eq!(r.wken, 0);
            assert_eq!(r.wkmod, 0);
            assert_eq!(r.wkaedg, 0);
            assert_eq!(r.wkedg, 0);
            assert_eq!(r.wkinen, 0);
            assert_eq!(r.wkpnd, 0);
            assert_eq!(r.wkst, 0);
        }
    }
    assert_eq!(st.registered(WuiMap { miwu_n: 0, group: 0, subgroup: 0 }), None);
    assert_eq!(st.registered(WuiMap { miwu_n: 2, group: 7, subgroup: 7 }), None);
}

#[test]
fn level_high_event_latches_pending() {
    let mut st = init();
    let mut wk = handle(1, 2, 3);
    let map = WuiMap { miwu_n: 1, group: 2, subgroup: 3 };
    wk.enable(&mut st, Mode::Level(Level::High));
    assert!(!wk.is_pending(&st));
    assert!(!wk.is_high(&st));
    st.set_input_level(map, true);
    assert!(wk.is_pending(&st));
    assert!(wk.is_high(&st));
}

#[test]
fn event_on_never_enabled_line_is_lost() {
    let mut st = init();
    let wk = handle(0, 3, 6);
    let map = WuiMap { miwu_n: 0, group: 3, subgroup: 6 };
    st.set_input_level(map, true);
    assert!(wk.is_high(&st));
    assert!(!wk.is_pending(&st));
}

#[test]
fn event_after_interrupt_disable_still_latches() {
    // The dispatcher clears only the enable bit; input detection stays on,
    // so a later event still latches pending even while the line cannot
    // raise an interrupt.
    let mut st = init();
    let mut wk = handle(0, 5, 1);
    let map = WuiMap { miwu_n: 0, group: 5, subgroup: 1 };
    wk.enable(&mut st, Mode::Level(Level::High));
    wk.disable(&mut st);
    st.set_input_level(map, true);
    assert!(wk.is_pending(&st));
    assert!(!tbit(st.group_regs(0, 5).wken, 1));
}

#[test]
fn enable_configures_and_disable_clears_only_enable() {
    let mut st = init();
    let mut wk = handle(2, 6, 4);
    wk.enable(&mut st, Mode::Edge(Edge::Rising));
    let r = st.group_regs(2, 6);
    assert!(tbit(r.wken, 4));
    assert!(tbit(r.wkmod, 4));
    assert!(!tbit(r.wkaedg, 4));
    assert!(tbit(r.wkedg, 4));
    assert!(tbit(r.wkinen, 4));
    assert!(!tbit(r.wkpnd, 4));
    wk.disable(&mut st);
    let r2 = st.group_regs(2, 6);
    assert!(!tbit(r2.wken, 4));
    assert_eq!(r2.wkmod, r.wkmod);
    assert_eq!(r2.wkaedg, r.wkaedg);
    assert_eq!(r2.wkedg, r.wkedg);
    assert_eq!(r2.wkinen, r.wkinen);
    assert_eq!(r2.wkpnd, r.wkpnd);
    wk.disable(&mut st);
    assert_eq!(st.group_regs(2, 6), r2);
}

#[test]
fn sibling_enable_preserves_configuration() {
    let mut st = init();
    let mut a = handle(0, 4, 2);
    let mut b = handle(0, 4, 5);
    a.enable(&mut st, Mode::Edge(Edge::Rising));
    let before = st.group_regs(0, 4);
    b.enable(&mut st, Mode::Level(Level::Low));
    let after = st.group_regs(0, 4);
    // Line A's configuration is exactly as it was.
    for (x, y) in [
        (before.wken, after.wken),
        (before.wkmod, after.wkmod),
        (before.wkaedg, after.wkaedg),
        (before.wkedg, after.wkedg),
        (before.wkinen, after.wkinen),
        (before.wkpnd, after.wkpnd),
    ] {
        assert_eq!(tbit(x, 2), tbit(y, 2));
    }
    // And line B is now configured for the low level.
    assert!(tbit(after.wken, 5));
    assert!(!tbit(after.wkmod, 5));
    assert!(!tbit(after.wkedg, 5));
    assert!(tbit(after.wkinen, 5));
}

#[test]
fn release_always_leaves_enable_clear() {
    let mut st = init();
    let mut armed = handle(1, 0, 7);
    armed.enable(&mut st, Mode::Edge(Edge::Any));
    assert!(tbit(st.group_regs(1, 0).wken, 7));
    armed.release(&mut st);
    assert!(!tbit(st.group_regs(1, 0).wken, 7));

    let idle = handle(1, 0, 2);
    idle.release(&mut st);
    assert!(!tbit(st.group_regs(1, 0).wken, 2));
}

#[test]
fn clear_pending_clears_only_its_line() {
    let mut st = init();
    let mut a = handle(2, 1, 0);
    let mut b = handle(2, 1, 3);
    a.enable(&mut st, Mode::Level(Level::High));
    b.enable(&mut st, Mode::Level(Level::High));
    st.set_input_level(WuiMap { miwu_n: 2, group: 1, subgroup: 0 }, true);
    st.set_input_level(WuiMap { miwu_n: 2, group: 1, subgroup: 3 }, true);
    assert!(a.is_pending(&st));
    assert!(b.is_pending(&st));
    a.clear_pending(&mut st);
    assert!(!a.is_pending(&st));
    assert!(b.is_pending(&st));
}

#[test]
fn dispatcher_wakes_exactly_snapshot_lines() {
    let mut st = init();
    // Lines 2 and 5 of controller 0, group 1: armed, registered, pending.
    let mut l2 = handle(0, 1, 2);
    let mut l5 = handle(0, 1, 5);
    let f2 = l2.wait_for(&mut st, Mode::Level(Level::High));
    let f5 = l5.wait_for(&mut st, Mode::Level(Level::High));
    assert!(!f2.poll(&mut st, 11));
    assert!(!f5.poll(&mut st, 22));
    // Line 3: armed and registered, but no event, so not in the snapshot.
    let mut l3 = handle(0, 1, 3);
    let f3 = l3.wait_for(&mut st, Mode::Level(Level::High));
    assert!(!f3.poll(&mut st, 33));
    // Line 6: pending but nobody registered: a harmless no-op for the wake.
    let mut l6 = handle(0, 1, 6);
    l6.enable(&mut st, Mode::Level(Level::High));
    st.set_input_level(WuiMap { miwu_n: 0, group: 1, subgroup: 2 }, true);
    st.set_input_level(WuiMap { miwu_n: 0, group: 1, subgroup: 5 }, true);
    st.set_input_level(WuiMap { miwu_n: 0, group: 1, subgroup: 6 }, true);

    let before = st.group_regs(0, 1);
    assert_eq!(before.wkpnd, 0b0110_0100);
    let woken = on_irq(&mut st, 0, 1);
    // Exactly the registered waiters of the snapshot, lowest line first.
    assert_eq!(woken, vec![11, 22]);
    let after = st.group_regs(0, 1);
    // Enable cleared for exactly the snapshot bits {2, 5, 6}; line 3 stays armed.
    assert!(!tbit(after.wken, 2));
    assert!(tbit(after.wken, 3));
    assert!(!tbit(after.wken, 5));
    assert!(!tbit(after.wken, 6));
    // Pending deliberately not cleared by the dispatcher.
    assert_eq!(after.wkpnd, before.wkpnd);
    // Untouched slots keep their registration.
    assert_eq!(st.registered(WuiMap { miwu_n: 0, group: 1, subgroup: 3 }), Some(33));
    assert_eq!(st.registered(WuiMap { miwu_n: 0, group: 1, subgroup: 2 }), Some(11));
    // The completed waits are resolved; the untouched one is not.
    assert!(f2.poll(&mut st, 11));
    assert!(f5.poll(&mut st, 22));
    assert!(!f3.poll(&mut st, 33));
}

#[test]
fn dispatcher_with_nothing_pending_is_a_no_op() {
    let mut st = init();
    let mut wk = handle(1, 7, 0);
    wk.enable(&mut st, Mode::Edge(Edge::Falling));
    let before = st.group_regs(1, 7);
    let woken = on_irq(&mut st, 1, 7);
    assert!(woken.is_empty());
    assert_eq!(st.group_regs(1, 7), before);
}

#[test]
fn abandon_before_event_disables_and_clears() {
    let mut st = init();
    let mut wk = handle(2, 2, 7);
    let fut = wk.wait_for(&mut st, Mode::Edge(Edge::Falling));
    assert!(!fut.poll(&mut st, 5));
    fut.abandon(&mut st);
    let r = st.group_regs(2, 2);
    assert!(!tbit(r.wken, 7));
    assert!(!tbit(r.wkpnd, 7));
}

#[test]
fn abandon_after_dispatcher_fired_disables_and_clears() {
    let mut st = init();
    let mut wk = handle(2, 4, 1);
    let map = WuiMap { miwu_n: 2, group: 4, subgroup: 1 };
    let fut = wk.wait_for(&mut st, Mode::Level(Level::High));
    assert!(!fut.poll(&mut st, 9));
    st.set_input_level(map, true);
    let woken = on_irq(&mut st, 2, 4);
    assert_eq!(woken, vec![9]);
    // The dispatcher disabled the line and left it pending.
    assert!(!tbit(st.group_regs(2, 4).wken, 1));
    assert!(tbit(st.group_regs(2, 4).wkpnd, 1));
    fut.abandon(&mut st);
    let r = st.group_regs(2, 4);
    assert!(!tbit(r.wken, 1));
    assert!(!tbit(r.wkpnd, 1));
}

#[test]
fn second_waiter_wins_the_slot() {
    let mut st = init();
    let map = WuiMap { miwu_n: 0, group: 2, subgroup: 4 };
    let mut first = handle(0, 2, 4);
    let mut second = handle(0, 2, 4);
    let f1 = first.wait_for(&mut st, Mode::Level(Level::High));
    assert!(!f1.poll(&mut st, 100));
    assert_eq!(st.registered(map), Some(100));
    let f2 = second.wait_for(&mut st, Mode::Level(Level::High));
    assert!(!f2.poll(&mut st, 200));
    // Registration silently replaced: the first waiter is never woken apart.
    assert_eq!(st.registered(map), Some(200));
    st.set_input_level(map, true);
    let woken = on_irq(&mut st, 0, 2);
    assert_eq!(woken, vec![200]);
}

#[test]
fn falling_edge_wait_full_lifecycle() {
    // Line bound to subgroup 3 of group 2 of controller 1.
    let mut st = init();
    let map = WuiMap { miwu_n: 1, group: 2, subgroup: 3 };
    let mut wk = handle(1, 2, 3);

    wk.enable(&mut st, Mode::Edge(Edge::Falling));
    st.set_input_level(map, true);
    assert!(!wk.is_pending(&st));
    st.set_input_level(map, false);
    assert!(wk.is_pending(&st));

    // Await the low level: the wait re-arms the line and clears the stale
    // pending bit, then resolves on the next low observation.
    let fut = wk.wait_for_low(&mut st);
    assert!(!fut.poll(&mut st, 42));
    st.set_input_level(map, false);
    let woken = on_irq(&mut st, 1, 2);
    assert_eq!(woken, vec![42]);
    assert!(fut.poll(&mut st, 42));
    fut.abandon(&mut st);

    wk.clear_pending(&mut st);
    assert!(!wk.is_pending(&st));
    // Still disabled until the caller re-enables.
    assert!(!tbit(st.group_regs(1, 2).wken, 3));
    wk.enable(&mut st, Mode::Edge(Edge::Falling));
    assert!(tbit(st.group_regs(1, 2).wken, 3));
}

#[test]
fn wait_for_high_uses_the_high_level_condition() {
    let mut st = init();
    let map = WuiMap { miwu_n: 0, group: 0, subgroup: 0 };
    let mut wk = handle(0, 0, 0);
    let fut = wk.wait_for_high(&mut st);
    assert!(!fut.poll(&mut st, 1));
    st.set_input_level(map, false);
    assert!(!fut.poll(&mut st, 1));
    st.set_input_level(map, true);
    assert!(fut.poll(&mut st, 1));
}

#[test]
fn edge_any_triggers_on_both_transitions() {
    let mut st = init();
    let map = WuiMap { miwu_n: 1, group: 5, subgroup: 6 };
    let mut wk = handle(1, 5, 6);
    wk.enable(&mut st, Mode::Edge(Edge::Any));
    st.set_input_level(map, true);
    assert!(wk.is_pending(&st));
    wk.clear_pending(&mut st);
    st.set_input_level(map, false);
    assert!(wk.is_pending(&st));
}

#[test]
fn edge_rising_ignores_falling_transition() {
    let mut st = init();
    let map = WuiMap { miwu_n: 1, group: 6, subgroup: 0 };
    let mut wk = handle(1, 6, 0);
    st.set_input_level(map, true);
    wk.enable(&mut st, Mode::Edge(Edge::Rising));
    st.set_input_level(map, false);
    assert!(!wk.is_pending(&st));
    st.set_input_level(map, true);
    assert!(wk.is_pending(&st));
}
