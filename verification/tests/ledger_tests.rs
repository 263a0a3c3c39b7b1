use sword_arena::color::ColorId;
use sword_arena::combat::{collect_items, ItemDrop};
use sword_arena::ledger::{CollectionLedger, Tally};
use sword_arena::player::PlayerState;
use sword_arena::settings::SettingsVerdict;
use sword_arena::sync::{LedgerSync, SyncAction, SyncEvent, SyncPhase};
use sword_arena::vector::Vec2;

fn connected() -> LedgerSync {
    let mut s = LedgerSync::new();
    let mut ledger = CollectionLedger::new();
    assert_eq!(s.step(&mut ledger, SyncEvent::Settings { verdict: SettingsVerdict::Usable }), SyncAction::Connect);
    assert_eq!(
        s.step(&mut ledger, SyncEvent::Connected),
        SyncAction::ReadCount { color: ColorId::Red }
    );
    s
}

fn remote(ledger: &mut CollectionLedger, red: u64, blue: u64, green: u64) -> LedgerSync {
    let mut s = connected();
    s.step(ledger, SyncEvent::CountRead { color: ColorId::Red, count: Some(red) });
    s.step(ledger, SyncEvent::CountRead { color: ColorId::Blue, count: Some(blue) });
    s.step(ledger, SyncEvent::CountRead { color: ColorId::Green, count: Some(green) });
    assert!(s.is_remote());
    s
}

#[test]
fn empty_ledger_has_empty_tally() {
    let ledger = CollectionLedger::new();
    assert_eq!(ledger.len(), 0);
    assert_eq!(ledger.tally(), Tally { total: 0, red: 0, blue: 0, green: 0 });
}

#[test]
fn tally_counts_each_color() {
    let mut ledger = CollectionLedger::new();
    for c in [ColorId::Blue, ColorId::Red, ColorId::Blue, ColorId::Green, ColorId::Blue] {
        ledger.append(c);
    }
    let t = ledger.tally();
    assert_eq!(t, Tally { total: 5, red: 1, blue: 3, green: 1 });
    assert_eq!(t.of(ColorId::Red), 1);
    assert_eq!(t.of(ColorId::Blue), 3);
    assert_eq!(t.of(ColorId::Green), 1);
    assert_eq!(t.red + t.blue + t.green, t.total);
}

#[test]
fn tally_twice_is_the_same() {
    let mut ledger = CollectionLedger::new();
    ledger.reconcile(Some(3), Some(1), Some(4));
    ledger.append(ColorId::Red);
    let first = ledger.tally();
    let second = ledger.tally();
    assert_eq!(first, second);
    assert_eq!(ledger.len(), 9);
}

#[test]
fn reconcile_seeds_exact_counts() {
    let mut ledger = CollectionLedger::new();
    ledger.reconcile(Some(2), Some(5), Some(0));
    assert_eq!(ledger.tally(), Tally { total: 7, red: 2, blue: 5, green: 0 });
    assert_eq!(ledger.get(0), Some(ColorId::Red));
    assert_eq!(ledger.get(1), Some(ColorId::Red));
    assert_eq!(ledger.get(2), Some(ColorId::Blue));
    assert_eq!(ledger.get(6), Some(ColorId::Blue));
    assert_eq!(ledger.get(7), None);
}

#[test]
fn failed_read_counts_as_zero() {
    let mut ledger = CollectionLedger::new();
    ledger.reconcile(None, Some(2), None);
    assert_eq!(ledger.tally(), Tally { total: 2, red: 0, blue: 2, green: 0 });
}

#[test]
fn seed_appends_to_what_is_there() {
    let mut ledger = CollectionLedger::new();
    ledger.append(ColorId::Green);
    ledger.seed(ColorId::Red, 3);
    ledger.seed(ColorId::Blue, 0);
    assert_eq!(ledger.len(), 4);
    assert_eq!(ledger.get(0), Some(ColorId::Green));
    assert_eq!(ledger.get(3), Some(ColorId::Red));
}

#[test]
fn startup_reconciliation_through_events() {
    let mut ledger = CollectionLedger::new();
    let mut s = connected();
    assert_eq!(s.phase, SyncPhase::Reading { color: ColorId::Red });
    assert_eq!(
        s.step(&mut ledger, SyncEvent::CountRead { color: ColorId::Red, count: Some(2) }),
        SyncAction::ReadCount { color: ColorId::Blue }
    );
    assert_eq!(
        s.step(&mut ledger, SyncEvent::CountRead { color: ColorId::Blue, count: Some(5) }),
        SyncAction::ReadCount { color: ColorId::Green }
    );
    assert_eq!(
        s.step(&mut ledger, SyncEvent::CountRead { color: ColorId::Green, count: Some(0) }),
        SyncAction::Nothing
    );
    assert_eq!(s.phase, SyncPhase::Remote);
    assert_eq!(ledger.tally(), Tally { total: 7, red: 2, blue: 5, green: 0 });
}

#[test]
fn read_failure_during_startup_keeps_going() {
    let mut ledger = CollectionLedger::new();
    let mut s = connected();
    s.step(&mut ledger, SyncEvent::CountRead { color: ColorId::Red, count: None });
    s.step(&mut ledger, SyncEvent::CountRead { color: ColorId::Blue, count: Some(1) });
    s.step(&mut ledger, SyncEvent::CountRead { color: ColorId::Green, count: None });
    assert!(s.is_remote());
    assert_eq!(ledger.tally(), Tally { total: 1, red: 0, blue: 1, green: 0 });
}

#[test]
fn count_for_another_color_is_dropped() {
    let mut ledger = CollectionLedger::new();
    let mut s = connected();
    let action = s.step(&mut ledger, SyncEvent::CountRead { color: ColorId::Green, count: Some(9) });
    assert_eq!(action, SyncAction::Nothing);
    assert_eq!(s.phase, SyncPhase::Reading { color: ColorId::Red });
    assert_eq!(ledger.len(), 0);
}

#[test]
fn failed_connection_means_local_only() {
    let mut ledger = CollectionLedger::new();
    let mut s = LedgerSync::new();
    s.step(&mut ledger, SyncEvent::Settings { verdict: SettingsVerdict::Usable });
    assert_eq!(s.phase, SyncPhase::Connecting);
    assert_eq!(s.step(&mut ledger, SyncEvent::ConnectFailed), SyncAction::Nothing);
    assert_eq!(s.phase, SyncPhase::LocalOnly);
    assert_eq!(s.step(&mut ledger, SyncEvent::Connected), SyncAction::Nothing);
    assert_eq!(s.phase, SyncPhase::LocalOnly);
}

#[test]
fn one_increment_for_each_pickup_in_remote_mode() {
    let mut ledger = CollectionLedger::new();
    let mut s = remote(&mut ledger, 0, 0, 0);
    for c in [ColorId::Green, ColorId::Green, ColorId::Red] {
        assert_eq!(
            s.step(&mut ledger, SyncEvent::Collected { color: c }),
            SyncAction::Increment { color: c }
        );
    }
    assert_eq!(ledger.len(), 0);
}

#[test]
fn failed_remote_write_leaves_local_ledger_alone() {
    let mut ledger = CollectionLedger::new();
    let mut s = remote(&mut ledger, 1, 0, 0);
    let mut p = PlayerState::new();
    let mut items = vec![ItemDrop { position: Vec2::new(0, 0), color: ColorId::Green }];
    let picked = collect_items(&mut p, &mut ledger, &mut items);
    assert_eq!(picked, vec![ColorId::Green]);
    let action = s.step(&mut ledger, SyncEvent::Collected { color: ColorId::Green });
    assert_eq!(action, SyncAction::Increment { color: ColorId::Green });
    let after = s.step(&mut ledger, SyncEvent::WriteFinished { color: ColorId::Green, ok: false });
    assert_eq!(after, SyncAction::Nothing);
    assert_eq!(ledger.tally(), Tally { total: 2, red: 1, blue: 0, green: 1 });
    assert_eq!(s.writes_failed, 1);
    assert_eq!(s.writes_confirmed, 0);
    assert!(s.is_remote());
    s.step(&mut ledger, SyncEvent::WriteFinished { color: ColorId::Green, ok: true });
    assert_eq!(s.writes_confirmed, 1);
    assert_eq!(ledger.len(), 2);
}

#[test]
fn write_counters_stop_at_the_top() {
    let mut ledger = CollectionLedger::new();
    let mut s = LedgerSync::new();
    s.writes_failed = u64::MAX;
    s.step(&mut ledger, SyncEvent::WriteFinished { color: ColorId::Red, ok: false });
    assert_eq!(s.writes_failed, u64::MAX);
}

#[test]
fn ledger_grows_by_one_for_each_pickup_in_either_mode() {
    for use_remote in [false, true] {
        let mut ledger = CollectionLedger::new();
        let mut s = if use_remote {
            remote(&mut ledger, 0, 0, 0)
        } else {
            let mut s = LedgerSync::new();
            s.step(&mut ledger, SyncEvent::Settings { verdict: SettingsVerdict::Missing });
            s
        };
        let mut p = PlayerState::new();
        let n = 7usize;
        for k in 0..n {
            let color = ColorId::from_roll(k as u8);
            let mut items = vec![ItemDrop { position: p.position, color }];
            let picked = collect_items(&mut p, &mut ledger, &mut items);
            assert!(items.is_empty());
            for c in picked {
                let action = s.step(&mut ledger, SyncEvent::Collected { color: c });
                assert_eq!(action != SyncAction::Nothing, use_remote);
                s.step(&mut ledger, SyncEvent::WriteFinished { color: c, ok: k % 2 == 0 });
            }
            assert_eq!(ledger.len(), k + 1);
        }
        assert_eq!(ledger.tally(), Tally { total: 7, red: 3, blue: 2, green: 2 });
    }
}
