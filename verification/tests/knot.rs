use tie_weak::Tied;
use tie_weak::TieWeak;
use tie_weak::atomic_impl::AtomicFamily;
use tie_weak::local_impl::LocalFamily;
use tie_weak::tie;
use tie_weak::traits::SharedPointerTag;
use tie_weak::traits::SharedStrongPointer;

#[test]
fn test1() {
    let mut realm: AtomicFamily<i32> = AtomicFamily::new_realm();
    let v = tie(&mut realm, Tied { value: 42, myself: Default::default() });
    assert_eq!(realm.borrow(&v).value, 42);
    let w = realm.borrow(&v).myself.read();
    assert_eq!(realm.upgrade(&w).map(|n| realm.borrow(&n).value), Some(42));
}

#[test]
fn test_test1() {
    let mut realm: LocalFamily<i32> = LocalFamily::new_realm();
    let v = tie(&mut realm, Tied { value: 42, myself: Default::default() });
    assert_eq!(realm.borrow(&v).value, 42);
    let w = realm.borrow(&v).myself.read();
    assert_eq!(realm.upgrade(&w).map(|n| realm.borrow(&n).value), Some(42));
}

#[test]
fn node_scenario_local() {
    let mut realm: LocalFamily<i32> = LocalFamily::new_realm();
    let node = tie(&mut realm, Tied { value: 42, myself: TieWeak::new() });
    assert_eq!(realm.borrow(&node).value, 42);
    let myself = realm.borrow(&node).myself.read();
    let again = realm.upgrade(&myself).expect("tied cell must upgrade while the node lives");
    assert_eq!(realm.borrow(&again).value, 42);
    realm.drop_strong(again);
    realm.drop_strong(node);
    assert!(realm.upgrade(&myself).is_none());
    assert!(realm.upgrade(&myself).is_none());
}

#[test]
fn node_scenario_atomic() {
    let mut realm: AtomicFamily<i32> = AtomicFamily::new_realm();
    let node = tie(&mut realm, Tied { value: 42, myself: TieWeak::new() });
    assert_eq!(realm.borrow(&node).value, 42);
    let myself = realm.borrow(&node).myself.read();
    let again = realm.upgrade(&myself).expect("tied cell must upgrade while the node lives");
    assert_eq!(realm.borrow(&again).value, 42);
    realm.drop_strong(again);
    realm.drop_strong(node);
    assert!(realm.upgrade(&myself).is_none());
    assert!(realm.upgrade(&myself).is_none());
}

#[test]
fn upgrade_points_at_the_same_slot() {
    let mut realm: LocalFamily<u8> = LocalFamily::new_realm();
    let s = tie(&mut realm, Tied { value: 7, myself: TieWeak::new() });
    let w = realm.borrow(&s).myself.read();
    let s2 = realm.upgrade(&w).expect("live slot must upgrade");
    assert_eq!(s.slot_index(), s2.slot_index());
    realm.drop_strong(s2);
    realm.drop_strong(s);
}

#[test]
fn clone_keeps_the_target_alive() {
    let mut realm: AtomicFamily<i32> = AtomicFamily::new_realm();
    let s = tie(&mut realm, Tied { value: 5, myself: TieWeak::new() });
    let w = realm.borrow(&s).myself.read();
    let kept = realm.clone_strong(&s);
    realm.drop_strong(s);
    let live = realm.upgrade(&w).expect("a clone still owns the slot");
    assert_eq!(realm.borrow(&live).value, 5);
    realm.drop_strong(live);
    realm.drop_strong(kept);
    assert!(realm.upgrade(&w).is_none());
}

#[test]
fn empty_weak_never_upgrades() {
    let mut realm: LocalFamily<i32> = LocalFamily::new_realm();
    let w = realm.new_weak();
    assert!(realm.upgrade(&w).is_none());
    let cell: TieWeak<tie_weak::local_impl::LocalWeak> = TieWeak::new();
    let unset = cell.read();
    assert!(realm.upgrade(&unset).is_none());
}

#[test]
fn downgrade_observes_without_owning() {
    let mut realm: AtomicFamily<i32> = AtomicFamily::new_realm();
    let s = tie(&mut realm, Tied { value: 9, myself: TieWeak::new() });
    let w = realm.downgrade(&s);
    let seen = realm.upgrade(&w).expect("downgraded pointer must upgrade while owner lives");
    assert_eq!(realm.borrow(&seen).value, 9);
    realm.drop_strong(seen);
    realm.drop_strong(s);
    assert!(realm.upgrade(&w).is_none());
}

#[test]
fn families_observe_alike() {
    let mut atomic: AtomicFamily<i32> = AtomicFamily::new_realm();
    let mut local: LocalFamily<i32> = LocalFamily::new_realm();
    let sa = tie(&mut atomic, Tied { value: 23, myself: TieWeak::new() });
    let sl = tie(&mut local, Tied { value: 23, myself: TieWeak::new() });
    assert_eq!(sa.slot_index(), sl.slot_index());
    assert_eq!(atomic.borrow(&sa).value, local.borrow(&sl).value);
    let wa = atomic.borrow(&sa).myself.read();
    let wl = local.borrow(&sl).myself.read();
    let ua = atomic.upgrade(&wa).map(|n| atomic.borrow(&n).value);
    let ul = local.upgrade(&wl).map(|n| local.borrow(&n).value);
    assert_eq!(ua, ul);
    assert_eq!(ua, Some(23));
}

#[test]
fn tag_ref_needs_a_direct_cell() {
    let cell: TieWeak<tie_weak::atomic_impl::AtomicWeak> = TieWeak::new();
    let _token: tie_weak::atomic_impl::AtomicTag = TieWeak::tag_ref(&&cell);
    let other: TieWeak<tie_weak::local_impl::LocalWeak> = TieWeak::new();
    let _token = TieWeak::tag_ref(&&other);
}
