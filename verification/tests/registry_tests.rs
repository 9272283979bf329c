use frame_registry::registry::{Entity, Registry};

const ORIGINAL: u64 = 0x7100_0000;

#[test]
fn reset_order_preserved() {
    let mut r = Registry::new();
    r.register_reset(11);
    r.register_reset(22);
    r.register_reset(33);
    assert_eq!(*r.reset_order(), vec![11, 22, 33]);
    // A second reset event sees the same order, every time.
    assert_eq!(*r.reset_order(), vec![11, 22, 33]);
}

#[test]
fn last_match_wins() {
    let mut r = Registry::new();
    r.register_replacement(7, false, 0x100);
    r.register_replacement(7, false, 0x200);
    let mut e = Entity::new(7);
    let chosen = r.init_entity(&mut e, ORIGINAL);
    assert_eq!(chosen, 0x200);
    assert_eq!(e.installed, Some(0x200));
}

#[test]
fn original_capture() {
    let mut r = Registry::new();
    r.register_replacement(7, true, 0x100);
    r.register_replacement(7, false, 0x200);
    r.register_replacement(9, true, 0x300);
    r.register_replacement(7, true, 0x400);
    let mut e = Entity::new(7);
    let chosen = r.init_entity(&mut e, ORIGINAL);
    assert_eq!(chosen, 0x400);
    // Every matching registration with a cell observes the pristine
    // original, never another registration's replacement.
    assert_eq!(r.captured_at(0), Some(ORIGINAL));
    assert_eq!(r.captured_at(3), Some(ORIGINAL));
    // No cell supplied, nothing written.
    assert_eq!(r.captured_at(1), None);
    // Another kind's cell is untouched.
    assert_eq!(r.captured_at(2), None);
}

#[test]
fn no_match_passthrough() {
    let mut r = Registry::new();
    r.register_replacement(7, false, 0x100);
    let mut e = Entity::new(3);
    let chosen = r.init_entity(&mut e, ORIGINAL);
    assert_eq!(chosen, ORIGINAL);
    assert_eq!(e.installed, Some(ORIGINAL));
}

#[test]
fn empty_registry_passes_through() {
    let mut r = Registry::new();
    assert_eq!(r.num_registrations(), 0);
    assert!(r.reset_order().is_empty());
    let mut e = Entity::new(7);
    let chosen = r.init_entity(&mut e, ORIGINAL);
    assert_eq!(chosen, ORIGINAL);
}

#[test]
fn per_instance_stabilization() {
    let mut r = Registry::new();
    r.register_replacement(7, false, 0x100);
    let mut e = Entity::new(7);
    let first = r.init_entity(&mut e, ORIGINAL);
    assert_eq!(first, 0x100);
    // Mutate the registry between the two events.
    r.register_replacement(7, true, 0x200);
    let second = r.init_entity(&mut e, ORIGINAL);
    // The instance keeps its installed implementation...
    assert_eq!(second, 0x100);
    assert_eq!(e.installed, Some(0x100));
    // ...and the registry was not re-scanned: the new registration's cell
    // stays empty.
    assert_eq!(r.captured_at(1), None);
    // A fresh instance of the same kind sees the new registration.
    let mut e2 = Entity::new(7);
    assert_eq!(r.init_entity(&mut e2, ORIGINAL), 0x200);
    assert_eq!(r.captured_at(1), Some(ORIGINAL));
}

#[test]
fn capture_rewritten_on_every_matching_scan() {
    let mut r = Registry::new();
    r.register_replacement(7, true, 0x100);
    let mut e1 = Entity::new(7);
    r.init_entity(&mut e1, ORIGINAL);
    assert_eq!(r.captured_at(0), Some(ORIGINAL));
    // A second instance's first initialization scans again and rewrites the
    // cell with the same pristine original.
    let mut e2 = Entity::new(7);
    r.init_entity(&mut e2, ORIGINAL);
    assert_eq!(r.captured_at(0), Some(ORIGINAL));
}

#[test]
fn registrations_do_not_disturb_resets() {
    let mut r = Registry::new();
    r.register_reset(5);
    r.register_replacement(7, false, 0x100);
    let mut e = Entity::new(7);
    r.init_entity(&mut e, ORIGINAL);
    assert_eq!(*r.reset_order(), vec![5]);
}
