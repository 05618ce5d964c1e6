use physix::particle::{ParticleRegistration, ParticleRegistry};

fn pairing(particle: usize, force_generator: usize) -> ParticleRegistration {
    ParticleRegistration { particle, force_generator }
}

#[test]
fn new_registry_is_empty() {
    let registry = ParticleRegistry::new();
    assert_eq!(registry.registrations.len(), 0);
}

#[test]
fn add_registration_appends_in_order() {
    let mut registry = ParticleRegistry::new();
    registry.add_registration(pairing(0, 0));
    registry.add_registration(pairing(1, 0));
    assert_eq!(registry.registrations.len(), 2);
    assert_eq!(registry.registrations[0], pairing(0, 0));
    assert_eq!(registry.registrations[1], pairing(1, 0));
}

#[test]
fn remove_registration_takes_out_the_first_match() {
    let mut registry = ParticleRegistry::new();
    registry.add_registration(pairing(0, 0));
    registry.add_registration(pairing(1, 1));
    registry.add_registration(pairing(0, 0));
    registry.remove_registration(pairing(0, 0));
    assert_eq!(registry.registrations.len(), 2);
    assert_eq!(registry.registrations[0], pairing(1, 1));
    assert_eq!(registry.registrations[1], pairing(0, 0));
}

#[test]
fn remove_registration_of_an_absent_pairing_changes_nothing() {
    let mut registry = ParticleRegistry::new();
    registry.add_registration(pairing(0, 0));
    registry.add_registration(pairing(1, 1));
    registry.remove_registration(pairing(2, 0));
    assert_eq!(registry.registrations.len(), 2);
    assert_eq!(registry.registrations[0], pairing(0, 0));
    assert_eq!(registry.registrations[1], pairing(1, 1));
}

#[test]
fn remove_registration_on_an_empty_registry_is_a_no_op() {
    let mut registry = ParticleRegistry::new();
    registry.remove_registration(pairing(0, 0));
    assert_eq!(registry.registrations.len(), 0);
}

#[test]
fn clear_registry_leaves_no_pairings_to_apply() {
    let mut registry = ParticleRegistry::new();
    registry.add_registration(pairing(0, 0));
    registry.add_registration(pairing(1, 0));
    registry.clear_registry();
    // A later force update walks the pairings, so nothing is applied.
    assert_eq!(registry.registrations.len(), 0);
}
