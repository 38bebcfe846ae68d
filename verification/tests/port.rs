use service_supervisor::port::{BindOutcome, PortAllocator, PortStep, ANY_PORT, DEFAULT_PORT};

fn bind_of(step: PortStep) -> u16 {
    match step {
        PortStep::Bind(port) => port,
        other => panic!("expected a bind, got {:?}", other),
    }
}

#[test]
fn port_constants() {
    assert_eq!(DEFAULT_PORT, 7860);
    assert_eq!(ANY_PORT, 0);
}

#[test]
fn free_preferred_port_is_chosen() {
    let allocator = PortAllocator::new(7860);
    assert_eq!(bind_of(allocator.step()), 7860);
    let allocator = allocator.observe(BindOutcome::Bound(7860));
    assert!(matches!(allocator.step(), PortStep::Chosen(7860)));
}

#[test]
fn occupied_preferred_port_falls_back() {
    let allocator = PortAllocator::new(7860);
    let allocator = allocator.observe(BindOutcome::Refused("Address already in use".to_string()));
    assert_eq!(bind_of(allocator.step()), 0);
    let allocator = allocator.observe(BindOutcome::Bound(49321));
    match allocator.step() {
        PortStep::Chosen(port) => {
            assert_eq!(port, 49321);
            assert_ne!(port, 7860);
        }
        other => panic!("expected a port, got {:?}", other),
    }
}

#[test]
fn no_port_at_all_is_fatal() {
    let allocator = PortAllocator::new(7860);
    let allocator = allocator.observe(BindOutcome::Refused("in use".to_string()));
    let allocator = allocator.observe(BindOutcome::Refused("too many open files".to_string()));
    match allocator.step() {
        PortStep::Exhausted(reason) => assert_eq!(reason, "too many open files"),
        other => panic!("expected exhaustion, got {:?}", other),
    }
}

#[test]
fn a_finished_allocation_ignores_outcomes() {
    let allocator = PortAllocator::new(7860).observe(BindOutcome::Bound(7860));
    let allocator = allocator.observe(BindOutcome::Bound(1234));
    assert!(matches!(allocator.step(), PortStep::Chosen(7860)));
    let allocator = allocator.observe(BindOutcome::Refused("late".to_string()));
    assert!(matches!(allocator.step(), PortStep::Chosen(7860)));

    let allocator = PortAllocator::new(7860)
        .observe(BindOutcome::Refused("a".to_string()))
        .observe(BindOutcome::Refused("b".to_string()))
        .observe(BindOutcome::Bound(5000));
    match allocator.step() {
        PortStep::Exhausted(reason) => assert_eq!(reason, "b"),
        other => panic!("expected exhaustion, got {:?}", other),
    }
}

#[test]
fn preferring_any_port_takes_what_was_bound() {
    let allocator = PortAllocator::new(0);
    assert_eq!(bind_of(allocator.step()), 0);
    let allocator = allocator.observe(BindOutcome::Bound(40000));
    assert!(matches!(allocator.step(), PortStep::Chosen(40000)));
}
