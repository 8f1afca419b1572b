use simcore::integrator::{EulerProgress, IntegratorState};

#[test]
fn first_substep_needs_derivatives_then_done() {
    let mut p = EulerProgress::begin();
    assert!(!p.is_done());
    assert_eq!(p.substep(), IntegratorState::NeedsDerivatives);
    assert!(p.is_done());
    assert_eq!(p.substep(), IntegratorState::Done);
    assert_eq!(p.substep(), IntegratorState::Done);
    assert!(p.is_done());
}
