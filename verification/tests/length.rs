use recv_body::length::{DeclaredLength, SizeHint};

#[test]
fn constants_and_queries() {
    assert_eq!(DeclaredLength::zero(), DeclaredLength::Exact(0));
    assert_eq!(DeclaredLength::chunked(), DeclaredLength::Unknown);
    assert_eq!(DeclaredLength::new(9), DeclaredLength::Exact(9));

    assert!(DeclaredLength::zero().is_zero());
    assert!(!DeclaredLength::new(1).is_zero());
    assert!(!DeclaredLength::chunked().is_zero());

    assert!(DeclaredLength::new(1).is_exact());
    assert!(!DeclaredLength::chunked().is_exact());

    assert_eq!(DeclaredLength::new(5).to_optional_exact(), Some(5));
    assert_eq!(DeclaredLength::chunked().to_optional_exact(), None);
}

#[test]
fn subtraction_saturates() {
    let mut len = DeclaredLength::new(10);
    len.saturating_subtract(4);
    assert_eq!(len, DeclaredLength::Exact(6));

    // More bytes than were declared: the count stops at zero.
    len.saturating_subtract(100);
    assert_eq!(len, DeclaredLength::Exact(0));
    len.saturating_subtract(1);
    assert_eq!(len, DeclaredLength::Exact(0));

    let mut unknown = DeclaredLength::chunked();
    unknown.saturating_subtract(7);
    assert_eq!(unknown, DeclaredLength::Unknown);
}

#[test]
fn feeding_past_the_declared_total_hits_zero() {
    // Three chunks totalling 9 bytes against a declared 8.
    let mut len = DeclaredLength::new(8);
    len.saturating_subtract(3);
    len.saturating_subtract(3);
    len.saturating_subtract(3);
    assert_eq!(len, DeclaredLength::Exact(0));
}

#[test]
fn hints() {
    assert_eq!(SizeHint::new().lower(), 0);
    assert_eq!(SizeHint::new().upper(), None);
    assert_eq!(SizeHint::with_exact(3).lower(), 3);
    assert_eq!(SizeHint::with_exact(3).upper(), Some(3));

    assert_eq!(
        SizeHint::of_length(&DeclaredLength::new(12)),
        SizeHint::with_exact(12)
    );
    assert_eq!(
        SizeHint::of_length(&DeclaredLength::chunked()),
        SizeHint::new()
    );
}
