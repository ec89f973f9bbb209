use osmium::ecs::signature::Signature;

#[test]
fn new_signature_is_empty() {
    let s = Signature::new();
    for i in 0..32 {
        assert!(!s.has(i));
    }
    assert_eq!(s, Signature::new());
}

#[test]
fn set_true_sets_only_that_bit() {
    let mut s = Signature::new();
    s.set(3, true);
    s.set(31, true);
    for i in 0..32 {
        assert_eq!(s.has(i), i == 3 || i == 31);
    }
}

#[test]
fn set_false_clears_every_bit() {
    let mut s = Signature::new();
    s.set(1, true);
    s.set(2, true);
    s.set(5, false);
    for i in 0..32 {
        assert!(!s.has(i));
    }
    assert_eq!(s, Signature::new());
}

#[test]
fn reset_clears_every_bit() {
    let mut s = Signature::new();
    s.set(0, true);
    s.set(7, true);
    s.reset();
    assert_eq!(s, Signature::new());
}

#[test]
fn bitand_keeps_common_bits() {
    let mut a = Signature::new();
    a.set(1, true);
    a.set(2, true);
    let mut b = Signature::new();
    b.set(2, true);
    b.set(4, true);
    let c = a & b;
    for i in 0..32 {
        assert_eq!(c.has(i), i == 2);
    }
    assert!((a & b) != b);
    assert!((a & a) == a);
}
