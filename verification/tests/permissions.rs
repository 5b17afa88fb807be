//! The validated permission constructor.

use syscall_core::perm::Perm;

#[test]
fn from_bits_accepts_each_single_right() {
    let r = Perm::from_bits(0x1).unwrap();
    assert!(r.read && !r.write && !r.execute);
    let w = Perm::from_bits(0x2).unwrap();
    assert!(!w.read && w.write && !w.execute);
    let x = Perm::from_bits(0x4).unwrap();
    assert!(!x.read && !x.write && x.execute);
}

#[test]
fn from_bits_accepts_combinations() {
    let rw = Perm::from_bits(0x3).unwrap();
    assert!(rw.read && rw.write && !rw.execute);
    let rwx = Perm::from_bits(0x7).unwrap();
    assert!(rwx.read && rwx.write && rwx.execute);
}

#[test]
fn from_bits_rejects_zero_and_outside_bits() {
    assert!(Perm::from_bits(0).is_none());
    assert!(Perm::from_bits(0x8).is_none());
    assert!(Perm::from_bits(0x9).is_none());
    assert!(Perm::from_bits(usize::MAX).is_none());
}
