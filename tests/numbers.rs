use capped::{CapError, CapNum, CapU16, CapU32, CapU64, CapU8, CapUsize};
use core::marker::PhantomData;

#[test]
fn from_u16() {
    assert_eq!(CapU16::<5>::try_from(4).map(CapU16::into_inner), Ok(4));
    assert_eq!(CapU16::<5>::try_from(5), Err(CapError(PhantomData)));
}

#[test]
fn from_u32() {
    assert_eq!(CapU32::<5>::try_from(4).map(CapU32::into_inner), Ok(4));
    assert_eq!(CapU32::<5>::try_from(5), Err(CapError(PhantomData)));
}

#[test]
fn cap_u8_from_u8() {
    assert_eq!(CapU8::<5>::try_from(4), Ok(CapU8::<5>::new_wrap(4)));
    assert_eq!(CapU8::<5>::try_from(5), Err(CapError(PhantomData)));
}

// The cap is exclusive for every width: `N` itself is out of range.
#[test]
fn u8_from_u8() {
    assert_eq!(CapU8::<5>::try_from(5), Err(CapError(PhantomData)));
    assert_eq!(CapU8::<5>::try_from(6), Err(CapError(PhantomData)));
    assert_eq!(CapU8::<6>::try_from(5).map(CapU8::into_inner), Ok(5));
}

#[test]
fn from_u64() {
    assert_eq!(CapU64::<5>::try_from(5), Err(CapError(PhantomData)));
    assert_eq!(CapU64::<5>::try_from(6), Err(CapError(PhantomData)));
    assert_eq!(CapU64::<6>::try_from(5).map(CapU64::into_inner), Ok(5));
}

#[test]
fn from_usize() {
    assert_eq!(CapUsize::<5>::try_from(4).map(CapUsize::into_inner), Ok(4));
    assert_eq!(CapUsize::<5>::try_from(5), Err(CapError(PhantomData)));
}

#[test]
fn wrapping_u8() -> Result<(), CapError<CapU8<10>>> {
    assert_eq!(
        CapU8::<10>::try_from(4)?.wrapping_add(15),
        CapU8::<10>::new_wrap(9)
    );
    assert_eq!(
        CapU8::<10>::try_from(9)?.wrapping_add(249),
        CapU8::<10>::new_wrap(8)
    );
    assert_eq!(
        CapU8::<240>::new_wrap(239).wrapping_add(255),
        CapU8::<240>::new_wrap(14)
    );
    Ok(())
}

#[test]
fn wrapping_add_near_primitive_max() {
    assert_eq!(CapU8::<255>::new_wrap(254).wrapping_add(254).into_inner(), 253);
    assert_eq!(
        CapU64::<{ u64::MAX }>::new_wrap(u64::MAX - 1)
            .wrapping_add(u64::MAX - 1)
            .into_inner(),
        u64::MAX - 2
    );
    assert_eq!(CapU16::<1>::new_wrap(0).wrapping_add(40000).into_inner(), 0);
}

#[test]
fn wrapping_add_every_width() {
    assert_eq!(CapU16::<10>::new_wrap(9).wrapping_add(249).into_inner(), 8);
    assert_eq!(CapU32::<10>::try_from(4).unwrap().wrapping_add(15).into_inner(), 9);
    assert_eq!(CapU64::<240>::new_wrap(239).wrapping_add(255).into_inner(), 14);
    assert_eq!(CapUsize::<240>::new_wrap(239).wrapping_add(255).into_inner(), 14);
}

#[test]
fn new_wrap_reduces() {
    let c = CapU8::<10>::new_wrap(29);
    assert_eq!(c.into_inner(), 9);
    assert_eq!(*c, 9);
    assert_eq!(CapU32::<10>::new_wrap(29).into_inner(), 9);
    assert_eq!(CapUsize::<7>::new_wrap(7).into_inner(), 0);
}

#[test]
fn range_and_message() {
    assert_eq!(<CapU8<10> as CapNum>::range(), 0..10);
    assert_eq!(<CapUsize<10> as CapNum>::range(), 0..10);
    assert!(CapU8::<240>::try_from(250)
        .unwrap_err()
        .to_string()
        .contains("not in range 0..240"));
    assert!(CapU8::<5>::try_from(5)
        .unwrap_err()
        .to_string()
        .contains("0..5"));
    assert_eq!(
        CapU64::<1000>::try_from(1000).unwrap_err().to_string(),
        "value is not in range 0..1000"
    );
}

#[test]
fn take_increment_cycles() {
    let mut c = CapU8::<3>::new_wrap(1);
    assert_eq!(c.take_increment(), CapU8::<3>::new_wrap(1));
    assert_eq!(c, CapU8::<3>::new_wrap(2));
    assert_eq!(c.take_increment(), CapU8::<3>::new_wrap(2));
    assert_eq!(c.take_increment(), CapU8::<3>::new_wrap(0));
    assert_eq!(c.take_increment().into_inner(), 1);

    let mut d = CapU64::<4>::new_wrap(0);
    let seen: Vec<u64> = (0..9).map(|_| d.take_increment().into_inner()).collect();
    assert_eq!(seen, vec![0, 1, 2, 3, 0, 1, 2, 3, 0]);
}

#[test]
fn compares_with_primitive() {
    assert_eq!(CapU16::<5>::new_wrap(2), CapU16::<5>::new_wrap(2));
    assert_eq!(CapU16::<5>::new_wrap(2), 2);
    assert_eq!(2, CapU16::<5>::new_wrap(2));
    assert!(CapU32::<5>::new_wrap(1) < CapU32::<5>::new_wrap(3));
    assert!(CapUsize::<5>::new_wrap(3) != 4);
}
