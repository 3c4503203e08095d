use capped::{CapString, CapU16, CapU32, CapU64, CapU8, CapUsize, CapVec};

fn numbers(text: &str) -> Vec<u64> {
    serde_json::from_str(text).unwrap()
}

#[test]
fn cap_u8_serde_u8() {
    let obj: Vec<CapU8<10>> = numbers("[6]")
        .into_iter()
        .map(|v| CapU8::<10>::from_wire(v).unwrap())
        .collect();
    assert_eq!(obj, vec![CapU8::new_wrap(6)]);
    assert!(numbers("[10]").into_iter().any(|v| CapU8::<10>::from_wire(v).is_err()));
}

#[test]
fn u8_serde_u8() {
    assert_eq!(CapU8::<10>::from_wire(6).map(CapU8::into_inner), Ok(6));
    assert!(CapU8::<10>::from_wire(24).is_err());
    assert!(CapU8::<10>::from_wire(300).is_err());
}

#[test]
fn serde_u16() {
    let obj: Vec<CapU16<10>> = numbers("[0, 1, 2, 3, 4, 5, 6, 7, 8, 9]")
        .into_iter()
        .map(|v| CapU16::<10>::from_wire(v).unwrap())
        .collect();
    assert_eq!(obj, (0..10).map(CapU16::new_wrap).collect::<Vec<_>>());
    let err = CapU16::<2000>::from_wire(5000).unwrap_err();
    assert_eq!(err.to_string(), "number 5000 is greater than 2000");
}

#[test]
fn serde_u32() {
    let obj: Vec<CapU32<10>> = numbers("[0, 1, 2, 3, 4, 5, 6, 7, 8, 9]")
        .into_iter()
        .map(|v| CapU32::<10>::from_wire(v).unwrap())
        .collect();
    assert_eq!(obj, (0..10).map(CapU32::new_wrap).collect::<Vec<_>>());
    assert!(CapU32::<2000>::from_wire(2000).is_err());
    assert!(CapU32::<2000>::from_wire(u64::from(u32::MAX) + 1).is_err());
}

#[test]
fn serde_u64() {
    let obj: Vec<CapU64<10>> = numbers("[0, 1, 2, 3, 4, 5, 6, 7, 8, 9]")
        .into_iter()
        .map(|v| CapU64::<10>::from_wire(v).unwrap())
        .collect();
    assert_eq!(obj, (0..10).map(CapU64::new_wrap).collect::<Vec<_>>());
    assert!(CapU64::<2000>::from_wire(5000).is_err());
}

#[test]
fn serde_usize() {
    let obj: Vec<CapUsize<10>> = numbers("[6, 9]")
        .into_iter()
        .map(|v| CapUsize::<10>::from_wire(v).unwrap())
        .collect();
    assert_eq!(obj, vec![CapUsize::new_wrap(6), CapUsize::new_wrap(9)]);
    assert!(CapUsize::<10>::from_wire(10).is_err());
}

#[test]
fn wire_round_trip_numbers() {
    let x = CapU8::<5>::new_wrap(3);
    let text = serde_json::to_string(&x.into_inner()).unwrap();
    assert_eq!(text, "3");
    let back: u64 = serde_json::from_str(&text).unwrap();
    assert_eq!(CapU8::<5>::from_wire(back), Ok(x));
    assert_eq!(CapU8::<6>::from_wire(back).map(CapU8::into_inner), Ok(3));
    let y = CapUsize::<1000>::new_wrap(999);
    assert_eq!(CapUsize::<1000>::from_wire(y.into_inner() as u64), Ok(y));
}

#[test]
fn serde_string() {
    let text: String = serde_json::from_str("\"abc\"").unwrap();
    let obj = CapString::<3>::try_from(text).unwrap();
    assert_eq!(obj.as_str(), "abc");
    let text: String = serde_json::from_str("\"abcd\"").unwrap();
    assert!(CapString::<3>::try_from(text).is_err());
}

fn read_seq<const N: usize>(items: Vec<u32>) -> Result<CapVec<N, u32>, usize> {
    let mut out = CapVec::<N, u32>::with_capacity(CapVec::<N, u32>::initial_capacity(Some(
        items.len(),
    )));
    for item in items {
        if out.push(item).is_some() {
            return Err(out.len());
        }
    }
    Ok(out)
}

#[test]
fn serde_vec() {
    let obj = read_seq::<3>(serde_json::from_str("[6, 3, 4]").unwrap()).unwrap();
    assert_eq!(obj.as_ref(), &[6, 3, 4]);
    let res = read_seq::<3>(serde_json::from_str("[24, 25, 26, 27]").unwrap());
    assert_eq!(res.unwrap_err(), 3);
    let v = CapVec::<3, i32>::try_from(vec![1, 2]).unwrap();
    let text = serde_json::to_string(&v.into_inner()).unwrap();
    let back: Vec<i32> = serde_json::from_str(&text).unwrap();
    assert_eq!(CapVec::<3, i32>::try_from(back).unwrap().as_ref(), &[1, 2]);
}

#[test]
fn initial_capacity_is_clamped() {
    assert_eq!(CapVec::<3, u8>::initial_capacity(Some(10)), 3);
    assert_eq!(CapVec::<3, u8>::initial_capacity(Some(2)), 2);
    assert_eq!(CapVec::<3, u8>::initial_capacity(None), 3);
    assert_eq!(CapVec::<5000, u8>::initial_capacity(None), 1024);
    assert_eq!(CapVec::<5000, u8>::initial_capacity(Some(2000)), 1024);
}
