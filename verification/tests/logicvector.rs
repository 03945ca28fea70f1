use logical::logicbit::logicvector::masks::{Masks, SanityChecked};
use logical::logicbit::logicvector;
use std::cmp::Ordering;
use logical::logicbit::logicvector::LogicVectorConversionError;
use logical::{Ieee1164, LogicVector};

fn lv(text: &str) -> LogicVector {
    LogicVector::from_str(text).unwrap()
}

#[test]
fn logicvector_ctor_width() {
    for width in 1..=128 {
        let v = LogicVector::with_width(width);
        assert_eq!(width, v.width());
        assert!(v.has_U(), "{:?}", v);
        assert!(!v.has_X(), "{:?}", v);
        assert!(!v.has_0(), "{:?}", v);
        assert!(!v.has_1(), "{:?}", v);
        assert!(!v.has_Z(), "{:?}", v);
        assert!(!v.has_W(), "{:?}", v);
        assert!(!v.has_D(), "{:?}", v);
        assert!(!v.has_L(), "{:?}", v);
        assert!(!v.has_H(), "{:?}", v);
    }
}

#[test]
fn logicvector_ctor_value() {
    let v = LogicVector::from_int_value(5, 3);
    let v = v.unwrap();
    assert_eq!(v.width(), 3);
    assert_eq!(v, 5);
    let v = LogicVector::from_int_value(0, 128);
    let v = v.unwrap();
    assert_eq!(v.width(), 128);
    assert_eq!(v, 0);
}

#[test]
fn test_resize() {
    let mut v = LogicVector::with_width(5);
    assert_eq!(v.width(), 5);
    v.set_width(10);
    assert_eq!(v.width(), 10);
    v.set_width(10);
    assert_eq!(v.width(), 10);
    v.set_width(3);
    assert_eq!(v.width(), 3);
}

#[test]
fn test_resize_value() {
    let mut v = LogicVector::from_int_value(5, 8).unwrap();
    assert_eq!(v.width(), 8);
    assert_eq!(v, 5);
    v.set_width(10);
    assert_eq!(v.width(), 10);
    v.set_width(10);
    assert_eq!(v.width(), 10);
    v.set_width(3);
    assert_eq!(v.width(), 3);
}

#[test]
fn mod_ctor_width() {
    for width in 1..=128 {
        let v = LogicVector::with_width(width);
        assert_eq!(width, v.width());
        assert!(v.has_U(), "{:?}", v);
        assert!(!v.has_X(), "{:?}", v);
        assert!(!v.has_0(), "{:?}", v);
        assert!(!v.has_1(), "{:?}", v);
        assert!(!v.has_Z(), "{:?}", v);
        assert!(!v.has_W(), "{:?}", v);
        assert!(!v.has_D(), "{:?}", v);
        assert!(!v.has_L(), "{:?}", v);
        assert!(!v.has_H(), "{:?}", v);
    }
}

#[test]
fn mod_ctor_value() {
    let v = LogicVector::from_int_value(5, 3);
    assert!(v.is_some());
    let v = v.unwrap();
    assert_eq!(v.width(), 3);
    assert_eq!(v, 5);
    let v = LogicVector::from_int_value(0, 128);
    assert!(v.is_some());
    let v = v.unwrap();
    assert_eq!(v.width(), 128);
    assert_eq!(v, 0);
    let v = LogicVector::from_int_value(5, 8);
    assert!(v.is_some());
    let v = v.unwrap();
    assert_eq!(v.width(), 8);
    assert_eq!(v, 5);
}

#[test]
fn resize_smaller() {
    let mut v = LogicVector::with_width(5);
    assert_eq!(v.width(), 5);
    v.set_width(4);
    assert_eq!(v.width(), 4);
    v.set_width(3);
    assert_eq!(v.width(), 3);
    v.set_width(2);
    assert_eq!(v.width(), 2);
    v.set_width(1);
    assert_eq!(v.width(), 1);

    let mut v = LogicVector::from_int_value(31, 5).unwrap();
    assert_eq!(v.width(), 5);
    assert_eq!(v.as_u128(), Some(0b11111));
    v.set_width(4);
    assert_eq!(v.width(), 4);
    assert_eq!(v.as_u128(), Some(0b1111));
    v.set_width(3);
    assert_eq!(v.width(), 3);
    assert_eq!(v.as_u128(), Some(0b111));
    v.set_width(2);
    assert_eq!(v.width(), 2);
    assert_eq!(v.as_u128(), Some(0b11));
    v.set_width(1);
    assert_eq!(v.width(), 1);
    assert_eq!(v.as_u128(), Some(0b1));
}

#[test]
fn resize_bigger() {
    let mut v = LogicVector::with_width(1);
    assert_eq!(v.width(), 1);
    v.set_width(2);
    assert_eq!(v.width(), 2);
    v.set_width(3);
    assert_eq!(v.width(), 3);
    v.set_width(4);
    assert_eq!(v.width(), 4);
    v.set_width(5);
    assert_eq!(v.width(), 5);

    let mut v = LogicVector::from_int_value(0, 1).unwrap();
    assert_eq!(v.width(), 1);
    assert_eq!(v, 0);
    v.resize(2, Ieee1164::_1());
    assert_eq!(v.width(), 2);
    assert_eq!(v, 0b10);
    v.resize(3, Ieee1164::_0());
    assert_eq!(v.width(), 3);
    assert_eq!(v, 0b010);
    v.resize(4, Ieee1164::_1());
    assert_eq!(v.width(), 4);
    assert_eq!(v, 0b1010);
    v.resize(5, Ieee1164::_0());
    assert_eq!(v.width(), 5);
    assert_eq!(v, 0b01010);
    v.resize(10, Ieee1164::_1());
    assert_eq!(v.width(), 10);
    assert_eq!(v, 0b1111101010);
}

#[test]
fn add() {
    let a = LogicVector::from_int_value(200, 8).unwrap();
    let b = LogicVector::from_int_value(100, 8).unwrap();
    assert_eq!(logicvector::add(&a, &b).as_u128(), Some(44));
    assert_eq!((a + b).as_u128(), Some(44));
    assert_eq!(a.wrapping_add(&b), LogicVector::from_int_value(44, 8).unwrap());
    assert_eq!(a.safe_add(&b).unwrap().as_u128(), Some(44));
    let c = LogicVector::from_int_value(3, 8).unwrap();
    assert_eq!(c.safe_add(&c).unwrap().as_u128(), Some(6));
    let wide = LogicVector::from_int_value(1, 9).unwrap();
    assert_eq!(a.safe_add(&wide), None);
    let max = LogicVector::from_int_value(u128::MAX, 128).unwrap();
    let one = LogicVector::from_int_value(1, 128).unwrap();
    assert_eq!(max.wrapping_add(&one).as_u128(), Some(0));
    assert_eq!(max.wrapping_add(&max).as_u128(), Some(u128::MAX - 1));
    let unknown = lv("0000X000");
    assert_eq!(a.wrapping_add(&unknown), LogicVector::with_width(8));
    assert_eq!(unknown.safe_add(&a), Some(LogicVector::with_width(8)));
    let weak = lv("LLLLLLHH");
    assert_eq!(weak.wrapping_add(&c).as_u128(), Some(6));
}

#[test]
fn to_string() {
    assert_eq!(lv("UX01ZWLH-").to_string(), "UX01ZWLH-");
    assert_eq!(lv("ux01zwlh*d").to_string(), "UX01ZWLH--");
    assert_eq!(LogicVector::from_int_value(0b1010, 6).unwrap().to_string(), "001010");
    assert_eq!(LogicVector::with_width(3).to_string(), "UUU");
    assert_eq!("10Z".parse::<LogicVector>().unwrap().to_string(), "10Z");
}

#[test]
fn from_str_reports_width_and_characters() {
    assert_eq!(LogicVector::from_str(""), Err(LogicVectorConversionError::InvalidWidth));
    let long = "1".repeat(129);
    assert_eq!(LogicVector::from_str(&long), Err(LogicVectorConversionError::InvalidWidth));
    let full = "1".repeat(128);
    assert_eq!(LogicVector::from_str(&full).unwrap().as_u128(), Some(u128::MAX));
    assert_eq!(LogicVector::from_str("10q1?"), Err(LogicVectorConversionError::InvalidChar('q')));
    let long_bad = "q".repeat(200);
    assert_eq!(LogicVector::from_str(&long_bad), Err(LogicVectorConversionError::InvalidWidth));
    let v = lv("1Z0");
    assert_eq!(v.width(), 3);
    assert_eq!(v.get(2), Some(Ieee1164::_1()));
    assert_eq!(v.get(1), Some(Ieee1164::_Z()));
    assert_eq!(v.get(0), Some(Ieee1164::_0()));
    assert_eq!(v.get(3), None);
}

#[test]
fn from_vec_keeps_the_order() {
    let v = LogicVector::from_vec(vec![Ieee1164::_1(), Ieee1164::_0(), Ieee1164::_H()]).unwrap();
    assert_eq!(v.to_string(), "10H");
    assert_eq!(v.to_vec(), vec![Ieee1164::_1(), Ieee1164::_0(), Ieee1164::_H()]);
    assert_eq!(v.as_u128(), Some(0b101));
    assert_eq!(LogicVector::from_vec(vec![]), Err(LogicVectorConversionError::InvalidWidth));
    assert_eq!(LogicVector::from_vec(vec![Ieee1164::_0(); 129]), Err(LogicVectorConversionError::InvalidWidth));
    assert_eq!(LogicVector::from_vec(vec![Ieee1164::_1(); 128]).unwrap().as_u128(), Some(u128::MAX));
}

#[test]
fn from_int_value_needs_enough_bits() {
    assert!(LogicVector::from_int_value(42, 8).is_some());
    assert_eq!(LogicVector::from_int_value(42, 8).unwrap().as_u128(), Some(42));
    assert!(LogicVector::from_int_value(42, 6).is_some());
    assert!(LogicVector::from_int_value(42, 5).is_none());
    assert!(LogicVector::from_int_value(0, 0).is_none());
    assert!(LogicVector::from_int_value(0, 129).is_none());
    assert!(LogicVector::from_int_value(1, 1).is_some());
    assert!(LogicVector::from_int_value(2, 1).is_none());
    assert!(LogicVector::from_int_value(u128::MAX, 128).is_some());
    assert!(LogicVector::from_int_value(u128::MAX, 127).is_none());
}

#[test]
fn integer_round_trip() {
    for width in 1..=128u8 {
        let top = if width == 128 { u128::MAX } else { (1u128 << width) - 1 };
        for value in [0, 1, top / 3, top / 2, top - top / 5, top] {
            let v = LogicVector::from_int_value(value, width).unwrap();
            assert_eq!(v.as_u128(), Some(value));
            assert_eq!(v.sanity_check(), Ok(()));
            assert_eq!(v.width(), width);
        }
    }
}

#[test]
fn as_u128_reads_weak_bits_and_refuses_others() {
    assert_eq!(lv("HL1").as_u128(), Some(0b101));
    assert_eq!(lv("LLLL").as_u128(), Some(0));
    assert_eq!(lv("1X1").as_u128(), None);
    assert_eq!(lv("Z").as_u128(), None);
    let mut v = LogicVector::from_int_value(55, 8).unwrap();
    assert_eq!(Some(55), v.as_u128());
    v.set(7, Ieee1164::_X());
    assert_eq!(None, v.as_u128());
    assert!(v.has_UXZ());
    assert!(!lv("HL1").has_UXZ());
    assert!(lv("HL1") == 5);
    assert!(!(lv("1X1") == 5));
}

#[test]
fn resize_returns_what_it_crops() {
    let mut v = LogicVector::from_int_value(42, 8).unwrap();
    let copy = v;
    assert!(v.resize(8, Ieee1164::_U()).is_none());
    assert_eq!(v, copy);

    let mut v = LogicVector::from_int_value(58, 7).unwrap();
    let cropped = v.resize(4, Ieee1164::_U()).unwrap();
    assert_eq!(4, v.width());
    assert_eq!(3, cropped.width());
    assert_eq!(Some(0b011), cropped.as_u128());
    assert_eq!(Some(0b1010), v.as_u128());

    let mut v = LogicVector::from_int_value(42, 6).unwrap();
    assert!(v.resize(8, Ieee1164::_1()).is_none());
    assert_eq!(Some(0b11101010), v.as_u128());

    let mut v = lv("ZX10");
    let high = v.resize(1, Ieee1164::_0()).unwrap();
    assert_eq!(high.to_string(), "ZX1");
    assert_eq!(v.to_string(), "0");
    let mut full = LogicVector::from_ieee_value(Ieee1164::_W(), 128);
    let high = full.resize(127, Ieee1164::_0()).unwrap();
    assert_eq!(high.to_string(), "W");
    assert_eq!(full.width(), 127);
    assert!(full.is_WWW());
}

#[test]
fn grow_then_shrink_gives_the_vector_back() {
    for text in ["1", "10Z", "UX01ZWLH-", "HHHHLLLL"] {
        for by in [1u8, 2, 7, 100] {
            for fill in [Ieee1164::_0(), Ieee1164::_Z(), Ieee1164::_D()] {
                let start = lv(text);
                let mut v = start;
                assert!(v.resize(start.width() + by, fill).is_none());
                assert_eq!(v.sanity_check(), Ok(()));
                let high = v.resize(start.width(), Ieee1164::_U()).unwrap();
                assert_eq!(v, start);
                assert_eq!(high, LogicVector::from_ieee_value(fill, by));
                assert_eq!(v.sanity_check(), Ok(()));
                assert_eq!(high.sanity_check(), Ok(()));
            }
        }
    }
    let mut v = LogicVector::from_int_value(5, 64).unwrap();
    v.resize(128, Ieee1164::_0());
    assert_eq!(v, 5);
    v.resize(64, Ieee1164::_0());
    v.resize(128, Ieee1164::_1());
    assert_eq!(v, ((u64::MAX as u128) << 64) | 5);
}

#[test]
fn set_and_get_by_position() {
    let mut v = LogicVector::with_width(8);
    assert!(v.is_UUU());
    assert!(!v.is_ZZZ());
    v.set_all_to(Ieee1164::_Z());
    assert!(!v.is_UUU());
    assert!(v.is_ZZZ());
    v.set(0, Ieee1164::_1());
    v.set(7, Ieee1164::_0());
    v.set(8, Ieee1164::_X());
    assert_eq!(v.to_string(), "0ZZZZZZ1");
    assert_eq!(v.get(0), Some(Ieee1164::_1()));
    assert_eq!(v.get(7), Some(Ieee1164::_0()));
    assert_eq!(v.get(8), None);
    assert!(v.has_ieee1164(Ieee1164::_Z()) && v.contains(Ieee1164::_0()) && !v.has_X());
    assert!(!v.is_ieee1164(Ieee1164::_Z()));
    assert_eq!(v.set_int_value(255), Ok(()));
    assert!(v.is_111());
    assert_eq!(v.set_int_value(256), Err(()));
    assert!(v.is_111());
    assert_eq!(v.set_int_value(0), Ok(()));
    assert!(v.is_000());
    assert!(lv("XX").is_XXX() && lv("WW").is_WWW() && lv("HH").is_HHH() && lv("LL").is_LLL() && lv("--").is_DDD());
}

#[test]
fn bitwise_operators_follow_the_scalar_tables() {
    let a = lv("UUUUUUUUUXXXXXXXXX000000000111111111ZZZZZZZZZWWWWWWWWWLLLLLLLLLHHHHHHHHH---------");
    let b = lv("UX01ZWLH-UX01ZWLH-UX01ZWLH-UX01ZWLH-UX01ZWLH-UX01ZWLH-UX01ZWLH-UX01ZWLH-UX01ZWLH-");
    let (av, bv) = (a.to_vec(), b.to_vec());
    let and: Vec<Ieee1164> = av.iter().zip(bv.iter()).map(|(x, y)| *x & *y).collect();
    let or: Vec<Ieee1164> = av.iter().zip(bv.iter()).map(|(x, y)| *x | *y).collect();
    let xor: Vec<Ieee1164> = av.iter().zip(bv.iter()).map(|(x, y)| *x ^ *y).collect();
    let resolved: Vec<Ieee1164> = av.iter().zip(bv.iter()).map(|(x, y)| logical::Resolve::resolve(x, y)).collect();
    assert_eq!(logicvector::and(&a, &b).unwrap().to_vec(), and);
    assert_eq!(logicvector::or(&a, &b).unwrap().to_vec(), or);
    assert_eq!(logicvector::xor(&a, &b).unwrap().to_vec(), xor);
    assert_eq!(logicvector::resolve(&a, &b).to_vec(), resolved);
    assert_eq!(logicvector::resolve(&b, &a), logicvector::resolve(&a, &b));
    assert_eq!((a & b).to_vec(), and);
    assert_eq!((a | b).to_vec(), or);
    assert_eq!((a ^ b).to_vec(), xor);
    assert_eq!(logicvector::and(&a, &lv("1")), None);
    assert_eq!(logicvector::or(&a, &lv("1")), None);
    assert_eq!(logicvector::xor(&a, &lv("1")), None);
    let x = LogicVector::from_int_value(0b1100, 4).unwrap();
    let y = LogicVector::from_int_value(0b1010, 4).unwrap();
    assert_eq!((x & y).as_u128(), Some(0b1000));
    assert_eq!((x | y).as_u128(), Some(0b1110));
    assert_eq!((x ^ y).as_u128(), Some(0b0110));
}

#[test]
fn a_vector_of_high_impedance_yields_when_resolved() {
    let z = lv("ZZZ");
    let d = lv("-1Z");
    assert_eq!(logicvector::resolve(&z, &d), d);
    assert_eq!(logicvector::resolve(&d, &z), d);
    assert_eq!(logicvector::resolve(&z, &z), z);
    assert_eq!(logicvector::resolve(&lv("Z10"), &lv("-Z1")).to_string(), "-1X");
    assert_eq!(logicvector::resolve(&lv("Z"), &lv("-")), lv("-"));
    assert_eq!(logicvector::resolve(&lv("-ZZ"), &lv("Z-Z")).to_string(), "--Z");
    assert_eq!(logicvector::resolve(&lv("-U"), &lv("-Z")).to_string(), "XU");
    assert_eq!(logical::Resolve::resolve(&lv("HLZ"), &lv("LLW")).to_string(), "WLW");
    assert_eq!(logical::Resolve::width(&d), 3);
}

#[test]
fn vectors_compare_by_their_numbers() {
    let a = LogicVector::from_int_value(3, 4).unwrap();
    let b = LogicVector::from_int_value(5, 4).unwrap();
    assert_eq!(a.partial_cmp(&b), Some(Ordering::Less));
    assert_eq!(b.partial_cmp(&a), Some(Ordering::Greater));
    assert_eq!(a.partial_cmp(&lv("LLHH")), Some(Ordering::Equal));
    assert!(a != lv("LLHH"));
    assert!(a < b);
    assert_eq!(a.partial_cmp(&lv("00X1")), None);
    assert_eq!(a.partial_cmp(&LogicVector::from_int_value(3, 5).unwrap()), None);
}

#[test]
fn masks_sanity_check_finds_the_first_fault() {
    let mut m = Masks::default();
    assert_eq!(m.sanity_check(0), Ok(()));
    assert_eq!(m.sanity_check(1), Err(SanityChecked::NoOne(0)));
    m.set(0, Ieee1164::_1());
    m.set(1, Ieee1164::_Z());
    assert_eq!(m.sanity_check(2), Ok(()));
    assert_eq!(m.sanity_check(3), Err(SanityChecked::NoOne(2)));
    assert_eq!(m.sanity_check(1), Err(SanityChecked::OneAboveWidth(1)));
    assert_eq!(m.get(0), Ieee1164::_1());
    assert_eq!(m.get(1), Ieee1164::_Z());
    assert_eq!(m.mask(Ieee1164::_1()), 1);
    assert_eq!(m.mask(Ieee1164::_Z()), 2);
    m.set_mask(Ieee1164::_X(), 0b11);
    assert_eq!(m.sanity_check(2), Err(SanityChecked::MoreThanOne(0)));
    assert_eq!(m.count_at(0), 2);
    assert_eq!(m.get(0), Ieee1164::_X());
    m.set(0, Ieee1164::_0());
    assert_eq!(m.sanity_check(2), Err(SanityChecked::MoreThanOne(1)));
    m.fill(0, 2, Ieee1164::_H());
    assert_eq!(m.sanity_check(2), Ok(()));
    assert_eq!(m.mask(Ieee1164::_H()), 0b11);
    m.fill(100, 128, Ieee1164::_D());
    assert_eq!(m.shifted_down(100).mask(Ieee1164::_D()), (1 << 28) - 1);
    assert_eq!(m.kept_below(1).mask(Ieee1164::_H()), 1);
    assert_eq!(m.kept_below(1).mask(Ieee1164::_D()), 0);
    assert_eq!(m.sanity_check(2), Err(SanityChecked::OneAboveWidth(100)));
}

#[test]
fn masks_are_walked_in_a_fixed_order() {
    let v = lv("UX10WHLZ-");
    let masks = v.masks();
    let mut walk = masks.iter();
    let mut seen = Vec::new();
    while let Some((value, word)) = walk.next() {
        seen.push((value.to_char(), *word));
    }
    assert_eq!(
        seen,
        vec![('U', 256), ('X', 128), ('1', 64), ('0', 32), ('W', 16), ('H', 8), ('L', 4), ('Z', 2), ('-', 1)]
    );
    assert!(walk.next().is_none());
}

#[test]
fn masks_can_be_changed_on_a_walk() {
    let mut masks = Masks::default();
    {
        let mut walk = masks.iter_mut();
        let mut k = 0u128;
        while let Some((value, word)) = walk.next() {
            if value == Ieee1164::_Z() || value == Ieee1164::_1() {
                *word = 1 << k;
            }
            k += 1;
        }
        assert_eq!(k, 9);
        assert!(walk.next().is_none());
    }
    assert_eq!(masks.mask(Ieee1164::_1()), 1 << 2);
    assert_eq!(masks.mask(Ieee1164::_Z()), 1 << 7);
    assert_eq!(masks.mask(Ieee1164::_U()), 0);
    assert_eq!(masks.get(2), Ieee1164::_1());
    assert_eq!(masks.get(7), Ieee1164::_Z());
}
