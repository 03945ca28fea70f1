use logical::logicbit::ieee1164;
use logical::{Ieee1164, Ieee1164Value, Resolve};

fn all() -> [Ieee1164; 9] {
    // in the order U X 0 1 Z W L H -
    [
        Ieee1164::_U(),
        Ieee1164::_X(),
        Ieee1164::_0(),
        Ieee1164::_1(),
        Ieee1164::_Z(),
        Ieee1164::_W(),
        Ieee1164::_L(),
        Ieee1164::_H(),
        Ieee1164::_D(),
    ]
}

fn table(text: [&str; 9]) -> Vec<Vec<Ieee1164>> {
    text.iter()
        .map(|row| row.chars().filter(|c| *c != ' ').map(|c| Ieee1164::try_from_char(c).unwrap()).collect())
        .collect()
}

#[test]
fn and() {
    assert_eq!(Ieee1164::_0(), Ieee1164::_X() & Ieee1164::_0());
}

#[test]
fn or() {
    assert_eq!(Ieee1164::_1(), Ieee1164::_L() | Ieee1164::_H())
}

#[test]
fn xor() {
    let a = Ieee1164::_1();
    let b = Ieee1164::_1();
    assert_eq!(Ieee1164::_0(), a ^ b);
}

#[test]
fn not() {
    let a = Ieee1164::_1();
    assert_eq!(Ieee1164::_0(), !a);
}

#[test]
fn is_01() {
    assert!(!Ieee1164::_U().is_01());
    assert!(Ieee1164::_0().is_01());
    assert!(Ieee1164::_1().is_01());
    assert!(!Ieee1164::_Z().is_01());
    assert!(!Ieee1164::_W().is_01());
    assert!(!Ieee1164::_L().is_01());
    assert!(!Ieee1164::_H().is_01());
    assert!(!Ieee1164::_D().is_01());
    assert!(!Ieee1164::_X().is_01());
}

#[test]
fn is_uxz() {
    assert!(Ieee1164::_U().is_UXZ());
    assert!(!Ieee1164::_0().is_UXZ());
    assert!(!Ieee1164::_1().is_UXZ());
    assert!(Ieee1164::_Z().is_UXZ());
    assert!(Ieee1164::_W().is_UXZ());
    assert!(!Ieee1164::_L().is_UXZ());
    assert!(!Ieee1164::_H().is_UXZ());
    assert!(Ieee1164::_D().is_UXZ());
    assert!(Ieee1164::_X().is_UXZ());
}

#[test]
fn check_associated_consts() {
    assert_eq!(Ieee1164::_U(), Ieee1164::Uninitialized);
    assert_eq!(Ieee1164::_X(), Ieee1164::Strong(Ieee1164Value::Unknown));
    assert_eq!(Ieee1164::_1(), Ieee1164::Strong(Ieee1164Value::One));
    assert_eq!(Ieee1164::_0(), Ieee1164::Strong(Ieee1164Value::Zero));
    assert_eq!(Ieee1164::_W(), Ieee1164::Weak(Ieee1164Value::Unknown));
    assert_eq!(Ieee1164::_H(), Ieee1164::Weak(Ieee1164Value::One));
    assert_eq!(Ieee1164::_L(), Ieee1164::Weak(Ieee1164Value::Zero));
    assert_eq!(Ieee1164::_Z(), Ieee1164::HighImpedance);
    assert_eq!(Ieee1164::_D(), Ieee1164::DontCare);
}

#[test]
fn and_truth_table() {
    let expected = table([
        "U U 0 U U U 0 U U",
        "U X 0 X X X 0 X X",
        "0 0 0 0 0 0 0 0 0",
        "U X 0 1 X X 0 1 X",
        "U X 0 X X X 0 X X",
        "U X 0 X X X 0 X X",
        "0 0 0 0 0 0 0 0 0",
        "U X 0 1 X X 0 1 X",
        "U X 0 X X X 0 X X",
    ]);
    for (i, a) in all().iter().enumerate() {
        for (j, b) in all().iter().enumerate() {
            assert_eq!(ieee1164::and(a, b), expected[i][j], "{:?} & {:?}", a, b);
            assert_eq!(*a & *b, expected[i][j]);
        }
    }
    assert_eq!(Ieee1164::_X() & Ieee1164::_0(), Ieee1164::_0());
}

#[test]
fn or_truth_table() {
    let expected = table([
        "U U U 1 U U U 1 U",
        "U X X 1 X X X 1 X",
        "U X 0 1 X X 0 1 X",
        "1 1 1 1 1 1 1 1 1",
        "U X X 1 X X X 1 X",
        "U X X 1 X X X 1 X",
        "U X 0 1 X X 0 1 X",
        "1 1 1 1 1 1 1 1 1",
        "U X X 1 X X X 1 X",
    ]);
    for (i, a) in all().iter().enumerate() {
        for (j, b) in all().iter().enumerate() {
            assert_eq!(ieee1164::or(a, b), expected[i][j], "{:?} | {:?}", a, b);
            assert_eq!(*a | *b, expected[i][j]);
        }
    }
    assert_eq!(Ieee1164::_L() | Ieee1164::_H(), Ieee1164::_1());
}

#[test]
fn xor_truth_table() {
    let expected = table([
        "U U U U U U U U U",
        "U X X X X X X X X",
        "U X 0 1 X X 0 1 X",
        "U X 1 0 X X 1 0 X",
        "U X X X X X X X X",
        "U X X X X X X X X",
        "U X 0 1 X X 0 1 X",
        "U X 1 0 X X 1 0 X",
        "U X X X X X X X X",
    ]);
    for (i, a) in all().iter().enumerate() {
        for (j, b) in all().iter().enumerate() {
            assert_eq!(ieee1164::xor(a, b), expected[i][j], "{:?} ^ {:?}", a, b);
            assert_eq!(*a ^ *b, expected[i][j]);
        }
    }
}

#[test]
fn resolve_truth_table() {
    let expected = table([
        "U U U U U U U U U",
        "U X X X X X X X X",
        "U X 0 X 0 0 0 0 X",
        "U X X 1 1 1 1 1 X",
        "U X 0 1 Z W L H -",
        "U X 0 1 W W W W X",
        "U X 0 1 L W L W X",
        "U X 0 1 H W W H X",
        "U X X X - X X X X",
    ]);
    for (i, a) in all().iter().enumerate() {
        for (j, b) in all().iter().enumerate() {
            assert_eq!(ieee1164::resolve(a, b), expected[i][j], "{:?} resolves {:?}", a, b);
            assert_eq!(Resolve::resolve(a, b), expected[i][j]);
        }
    }
}

#[test]
fn resolve_is_commutative() {
    for a in all().iter() {
        for b in all().iter() {
            assert_eq!(ieee1164::resolve(a, b), ieee1164::resolve(b, a));
        }
    }
}

#[test]
fn resolve_with_high_impedance_keeps_the_other_driver() {
    for a in all().iter() {
        assert_eq!(ieee1164::resolve(a, &Ieee1164::_Z()), *a);
        assert_eq!(ieee1164::resolve(&Ieee1164::_Z(), a), *a);
    }
    assert_eq!(ieee1164::resolve(&Ieee1164::_D(), &Ieee1164::_Z()), Ieee1164::_D());
    assert_eq!(ieee1164::resolve(&Ieee1164::_U(), &Ieee1164::_Z()), Ieee1164::_U());
}

#[test]
fn not_of_every_value() {
    let expected: Vec<Ieee1164> = "UX10XX10X".chars().map(|c| Ieee1164::try_from_char(c).unwrap()).collect();
    for (a, e) in all().iter().zip(expected.iter()) {
        assert_eq!(ieee1164::not(*a), *e);
        assert_eq!(!*a, *e);
    }
}

#[test]
fn characters_round_trip() {
    let text = "UX01ZWLH-";
    for (a, c) in all().iter().zip(text.chars()) {
        assert_eq!(a.to_char(), c);
        assert_eq!(Ieee1164::try_from_char(c), Ok(*a));
        assert_eq!(Ieee1164::try_from_char(c.to_ascii_lowercase()), Ok(*a));
    }
    assert_eq!(Ieee1164::try_from_char('*'), Ok(Ieee1164::_D()));
    assert_eq!(Ieee1164::try_from_char('d'), Ok(Ieee1164::_D()));
    assert_eq!(Ieee1164::try_from_char('q'), Err(()));
    assert_eq!(Ieee1164::try_from_char('2'), Err(()));
}

#[test]
fn index_and_predicates() {
    for (i, a) in all().iter().enumerate() {
        assert_eq!(a.to_index(), i);
    }
    assert_eq!(Ieee1164::default(), Ieee1164::_U());
    assert!(Ieee1164::_U().is_U() && Ieee1164::_X().is_X() && Ieee1164::_0().is_0());
    assert!(Ieee1164::_1().is_1() && Ieee1164::_Z().is_Z() && Ieee1164::_W().is_W());
    assert!(Ieee1164::_L().is_L() && Ieee1164::_H().is_H() && Ieee1164::_D().is_D());
    assert!(Ieee1164::_H().is_1H() && Ieee1164::_1().is_1H() && !Ieee1164::_L().is_1H());
    assert!(Ieee1164::_L().is_0L() && Ieee1164::_0().is_0L() && !Ieee1164::_H().is_0L());
    assert!(!Ieee1164::_X().is_U());
}
