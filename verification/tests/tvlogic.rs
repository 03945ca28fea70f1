use logical::logicbit::tvlogic::{and, not, or, resolve, xor};
use logical::{Ieee1164Value, Resolve};

const _0: Ieee1164Value = Ieee1164Value::Zero;
const _1: Ieee1164Value = Ieee1164Value::One;
const _U: Ieee1164Value = Ieee1164Value::Unknown;

const BIN_VAL: [[Ieee1164Value; 2]; 9] = [
    [_0, _0],
    [_0, _1],
    [_0, _U],
    [_1, _0],
    [_1, _1],
    [_1, _U],
    [_U, _0],
    [_U, _1],
    [_U, _U],
];

fn check(
    test_vector: &[Ieee1164Value; 9],
    operator: &str,
    func: fn(&Ieee1164Value, &Ieee1164Value) -> Ieee1164Value,
) {
    for ([a, b], e) in BIN_VAL.iter().zip(test_vector) {
        assert_eq!(func(a, b), *e, "{} {} {} is not {}", a.to_char(), operator, b.to_char(), e.to_char());
    }
}

#[test]
fn t_and() {
    const EXPECTED: [Ieee1164Value; 9] = [_0, _0, _0, _0, _1, _U, _0, _U, _U];
    check(&EXPECTED, "&", and);
}

#[test]
fn t_or() {
    const EXPECTED: [Ieee1164Value; 9] = [_0, _1, _U, _1, _1, _1, _U, _1, _U];
    check(&EXPECTED, "|", or);
}

#[test]
fn t_xor() {
    const EXPECTED: [Ieee1164Value; 9] = [_0, _1, _U, _1, _0, _U, _U, _U, _U];
    check(&EXPECTED, "^", xor);
}

#[test]
fn t_not() {
    assert_eq!(_1, not(_0));
    assert_eq!(_0, not(_1));
    assert_eq!(_U, not(_U));
}

#[test]
fn t_resolve() {
    const EXPECTED: [Ieee1164Value; 9] = [_0, _U, _U, _U, _1, _U, _U, _U, _U];
    check(&EXPECTED, "resolves", resolve);
}

#[test]
fn tv_operators_agree_with_functions() {
    for [a, b] in BIN_VAL.iter() {
        assert_eq!(*a & *b, and(a, b));
        assert_eq!(*a | *b, or(a, b));
        assert_eq!(*a ^ *b, xor(a, b));
        assert_eq!(!*a, not(*a));
        assert_eq!(Resolve::resolve(a, b), resolve(a, b));
        assert_eq!(resolve(a, b), resolve(b, a));
    }
}

#[test]
fn tv_default_and_characters() {
    assert_eq!(Ieee1164Value::default(), _U);
    assert_eq!(_0.to_char(), '0');
    assert_eq!(_1.to_char(), '1');
    assert_eq!(_U.to_char(), 'U');
    assert_eq!(Resolve::width(&_0), 1);
}
