use dtu::unknownbool::UB_FALSE;
use dtu::unknownbool::UB_TRUE;
use dtu::unknownbool::UB_UNKNOWN;
use dtu::UnknownBool;

#[test]
fn test_ub_from_i32() {
    assert_eq!(UnknownBool::from(UB_TRUE), UnknownBool::True);
    assert_eq!(UnknownBool::from(UB_FALSE), UnknownBool::False);
    assert_eq!(UnknownBool::from(UB_UNKNOWN), UnknownBool::Unknown);
    assert_eq!(UnknownBool::from(1000i32), UnknownBool::Unknown);
    assert_eq!(UnknownBool::from(-1000i32), UnknownBool::Unknown);
}

#[test]
fn test_ub_from_op_bool() {
    assert_eq!(UnknownBool::from(Some(true)), UnknownBool::True);
    assert_eq!(UnknownBool::from(Some(false)), UnknownBool::False);
    assert_eq!(UnknownBool::from(None), UnknownBool::Unknown);
}

#[test]
fn test_ub_from_bool() {
    assert_eq!(UnknownBool::from(true), UnknownBool::True);
    assert_eq!(UnknownBool::from(false), UnknownBool::False);
}

#[test]
fn test_ub_into_op_bool() {
    assert_eq!(Into::<Option<bool>>::into(UnknownBool::Unknown), None);
    assert_eq!(Into::<Option<bool>>::into(UnknownBool::True), Some(true));
    assert_eq!(Into::<Option<bool>>::into(UnknownBool::False), Some(false));
}

#[test]
fn test_ub_into_i32() {
    assert_eq!(Into::<i32>::into(UnknownBool::Unknown), UB_UNKNOWN);
    assert_eq!(Into::<i32>::into(UnknownBool::True), UB_TRUE);
    assert_eq!(Into::<i32>::into(UnknownBool::False), UB_FALSE);
}

fn check_ub_methods(ub: UnknownBool, label: &str, ik: bool, it: bool) {
    assert_eq!(ub.is_known(), ik, "UnknownBool::{}.is_known()", label);
    assert_eq!(ub.is_unknown(), !ik, "UnknownBool::{}.is_unknown()", label);
    assert_eq!(ub.is_false(), ik && !it, "UnknownBool::{}.is_false()", label);
    assert_eq!(ub.is_true(), ik && it, "UnknownBool::{}.is_true()", label);
    assert_eq!(ub.is_false_or_unknown(), !it || !ik, "UnknownBool::{}.is_false_or_unknown()", label);
    assert_eq!(ub.is_true_or_unknown(), it || !ik, "UnknownBool::{}.is_true_or_unknown()", label);
}

#[test]
fn test_ub_methods() {
    check_ub_methods(UnknownBool::True, "True", true, true);
    check_ub_methods(UnknownBool::False, "False", true, false);
    check_ub_methods(UnknownBool::Unknown, "Unknown", false, false);
}

#[test]
fn test_ub_bitwise() {
    assert_eq!(UnknownBool::True & UnknownBool::True, UnknownBool::True);
    assert_eq!(UnknownBool::True & UnknownBool::False, UnknownBool::False);
    assert_eq!(UnknownBool::True & UnknownBool::Unknown, UnknownBool::Unknown);

    assert_eq!(UnknownBool::False & UnknownBool::True, UnknownBool::False);
    assert_eq!(UnknownBool::False & UnknownBool::False, UnknownBool::False);
    assert_eq!(UnknownBool::False & UnknownBool::Unknown, UnknownBool::False);

    assert_eq!(UnknownBool::Unknown & UnknownBool::True, UnknownBool::Unknown);
    assert_eq!(UnknownBool::Unknown & UnknownBool::False, UnknownBool::Unknown);
    assert_eq!(UnknownBool::Unknown & UnknownBool::Unknown, UnknownBool::Unknown);

    assert_eq!(UnknownBool::True | UnknownBool::True, UnknownBool::True);
    assert_eq!(UnknownBool::True | UnknownBool::False, UnknownBool::True);
    assert_eq!(UnknownBool::True | UnknownBool::Unknown, UnknownBool::True);

    assert_eq!(UnknownBool::False | UnknownBool::True, UnknownBool::True);
    assert_eq!(UnknownBool::False | UnknownBool::False, UnknownBool::False);
    assert_eq!(UnknownBool::False | UnknownBool::Unknown, UnknownBool::Unknown);

    assert_eq!(UnknownBool::Unknown | UnknownBool::True, UnknownBool::True);
    assert_eq!(UnknownBool::Unknown | UnknownBool::False, UnknownBool::Unknown);
    assert_eq!(UnknownBool::Unknown | UnknownBool::Unknown, UnknownBool::Unknown);
}

#[test]
fn ub_numeric_roundtrip() {
    for ub in [UnknownBool::True, UnknownBool::False, UnknownBool::Unknown] {
        assert_eq!(UnknownBool::from_numeric(ub.to_numeric()), ub);
        let opt: Option<bool> = ub.into();
        assert_eq!(UnknownBool::from(opt), ub);
    }
    assert_eq!(UnknownBool::from_numeric(7), UnknownBool::Unknown);
    assert_eq!(UnknownBool::from_numeric(i32::MIN), UnknownBool::Unknown);
    assert_eq!(UnknownBool::True.to_numeric(), 1);
    assert_eq!(UnknownBool::False.to_numeric(), -1);
    assert_eq!(UnknownBool::Unknown.to_numeric(), 0);
}

#[test]
fn ub_setters_and_default() {
    let mut ub = UnknownBool::default();
    assert_eq!(ub, UnknownBool::Unknown);
    ub.set(true);
    assert_eq!(ub, UnknownBool::True);
    ub.set(false);
    assert_eq!(ub, UnknownBool::False);
    ub.set_true();
    assert_eq!(ub, UnknownBool::True);
    ub.set_unknown();
    assert_eq!(ub, UnknownBool::Unknown);
    ub.set_false();
    assert_eq!(ub, UnknownBool::False);
}

#[test]
fn ub_ops_laws_on_values() {
    let all = [UnknownBool::True, UnknownBool::False, UnknownBool::Unknown];
    for x in all {
        for y in all {
            assert_eq!(x | y, y | x);
            for z in all {
                assert_eq!((x & y) & z, x & (y & z));
                assert_eq!((x | y) | z, x | (y | z));
            }
        }
        assert_eq!(UnknownBool::True & x, x);
        assert_eq!(x & UnknownBool::True, x);
        assert_eq!(UnknownBool::False | x, x);
        assert_eq!(x | UnknownBool::False, x);
    }
    for a in [true, false] {
        for b in [true, false] {
            assert_eq!(UnknownBool::from(a) & UnknownBool::from(b), UnknownBool::from(a && b));
            assert_eq!(UnknownBool::from(a) | UnknownBool::from(b), UnknownBool::from(a || b));
        }
    }
    assert_eq!(UnknownBool::Unknown & UnknownBool::False, UnknownBool::Unknown);
    assert_eq!(UnknownBool::False & UnknownBool::Unknown, UnknownBool::False);
}

#[test]
fn ub_display() {
    assert_eq!(UnknownBool::Unknown.to_display_string(), "unknown");
    assert_eq!(UnknownBool::True.to_display_string(), "true");
    assert_eq!(UnknownBool::False.to_display_string(), "false");
}
