use addbridge::adder::AddError;
use addbridge::host::HostValue;
use addbridge::registry::ModuleRecord;

#[test]
fn add_two_and_three() {
    assert_eq!(addbridge::adder::add(2, 3), Ok(5));
}

#[test]
fn add_zero_and_zero() {
    assert_eq!(addbridge::adder::add(0, 0), Ok(0));
}

#[test]
fn add_max_and_one_overflows() {
    assert_eq!(addbridge::adder::add(18446744073709551615, 1), Err(AddError::Overflow));
}

#[test]
fn add_one_below_max_still_fits() {
    assert_eq!(addbridge::adder::add(18446744073709551614, 1), Ok(18446744073709551615));
}

#[test]
fn add_is_commutative_on_samples() {
    assert_eq!(addbridge::adder::add(17, 4000000000), addbridge::adder::add(4000000000, 17));
    assert_eq!(
        addbridge::adder::add(u64::MAX, 2),
        addbridge::adder::add(2, u64::MAX)
    );
}

#[test]
fn zero_is_an_identity_on_samples() {
    assert_eq!(addbridge::adder::add(42, 0), Ok(42));
    assert_eq!(addbridge::adder::add(u64::MAX, 0), Ok(u64::MAX));
}

#[test]
fn coerce_accepts_a_representable_integer() {
    assert_eq!(addbridge::host::coerce(&HostValue::Uint(7)), Ok(7));
}

#[test]
fn coerce_rejects_text() {
    let text = HostValue::Text(String::from("seven"));
    assert_eq!(addbridge::host::coerce(&text), Err(AddError::Coercion));
}

#[test]
fn coerce_rejects_out_of_range_and_fractional() {
    assert_eq!(addbridge::host::coerce(&HostValue::OutOfRange), Err(AddError::Coercion));
    assert_eq!(addbridge::host::coerce(&HostValue::Fractional), Err(AddError::Coercion));
    assert_eq!(addbridge::host::coerce(&HostValue::Other), Err(AddError::Coercion));
}

#[test]
fn call_add_on_two_integers() {
    let r = addbridge::host::call_add(&HostValue::Uint(2), &HostValue::Uint(3));
    assert_eq!(r, Ok(5));
}

#[test]
fn call_add_with_text_raises_coercion_error() {
    let text = HostValue::Text(String::from("three"));
    let r = addbridge::host::call_add(&HostValue::Uint(2), &text);
    assert_eq!(r, Err(AddError::Coercion));
    let text2 = HostValue::Text(String::from("two"));
    let r2 = addbridge::host::call_add(&text2, &HostValue::Uint(3));
    assert_eq!(r2, Err(AddError::Coercion));
}

#[test]
fn call_add_overflow_surfaces_as_error() {
    let r = addbridge::host::call_add(&HostValue::Uint(u64::MAX), &HostValue::Uint(1));
    assert_eq!(r, Err(AddError::Overflow));
}

#[test]
fn coercion_is_checked_before_the_sum() {
    let r = addbridge::host::call_add(&HostValue::Text(String::from("a")), &HostValue::Fractional);
    assert_eq!(r, Err(AddError::Coercion));
}

#[test]
fn initializer_registers_add() {
    let m = ModuleRecord::init();
    assert!(m.has_export("add"));
}

#[test]
fn initializer_registers_nothing_else() {
    let m = ModuleRecord::init();
    assert_eq!(m.export_count(), 1);
    assert!(!m.has_export("sub"));
    assert!(!m.has_export(""));
}
