use keyboard::lisp::{LispCons, LispSymbol, LispValue};

#[test]
fn nil_is_nil_and_a_symbol() {
    let v = LispValue::Symbol(LispSymbol::Nil);
    assert!(v.is_nil());
    assert!(v.is_symbol());
    assert!(!v.is_fixnum());
}

#[test]
fn t_is_a_symbol_but_not_nil() {
    let v = LispValue::Symbol(LispSymbol::T);
    assert!(!v.is_nil());
    assert!(v.is_symbol());
}

#[test]
fn a_fixnum_is_neither_nil_nor_a_symbol() {
    let v = LispValue::Fixnum(0);
    assert!(!v.is_nil());
    assert!(!v.is_symbol());
    assert!(v.is_fixnum());
}

#[test]
fn conses_and_other_objects_fail_all_three() {
    let cell = LispValue::Cons(Box::new(LispCons {
        car: LispValue::Fixnum(1),
        cdr: LispValue::Symbol(LispSymbol::Nil),
    }));
    for v in [cell, LispValue::Object(3)] {
        assert!(!v.is_nil());
        assert!(!v.is_symbol());
        assert!(!v.is_fixnum());
    }
}
