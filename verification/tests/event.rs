use keyboard::event::lucid_event_type_list_p;
use keyboard::lisp::{LispCons, LispSymbol, LispValue};

fn sym(s: LispSymbol) -> LispValue {
    LispValue::Symbol(s)
}

fn nil() -> LispValue {
    LispValue::Symbol(LispSymbol::Nil)
}

fn cons(car: LispValue, cdr: LispValue) -> LispValue {
    LispValue::Cons(Box::new(LispCons { car, cdr }))
}

fn head(car: LispValue, cdr: LispValue) -> LispCons {
    LispCons { car, cdr }
}

#[test]
fn no_event_is_no_lucid_list() {
    assert!(!lucid_event_type_list_p(None));
}

#[test]
fn fixnums_and_symbols_make_a_lucid_list() {
    let event = head(
        LispValue::Fixnum(1),
        cons(sym(LispSymbol::Other(7)), cons(LispValue::Fixnum(-3), nil())),
    );
    assert!(lucid_event_type_list_p(Some(&event)));
}

#[test]
fn one_fixnum_makes_a_lucid_list() {
    let event = head(LispValue::Fixnum(42), nil());
    assert!(lucid_event_type_list_p(Some(&event)));
}

#[test]
fn nil_and_t_count_as_symbols() {
    let event = head(nil(), cons(sym(LispSymbol::T), nil()));
    assert!(lucid_event_type_list_p(Some(&event)));
}

#[test]
fn special_event_heads_are_refused() {
    for special in [
        LispSymbol::HelpEcho,
        LispSymbol::VerticalLine,
        LispSymbol::ModeLine,
        LispSymbol::HeaderLine,
    ] {
        let event = head(sym(special), cons(LispValue::Fixnum(1), nil()));
        assert!(!lucid_event_type_list_p(Some(&event)));
    }
}

#[test]
fn a_special_symbol_may_stand_later_in_the_list() {
    let event = head(LispValue::Fixnum(1), cons(sym(LispSymbol::ModeLine), nil()));
    assert!(lucid_event_type_list_p(Some(&event)));
}

#[test]
fn another_object_among_the_elements_is_refused() {
    let event = head(LispValue::Fixnum(1), cons(LispValue::Object(9), nil()));
    assert!(!lucid_event_type_list_p(Some(&event)));
}

#[test]
fn a_nested_list_among_the_elements_is_refused() {
    let event = head(cons(LispValue::Fixnum(1), nil()), nil());
    assert!(!lucid_event_type_list_p(Some(&event)));
}

#[test]
fn a_dotted_tail_is_refused() {
    let event = head(LispValue::Fixnum(1), LispValue::Fixnum(2));
    assert!(!lucid_event_type_list_p(Some(&event)));
}

#[test]
fn a_dotted_tail_after_two_elements_is_refused() {
    let event = head(
        LispValue::Fixnum(1),
        cons(sym(LispSymbol::Other(4)), sym(LispSymbol::Other(5))),
    );
    assert!(!lucid_event_type_list_p(Some(&event)));
}
