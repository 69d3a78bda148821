//! Recognising a Lucid-style event type list.
//!
//! A list whose elements are all integers or symbols is not valid as an
//! event, but it can be a Lucid-style event type list, and the command loop
//! treats it as one. A list that starts with one of the special event heads
//! `help-echo`, `vertical-line`, `mode-line` or `header-line` is a genuine
//! event and is never taken for such a list.

use vstd::prelude::*;

use crate::lisp::{lemma_list_step, list_elements, list_tail, LispCons, LispSymbol, LispValue};

verus! {

/// Whether `head` is one of the symbols that begin a genuine special event.
pub open spec fn special_event_head(head: LispValue) -> bool {
    ||| head == LispValue::Symbol(LispSymbol::HelpEcho)
    ||| head == LispValue::Symbol(LispSymbol::VerticalLine)
    ||| head == LispValue::Symbol(LispSymbol::ModeLine)
    ||| head == LispValue::Symbol(LispSymbol::HeaderLine)
}

/// Whether `v` may stand in an event type list: it is a fixnum or a symbol
/// (`nil` and `t` are symbols).
pub open spec fn fixnum_or_symbol(v: LispValue) -> bool {
    v.spec_is_fixnum() || v.spec_is_symbol()
}

/// Whether `event` is a Lucid-style event type list: a proper list, not
/// headed by a special event symbol, whose elements are all fixnums or
/// symbols.
pub open spec fn is_lucid_event_type_list(event: Option<&LispCons>) -> bool {
    match event {
        None => false,
        Some(cell) => {
            &&& !special_event_head(cell.car)
            &&& (forall|i: int|
                0 <= i < list_elements(*cell).len() ==> fixnum_or_symbol(
                    #[trigger] list_elements(*cell)[i],
                ))
            &&& list_tail(*cell).spec_is_nil()
        },
    }
}

/// Return true if EVENT is a list whose elements are all integers or symbols.
/// Such a list is not valid as an event, but it can be a Lucid-style event
/// type list.
pub fn lucid_event_type_list_p(event: Option<&LispCons>) -> (r: bool)
    ensures
        r == is_lucid_event_type_list(event),
{
    match event {
        None => false,
        Some(cell) => {
            let head_is_special = match &cell.car {
                LispValue::Symbol(LispSymbol::HelpEcho) => true,
                LispValue::Symbol(LispSymbol::VerticalLine) => true,
                LispValue::Symbol(LispSymbol::ModeLine) => true,
                LispValue::Symbol(LispSymbol::HeaderLine) => true,
                _ => false,
            };
            if head_is_special {
                false
            } else {
                proper_list_of_fixnums_and_symbols(cell)
            }
        },
    }
}

/// Walk the cons chain: every element a fixnum or a symbol, and the final
/// tail `nil`.
fn proper_list_of_fixnums_and_symbols(cell: &LispCons) -> (r: bool)
    ensures
        r == {
            &&& (forall|i: int|
                0 <= i < list_elements(*cell).len() ==> fixnum_or_symbol(
                    #[trigger] list_elements(*cell)[i],
                ))
            &&& list_tail(*cell).spec_is_nil()
        },
    decreases *cell,
{
    proof {
        lemma_list_step(*cell);
    }
    let element_ok = match &cell.car {
        LispValue::Fixnum(_) => true,
        LispValue::Symbol(_) => true,
        _ => false,
    };
    if !element_ok {
        proof {
            assert(!fixnum_or_symbol(list_elements(*cell)[0]));
        }
        false
    } else {
        match &cell.cdr {
            LispValue::Cons(rest) => {
                let r = proper_list_of_fixnums_and_symbols(rest);
                proof {
                    if r {
                        assert forall|i: int|
                            0 <= i < list_elements(*cell).len() implies fixnum_or_symbol(
                            #[trigger] list_elements(*cell)[i],
                        ) by {
                            if i == 0 {
                                assert(list_elements(*cell)[i] == cell.car);
                            } else {
                                assert(list_elements(*cell)[i] == list_elements(**rest)[i - 1]);
                            }
                        }
                    } else if list_tail(*cell).spec_is_nil() && (forall|i: int|
                        0 <= i < list_elements(*cell).len() ==> fixnum_or_symbol(
                            #[trigger] list_elements(*cell)[i],
                        )) {
                        assert forall|j: int|
                            0 <= j < list_elements(**rest).len() implies fixnum_or_symbol(
                            #[trigger] list_elements(**rest)[j],
                        ) by {
                            assert(list_elements(**rest)[j] == list_elements(*cell)[j + 1]);
                        }
                        assert(false);
                    }
                }
                r
            },
            tail => {
                proof {
                    assert forall|i: int|
                        0 <= i < list_elements(*cell).len() implies fixnum_or_symbol(
                        #[trigger] list_elements(*cell)[i],
                    ) by {
                        assert(list_elements(*cell)[i] == cell.car);
                    }
                }
                tail.is_nil()
            },
        }
    }
}

} // verus!
