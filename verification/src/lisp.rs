//! A model of the Lisp values that the keyboard layer reads.
//!
//! The host editor hands these functions Lisp objects. Of such an object the
//! logic here only ever asks: is it nil, is it a fixnum, is it a symbol, is
//! it a cons, and what fixnum does it hold. This module models exactly that:
//! a value is a symbol, a fixnum, a cons cell or some other editor object,
//! identified only by an opaque handle. As in the editor, `nil` and `t` are
//! themselves symbols.

use vstd::prelude::*;

verus! {

/// The largest value a fixnum can hold: the editor packs a fixnum together
/// with its tag bits into one machine word, which leaves 62 bits of payload.
pub const MOST_POSITIVE_FIXNUM: i64 = 0x1FFF_FFFF_FFFF_FFFF;

/// The smallest value a fixnum can hold.
pub const MOST_NEGATIVE_FIXNUM: i64 = -0x2000_0000_0000_0000;

/// A symbol. The keyboard layer compares events and replies against a few
/// interned symbols by identity; every other symbol is carried as an opaque
/// handle.
#[derive(Clone, Copy, Debug, PartialEq, Eq, Structural)]
pub enum LispSymbol {
    /// `nil`: the empty list and falsehood.
    Nil,
    /// `t`: truth.
    T,
    /// `help-echo`, a special event head.
    HelpEcho,
    /// `vertical-line`, a special event head.
    VerticalLine,
    /// `mode-line`, a special event head.
    ModeLine,
    /// `header-line`, a special event head.
    HeaderLine,
    /// Any other symbol, by its handle in the host's obarray.
    Other(u64),
}

/// A Lisp value as the keyboard layer sees it.
pub enum LispValue {
    /// A symbol; `Symbol(LispSymbol::Nil)` is `nil`.
    Symbol(LispSymbol),
    /// A small integer.
    Fixnum(i64),
    /// A cons cell.
    Cons(Box<LispCons>),
    /// Any other object (a string, a buffer, a window...), by an opaque
    /// handle: the logic here never looks inside one.
    Object(u64),
}

/// A cons cell.
pub struct LispCons {
    pub car: LispValue,
    pub cdr: LispValue,
}

/// The elements of the cons chain starting at `cell`, in order: the cars of
/// the cells reached by following cdrs.
pub open spec fn list_elements(cell: LispCons) -> Seq<LispValue>
    decreases cell,
{
    match cell.cdr {
        LispValue::Cons(rest) => seq![cell.car] + list_elements(*rest),
        _ => seq![cell.car],
    }
}

/// The final tail of the cons chain starting at `cell`: `nil` for a proper
/// list, the last cdr otherwise.
pub open spec fn list_tail(cell: LispCons) -> LispValue
    decreases cell,
{
    match cell.cdr {
        LispValue::Cons(rest) => list_tail(*rest),
        tail => tail,
    }
}

/// One step of walking a cons chain as the editor's car iterator does: the
/// car of a cons, nothing otherwise.
pub open spec fn list_car(v: LispValue) -> Option<LispValue> {
    match v {
        LispValue::Cons(cell) => Some(cell.car),
        _ => None,
    }
}

/// The other half of the step: the cdr of a cons; anything else is left in
/// place, as the iterator leaves a non-cons rest where it stands.
pub open spec fn list_cdr_or_self(v: LispValue) -> LispValue {
    match v {
        LispValue::Cons(cell) => cell.cdr,
        _ => v,
    }
}

/// How `list_elements` and `list_tail` unfold over the first cell, written
/// out once for the proofs that walk a chain cell by cell.
pub proof fn lemma_list_step(cell: LispCons)
    ensures
        list_elements(cell).len() >= 1,
        list_elements(cell)[0] == cell.car,
        cell.cdr matches LispValue::Cons(rest) ==> list_elements(cell) == seq![cell.car]
            + list_elements(*rest),
        !(cell.cdr is Cons) ==> list_elements(cell) == seq![cell.car],
        cell.cdr matches LispValue::Cons(rest) ==> list_tail(cell) == list_tail(*rest),
        !(cell.cdr is Cons) ==> list_tail(cell) == cell.cdr,
{
}

impl LispValue {
    /// The value `nil`.
    pub open spec fn spec_is_nil(&self) -> bool {
        *self == LispValue::Symbol(LispSymbol::Nil)
    }

    /// Whether the value is a fixnum.
    pub open spec fn spec_is_fixnum(&self) -> bool {
        *self is Fixnum
    }

    /// Whether the value is a symbol; `nil` and `t` are.
    pub open spec fn spec_is_symbol(&self) -> bool {
        *self is Symbol
    }

    /// Every fixnum in the value lies in the range the editor can represent.
    pub open spec fn wf(self) -> bool
        decreases self,
    {
        match self {
            LispValue::Fixnum(n) => MOST_NEGATIVE_FIXNUM <= n <= MOST_POSITIVE_FIXNUM,
            LispValue::Cons(cell) => cell.car.wf() && cell.cdr.wf(),
            _ => true,
        }
    }

    /// Whether the value is `nil`.
    #[verifier::when_used_as_spec(spec_is_nil)]
    pub fn is_nil(&self) -> (r: bool)
        ensures
            r == self.spec_is_nil(),
    {
        match self {
            LispValue::Symbol(LispSymbol::Nil) => true,
            _ => false,
        }
    }

    /// Whether the value is a fixnum.
    #[verifier::when_used_as_spec(spec_is_fixnum)]
    pub fn is_fixnum(&self) -> (r: bool)
        ensures
            r == self.spec_is_fixnum(),
    {
        match self {
            LispValue::Fixnum(_) => true,
            _ => false,
        }
    }

    /// Whether the value is a symbol.
    #[verifier::when_used_as_spec(spec_is_symbol)]
    pub fn is_symbol(&self) -> (r: bool)
        ensures
            r == self.spec_is_symbol(),
    {
        match self {
            LispValue::Symbol(_) => true,
            _ => false,
        }
    }
}

} // verus!
