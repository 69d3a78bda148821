//! Position descriptors: from a buffer position or pixel coordinates to the
//! frame-relative point that a mouse click there would report.
//!
//! The host's display engine owns the geometry: it answers whether a buffer
//! position is visible in a window (as `nil`, or the list
//! `(X Y [RTOP RBOT ROWH VPOS])`), and it knows where a window's edges and
//! text area sit on its frame. This module holds the logic between those
//! answers: validating the caller's coordinates as the editor does, deciding
//! when a position is to be reported as not visible, and shifting
//! window-relative coordinates to frame-relative ones. The host then builds
//! the final click descriptor from the frame and the coordinates computed
//! here.

use vstd::prelude::*;

use crate::lisp::{list_car, list_cdr_or_self, LispValue};

verus! {

/// The error a coordinate argument of the wrong shape raises: the editor
/// signals `wrong-type-argument` with the predicate the value failed.
#[derive(Clone, Copy, Debug, PartialEq, Eq, Structural)]
pub enum PosnError {
    /// The value is not a fixnum.
    NotAFixnum,
    /// The value is not a nonnegative fixnum.
    NotANatnum,
}

/// A pixel position on a frame.
#[derive(Clone, Copy, Debug, PartialEq, Eq, Structural)]
pub struct PixelPosition {
    pub x: i64,
    pub y: i64,
}

/// Where a window's text sits on its frame, as the host's window system
/// reports it: the pixel column of the window's left edge, the width of the
/// fringes and margins between that edge and the text area, and the pixel row
/// of the window's top edge.
#[derive(Clone, Copy, Debug, PartialEq, Eq, Structural)]
pub struct WindowGeometry {
    /// The window's left edge, in pixels from the frame's left edge.
    pub left_edge_x: i32,
    /// The text area's offset from the window's left edge, in pixels.
    pub text_area_left_offset: i32,
    /// The window's top edge, in pixels from the frame's top edge.
    pub top_edge_y: i32,
}

/// The fixnum an optional element holds, or 0 where there is no element.
/// Meant for elements already known to be fixnums if present.
pub open spec fn fixnum_or_zero(item: Option<LispValue>) -> i64 {
    match item {
        Some(LispValue::Fixnum(n)) => n,
        _ => 0,
    }
}

/// Whether an optional element would fail the editor's fixnum check: it is
/// present and not a fixnum.
pub open spec fn element_not_fixnum(item: Option<LispValue>) -> bool {
    match item {
        Some(v) => !v.spec_is_fixnum(),
        None => false,
    }
}

/// What `posn_at_point` returns for the display engine's visibility answer
/// `visible`: the window-relative pixel coordinates to look up, `None` where
/// the position is to be reported as not visible, or the type error the
/// editor signals on a malformed answer.
pub open spec fn posn_at_point_spec(visible: LispValue) -> Result<Option<PixelPosition>, PosnError> {
    if visible.spec_is_nil() {
        Ok(None)
    } else {
        let x_item = list_car(visible);
        let rest_after_x = list_cdr_or_self(visible);
        let y_item = list_car(rest_after_x);
        let aux_info = list_cdr_or_self(rest_after_x);
        if element_not_fixnum(x_item) {
            Err(PosnError::NotAFixnum)
        } else if element_not_fixnum(y_item) {
            Err(PosnError::NotAFixnum)
        } else {
            let x = fixnum_or_zero(x_item);
            let y = fixnum_or_zero(y_item);
            if x < -1 {
                Ok(None)
            } else if !aux_info.spec_is_nil() && y < 0 {
                if element_not_fixnum(list_car(aux_info)) {
                    Err(PosnError::NotAFixnum)
                } else {
                    Ok(
                        Some(
                            PixelPosition {
                                x,
                                y: (y + fixnum_or_zero(list_car(aux_info))) as i64,
                            },
                        ),
                    )
                }
            } else {
                Ok(Some(PixelPosition { x, y }))
            }
        }
    }
}

/// Return position information for a buffer position, given the display
/// engine's answer `visible` to whether that position is visible in the
/// window: `nil`, or `(X Y [RTOP RBOT ROWH VPOS])` with pixel coordinates
/// relative to the window's text area.
///
/// Returns `Ok(None)` where the position is not visible — the display engine
/// said so, or the point sits hidden by horizontal scrolling (X below -1; a
/// newline of a right-to-left line that overflows into the left fringe
/// reports X = -1 and is still visible). Where a row is only partially
/// visible, Y is negative and the row's hidden top height RTOP is added back,
/// so the coordinates land inside the visible part. On a malformed element
/// the editor's type error is returned. Otherwise the coordinates are handed
/// on to the pixel lookup of `posn_at_x_y`.
pub fn posn_at_point(visible: &LispValue) -> (r: Result<Option<PixelPosition>, PosnError>)
    requires
        visible.wf(),
    ensures
        r == posn_at_point_spec(*visible),
{
    if visible.is_nil() {
        return Ok(None);
    }
    let mut cur: &LispValue = visible;
    let x: i64 = match cur {
        LispValue::Cons(cell) => {
            assert(cell.car.wf() && cell.cdr.wf());
            let v: i64 = match &cell.car {
                LispValue::Fixnum(n) => *n,
                _ => {
                    return Err(PosnError::NotAFixnum);
                },
            };
            cur = &cell.cdr;
            v
        },
        _ => 0,
    };
    assert(cur.wf());
    let y: i64 = match cur {
        LispValue::Cons(cell) => {
            assert(cell.car.wf() && cell.cdr.wf());
            let v: i64 = match &cell.car {
                LispValue::Fixnum(n) => *n,
                _ => {
                    return Err(PosnError::NotAFixnum);
                },
            };
            cur = &cell.cdr;
            v
        },
        _ => 0,
    };
    assert(cur.wf());
    if x < -1 {
        return Ok(None);
    }
    let aux_info: &LispValue = cur;
    if !aux_info.is_nil() && y < 0 {
        let rtop: i64 = match aux_info {
            LispValue::Cons(cell) => {
                assert(cell.car.wf());
                match &cell.car {
                    LispValue::Fixnum(n) => *n,
                    _ => {
                        return Err(PosnError::NotAFixnum);
                    },
                }
            },
            _ => 0,
        };
        Ok(Some(PixelPosition { x, y: y + rtop }))
    } else {
        Ok(Some(PixelPosition { x, y }))
    }
}

/// What `posn_at_x_y` returns for coordinate arguments `objx` and `objy`,
/// a window's geometry (`None` where a frame was named, whose coordinates
/// need no shift), and whether X counts from the window's left edge rather
/// than its text area.
pub open spec fn posn_at_x_y_spec(
    objx: LispValue,
    objy: LispValue,
    window: Option<WindowGeometry>,
    whole: LispValue,
) -> Result<PixelPosition, PosnError> {
    match objx {
        LispValue::Fixnum(x) => {
            if x != -1 && x < 0 {
                Err(PosnError::NotANatnum)
            } else {
                match objy {
                    LispValue::Fixnum(y) => {
                        if y < 0 {
                            Err(PosnError::NotANatnum)
                        } else {
                            match window {
                                Some(g) => Ok(
                                    PixelPosition {
                                        x: (x + g.left_edge_x + if whole.spec_is_nil() {
                                            g.text_area_left_offset as int
                                        } else {
                                            0
                                        }) as i64,
                                        y: (y + g.top_edge_y) as i64,
                                    },
                                ),
                                None => Ok(PixelPosition { x, y }),
                            }
                        }
                    },
                    _ => Err(PosnError::NotANatnum),
                }
            }
        },
        _ => Err(PosnError::NotAFixnum),
    }
}

/// Return position information for pixel coordinates X and Y, as the frame
/// sees them.
///
/// `objx` must be a fixnum, nonnegative or the marker -1; `objy` a
/// nonnegative fixnum; on anything else the editor's type error is returned.
/// `window` carries the designated window's geometry, or `None` where a
/// frame was designated and the coordinates are already frame-relative. By
/// default X counts from the window's text area; where `whole` is non-`nil`
/// it counts from the window's left edge. The frame-relative coordinates are
/// what the host's `make_lispy_position` then resolves into a click
/// descriptor.
pub fn posn_at_x_y(
    objx: &LispValue,
    objy: &LispValue,
    window: Option<&WindowGeometry>,
    whole: &LispValue,
) -> (r: Result<PixelPosition, PosnError>)
    requires
        objx.wf(),
        objy.wf(),
    ensures
        r == posn_at_x_y_spec(
            *objx,
            *objy,
            match window {
                Some(g) => Some(*g),
                None => None,
            },
            *whole,
        ),
{
    let x: i64 = match objx {
        LispValue::Fixnum(n) => *n,
        _ => {
            return Err(PosnError::NotAFixnum);
        },
    };
    if x != -1 && x < 0 {
        return Err(PosnError::NotANatnum);
    }
    let y: i64 = match objy {
        LispValue::Fixnum(n) => {
            if *n < 0 {
                return Err(PosnError::NotANatnum);
            }
            *n
        },
        _ => {
            return Err(PosnError::NotANatnum);
        },
    };
    match window {
        Some(g) => {
            let mut frame_x: i64 = x + (g.left_edge_x as i64);
            if whole.is_nil() {
                frame_x = frame_x + (g.text_area_left_offset as i64);
            }
            let frame_y: i64 = y + (g.top_edge_y as i64);
            Ok(PixelPosition { x: frame_x, y: frame_y })
        },
        None => Ok(PixelPosition { x, y }),
    }
}

} // verus!
