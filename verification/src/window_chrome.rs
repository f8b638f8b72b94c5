//! Window opacity as the native window sees it: when the layered style is
//! needed and which alpha it gets.
use vstd::prelude::*;

verus! {

/// The alpha of a layered window with the given opacity in percent, rounded
/// to the nearest step of 255; `None` at full opacity, where the layered
/// style must be off (OpenGL cannot present into a layered window).
pub open spec fn alpha_of(opacity: u8) -> Option<u8> {
    if opacity >= 100 {
        None
    } else {
        Some(((opacity as int * 255 + 50) / 100) as u8)
    }
}

pub fn layered_window_alpha(opacity: u8) -> (r: Option<u8>)
    ensures
        r == alpha_of(opacity),
{
    if opacity >= 100 {
        None
    } else {
        Some(((opacity as u16 * 255 + 50) / 100) as u8)
    }
}

/// The opacity that a transparency in percent leaves (`100 - t`, at least 0).
pub open spec fn opacity_of_transparency(transparency: u8) -> u8 {
    if transparency >= 100 {
        0
    } else {
        (100 - transparency) as u8
    }
}

pub fn opacity_for_transparency(transparency: u8) -> (r: u8)
    ensures
        r == opacity_of_transparency(transparency),
{
    if transparency >= 100 {
        0
    } else {
        100 - transparency
    }
}

/// The alpha for a transparency: `None` when the window is not transparent.
pub fn layered_window_alpha_from_transparency(transparency: u8) -> (r: Option<u8>)
    ensures
        r == (if transparency == 0 {
            None
        } else {
            alpha_of(opacity_of_transparency(transparency))
        }),
{
    if transparency == 0 {
        None
    } else {
        layered_window_alpha(opacity_for_transparency(transparency))
    }
}

/// Full transparency and full opacity are the ends of the alpha range.
pub proof fn lemma_alpha_range(opacity: u8)
    requires
        opacity < 100,
    ensures
        alpha_of(opacity) matches Some(a) && a <= 253 && (opacity == 0 ==> a == 0),
{
    assert((opacity as int * 255 + 50) / 100 <= 253) by (nonlinear_arith)
        requires
            opacity < 100,
    ;
}

/// The value of windows-sys's `WS_EX_LAYERED` (0x80000 in its source).
#[verifier::external_body]
fn ws_ex_layered() -> (r: u32)
    ensures
        r == 0x80000u32,
{
    windows_sys::Win32::UI::WindowsAndMessaging::WS_EX_LAYERED
}

/// What applying an opacity does to a window: the extended style to set
/// (`None` when it stays) and the alpha to give it (`None` when it is not
/// layered).
#[derive(Clone, Copy, Debug, PartialEq, Eq, Structural)]
pub struct OpacityChange {
    pub new_style: Option<i32>,
    pub alpha: Option<u8>,
}

/// The style with the layered bit set or cleared.
pub open spec fn with_layered(style: i32, layered: bool) -> i32 {
    if layered {
        style | 0x80000i32
    } else {
        style & !0x80000i32
    }
}

/// The change that applying an opacity makes to a window with the given
/// extended style: below full opacity the layered bit is set and the alpha
/// applied; at full opacity the bit is cleared. The style is written only
/// when it changes.
pub fn opacity_change(style: i32, opacity: u8) -> (r: OpacityChange)
    ensures
        r.alpha == alpha_of(opacity),
        r.new_style == (if with_layered(style, opacity < 100) != style {
            Some(with_layered(style, opacity < 100))
        } else {
            None
        }),
{
    let layered_bit: i32 = ws_ex_layered() as i32;
    assert(layered_bit == 0x80000i32);
    match layered_window_alpha(opacity) {
        Some(alpha) => {
            let target = style | layered_bit;
            OpacityChange {
                new_style: if target != style {
                    Some(target)
                } else {
                    None
                },
                alpha: Some(alpha),
            }
        },
        None => {
            let cleared = style & !layered_bit;
            OpacityChange {
                new_style: if cleared != style {
                    Some(cleared)
                } else {
                    None
                },
                alpha: None,
            }
        },
    }
}

} // verus!
