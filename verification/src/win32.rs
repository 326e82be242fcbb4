//! Window-system arithmetic for Windows: the keyboard hook's re-posted messages, window
//! styles for a resizable, fixed or borderless window, and window placement.
use vstd::prelude::*;

verus! {

pub const WM_KEYDOWN: u32 = 0x0100;
pub const WM_KEYUP: u32 = 0x0101;
pub const WM_SYSKEYDOWN: u32 = 0x0104;
pub const WM_SYSKEYUP: u32 = 0x0105;
/// Flag of a low-level keyboard event: the key is an extended key.
pub const LLKHF_EXTENDED: u32 = 0x0001;
pub const WS_MAXIMIZEBOX: u32 = 0x0001_0000;
pub const WS_MINIMIZEBOX: u32 = 0x0002_0000;
pub const WS_SIZEBOX: u32 = 0x0004_0000;
pub const WS_THICKFRAME: u32 = 0x0004_0000;
pub const WS_SYSMENU: u32 = 0x0008_0000;
pub const WS_CAPTION: u32 = 0x00C0_0000;

/// The message a hooked keyboard event is re-posted as: key presses (plain or system) as
/// `WM_KEYDOWN`, key releases as `WM_KEYUP`; other messages are not re-posted.
pub open spec fn reposted_message_spec(msg: u32) -> Option<u32> {
    if msg == WM_KEYDOWN || msg == WM_SYSKEYDOWN {
        Some(WM_KEYDOWN)
    } else if msg == WM_KEYUP || msg == WM_SYSKEYUP {
        Some(WM_KEYUP)
    } else {
        None
    }
}

pub fn reposted_message(msg: u32) -> (r: Option<u32>)
    ensures
        r == reposted_message_spec(msg),
{
    if msg == WM_KEYDOWN || msg == WM_SYSKEYDOWN {
        Some(WM_KEYDOWN)
    } else if msg == WM_KEYUP || msg == WM_SYSKEYUP {
        Some(WM_KEYUP)
    } else {
        None
    }
}

/// The decision of the low-level keyboard hook: events with a non-negative hook code are
/// re-posted to the viewer's window (as `reposted_message` says); the others are passed on.
pub fn hook_reposts(code: i32, msg: u32) -> (r: Option<u32>)
    ensures
        code < 0 ==> r is None,
        code >= 0 ==> r == reposted_message_spec(msg),
{
    if code >= 0 {
        reposted_message(msg)
    } else {
        None
    }
}

/// The `lParam` of a re-posted key message: repeat count 1 in bits 0..16, the low byte of
/// the scan code in bits 16..24, the extended-key flag in bit 24, bits 25..30 clear, and for
/// a release the previous-state and transition bits 30 and 31 set.
pub fn make_key_lparam(scan_code: u32, flags: u32, msg: u32) -> (r: u32)
    ensures
        r & 0xffff == 1,
        (r >> 16) & 0xff == scan_code & 0xff,
        (r >> 24) & 1 == (if flags & LLKHF_EXTENDED != 0 {
            1u32
        } else {
            0u32
        }),
        (r >> 25) & 0x1f == 0,
        (r >> 30) == (if msg == WM_KEYUP || msg == WM_SYSKEYUP {
            3u32
        } else {
            0u32
        }),
{
    let repeat_count: u32 = 1;
    let scan = (scan_code & 0xff) << 16;
    let extended: u32 = if flags & LLKHF_EXTENDED != 0 {
        1 << 24
    } else {
        0
    };
    let transition: u32 = if msg == WM_KEYUP || msg == WM_SYSKEYUP {
        (1 << 30) | (1 << 31)
    } else {
        0
    };
    let r = repeat_count | scan | extended | transition;
    assert((1u32 << 24) != 0 && ((1u32 << 30) | (1u32 << 31)) != 0) by (bit_vector);
    assert(r & 0xffff == 1 && (r >> 16) & 0xff == scan_code & 0xff && (r >> 25) & 0x1f == 0)
        by (bit_vector)
        requires
            repeat_count == 1,
            scan == (scan_code & 0xff) << 16,
            extended == 0 || extended == 1u32 << 24,
            transition == 0 || transition == (1u32 << 30) | (1u32 << 31),
            r == repeat_count | scan | extended | transition,
    ;
    assert((r >> 24) & 1 == (if extended != 0 {
        1u32
    } else {
        0u32
    })) by (bit_vector)
        requires
            scan == (scan_code & 0xff) << 16,
            extended == 0 || extended == 1u32 << 24,
            transition == 0 || transition == (1u32 << 30) | (1u32 << 31),
            r == 1u32 | scan | extended | transition,
    ;
    assert((r >> 30) == (if transition != 0 {
        3u32
    } else {
        0u32
    })) by (bit_vector)
        requires
            scan == (scan_code & 0xff) << 16,
            extended == 0 || extended == 1u32 << 24,
            transition == 0 || transition == (1u32 << 30) | (1u32 << 31),
            r == 1u32 | scan | extended | transition,
    ;
    r
}

/// The style bits that let the user resize and maximize a window.
pub open spec fn resize_flags() -> isize {
    (WS_MAXIMIZEBOX | WS_SIZEBOX) as isize
}

/// The window style with the resize and maximize bits set (`resizable`) or cleared, every
/// other bit kept.
pub open spec fn resizable_style_spec(style: isize, resizable: bool) -> isize {
    if resizable {
        style | resize_flags()
    } else {
        style & !resize_flags()
    }
}

pub fn resizable_style(style: isize, resizable: bool) -> (r: isize)
    ensures
        r == resizable_style_spec(style, resizable),
{
    let flags = (WS_MAXIMIZEBOX | WS_SIZEBOX) as isize;
    if resizable {
        style | flags
    } else {
        style & !flags
    }
}

/// Making a window resizable and fixed again gives the same style as making it fixed
/// directly, and the other way round: only the resize bits are touched.
pub proof fn law_resizable_toggle(style: isize)
    ensures
        resizable_style_spec(resizable_style_spec(style, true), false) == resizable_style_spec(
            style,
            false,
        ),
        resizable_style_spec(resizable_style_spec(style, false), true) == resizable_style_spec(
            style,
            true,
        ),
        resizable_style_spec(style, true) & !resize_flags() == style & !resize_flags(),
        resizable_style_spec(style, false) & !resize_flags() == style & !resize_flags(),
        resizable_style_spec(style, true) & resize_flags() == resize_flags(),
        resizable_style_spec(style, false) & resize_flags() == 0,
{
    let f = resize_flags();
    assert(f == 0x0005_0000isize) by {
        assert((WS_MAXIMIZEBOX | WS_SIZEBOX) == 0x0005_0000u32) by (bit_vector);
    }
    assert(((style | f) & !f) == (style & !f) && ((style & !f) | f) == (style | f) && ((style
        | f) & f) == f && ((style & !f) & f) == 0 && (((style & !f) & !f) == (style & !f))
        && (((style | f) | f) == (style | f))) by (bit_vector)
        requires
            f == 0x0005_0000isize,
    ;
}

/// The style bits of a window's frame: caption, sizing border, system menu and the
/// minimize and maximize boxes.
pub open spec fn decoration_flags() -> isize {
    (WS_CAPTION | WS_THICKFRAME | WS_SIZEBOX | WS_SYSMENU | WS_MINIMIZEBOX | WS_MAXIMIZEBOX) as isize
}

/// The style of the borderless full-screen window: the frame bits cleared, every other bit
/// kept.
pub fn borderless_style(style: isize) -> (r: isize)
    ensures
        r == style & !decoration_flags(),
        r & decoration_flags() == 0,
{
    let decorations = (WS_CAPTION | WS_THICKFRAME | WS_SIZEBOX | WS_SYSMENU | WS_MINIMIZEBOX
        | WS_MAXIMIZEBOX) as isize;
    let r = style & !decorations;
    assert(r & decorations == 0) by (bit_vector)
        requires
            r == style & !decorations,
    ;
    r
}

/// A rectangle in screen coordinates, by its edges.
#[derive(PartialEq, Eq, Structural, Clone, Copy, Debug)]
pub struct WinRect {
    pub left: i32,
    pub top: i32,
    pub right: i32,
    pub bottom: i32,
}

/// Where a window goes: its top-left corner and its size.
#[derive(PartialEq, Eq, Structural, Clone, Copy, Debug)]
pub struct Placement {
    pub x: i32,
    pub y: i32,
    pub width: i32,
    pub height: i32,
}

/// The placement that makes a window cover `rect` exactly.
pub fn placement_of(rect: WinRect) -> (r: Placement)
    requires
        i32::MIN <= rect.right - rect.left <= i32::MAX,
        i32::MIN <= rect.bottom - rect.top <= i32::MAX,
    ensures
        r.x == rect.left,
        r.y == rect.top,
        r.width == rect.right - rect.left,
        r.height == rect.bottom - rect.top,
{
    Placement {
        x: rect.left,
        y: rect.top,
        width: rect.right - rect.left,
        height: rect.bottom - rect.top,
    }
}

} // verus!
