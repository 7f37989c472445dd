//! The overlay window configurator.
//!
//! A window becomes the overlay by writing one extended-style bitmask over
//! its previous extended style.  The mask combines five independent
//! capabilities; the invariant of the design is that all five are written
//! together in a single style write, so a window is either the full overlay
//! or untouched.

use vstd::prelude::*;

verus! {

/// Extended style bit: show the window in the taskbar and window switcher.
pub const APP_WINDOW: u32 = 0x0004_0000;

/// Extended style bit: paint the window with double-buffered compositing.
pub const COMPOSITED: u32 = 0x0200_0000;

/// Extended style bit: the window is layered, enabling transparency.
pub const LAYERED: u32 = 0x0008_0000;

/// Extended style bit: click-through — input events pass to windows beneath.
pub const TRANSPARENT: u32 = 0x0000_0020;

/// Extended style bit: the window stays above all non-topmost windows.
pub const TOPMOST: u32 = 0x0000_0008;

/// The one mask the configurator ever writes: all five capabilities at once.
pub const OVERLAY_STYLE_MASK: u32 = APP_WINDOW | COMPOSITED | LAYERED | TRANSPARENT | TOPMOST;

/// The five overlay capabilities as independent booleans, decoupling the
/// semantic intent (click-through overlay) from the numeric encoding.
#[derive(Clone, Copy, PartialEq, Eq, Structural, Debug)]
pub struct StyleFlags {
    pub app_window: bool,
    pub composited: bool,
    pub layered: bool,
    pub transparent: bool,
    pub topmost: bool,
}

impl StyleFlags {
    /// The flag set the overlay needs: every capability enabled.
    pub open spec fn spec_overlay() -> StyleFlags {
        StyleFlags {
            app_window: true,
            composited: true,
            layered: true,
            transparent: true,
            topmost: true,
        }
    }

    /// The platform bitmask a flag set denotes.
    pub open spec fn spec_encode(self) -> u32 {
        (if self.app_window { APP_WINDOW } else { 0 })
        | (if self.composited { COMPOSITED } else { 0 })
        | (if self.layered { LAYERED } else { 0 })
        | (if self.transparent { TRANSPARENT } else { 0 })
        | (if self.topmost { TOPMOST } else { 0 })
    }

    /// The flag set the overlay needs: every capability enabled.
    pub fn overlay() -> (f: StyleFlags)
        ensures
            f == StyleFlags::spec_overlay(),
    {
        StyleFlags {
            app_window: true,
            composited: true,
            layered: true,
            transparent: true,
            topmost: true,
        }
    }

    /// Pure encoding of a flag set into the platform bitmask.
    pub fn encode(self) -> (mask: u32)
        ensures
            mask == self.spec_encode(),
    {
        (if self.app_window { APP_WINDOW } else { 0 })
        | (if self.composited { COMPOSITED } else { 0 })
        | (if self.layered { LAYERED } else { 0 })
        | (if self.transparent { TRANSPARENT } else { 0 })
        | (if self.topmost { TOPMOST } else { 0 })
    }
}

/// Whether `mask` has every bit of `bits` set.
pub open spec fn spec_mask_sets(mask: u32, bits: u32) -> bool {
    mask & bits == bits
}

/// Whether `mask` has every bit of `bits` set.
pub fn mask_sets(mask: u32, bits: u32) -> (r: bool)
    ensures
        r == spec_mask_sets(mask, bits),
{
    mask & bits == bits
}

/// The overlay flag set encodes to exactly the mask the configurator writes.
pub proof fn lemma_overlay_flags_encode_to_mask()
    ensures
        StyleFlags::spec_overlay().spec_encode() == OVERLAY_STYLE_MASK,
{
    assert(StyleFlags::spec_overlay().spec_encode() == OVERLAY_STYLE_MASK) by (bit_vector);
}

/// Each of the five capabilities is set in the overlay mask, and no two
/// of the five bits overlap, so the mask really carries five independent
/// capabilities.
pub proof fn lemma_overlay_mask_sets_all_flags()
    ensures
        spec_mask_sets(OVERLAY_STYLE_MASK, APP_WINDOW),
        spec_mask_sets(OVERLAY_STYLE_MASK, COMPOSITED),
        spec_mask_sets(OVERLAY_STYLE_MASK, LAYERED),
        spec_mask_sets(OVERLAY_STYLE_MASK, TRANSPARENT),
        spec_mask_sets(OVERLAY_STYLE_MASK, TOPMOST),
{
    assert(OVERLAY_STYLE_MASK & APP_WINDOW == APP_WINDOW) by (bit_vector);
    assert(OVERLAY_STYLE_MASK & COMPOSITED == COMPOSITED) by (bit_vector);
    assert(OVERLAY_STYLE_MASK & LAYERED == LAYERED) by (bit_vector);
    assert(OVERLAY_STYLE_MASK & TRANSPARENT == TRANSPARENT) by (bit_vector);
    assert(OVERLAY_STYLE_MASK & TOPMOST == TOPMOST) by (bit_vector);
}

/// The observable attributes of a native window that the configurator may
/// touch or must leave alone: position, pixel size, and the extended style.
#[derive(Clone, Copy, PartialEq, Eq, Structural, Debug)]
pub struct WindowState {
    pub x: i32,
    pub y: i32,
    pub width: u32,
    pub height: u32,
    pub ex_style: u32,
}

/// What one overlay style write leaves behind: the extended style becomes
/// the overlay mask; position and size are untouched.
pub open spec fn spec_apply_overlay(w: WindowState) -> WindowState {
    WindowState {
        x: w.x,
        y: w.y,
        width: w.width,
        height: w.height,
        ex_style: OVERLAY_STYLE_MASK,
    }
}

/// Configure a window as the overlay: write the five-flag mask over its
/// extended style.  Everything else about the window — in particular its
/// size and position — is left as it was.
pub fn apply_overlay_style(w: &mut WindowState)
    ensures
        *final(w) == spec_apply_overlay(*old(w)),
        final(w).ex_style == OVERLAY_STYLE_MASK,
        final(w).width == old(w).width,
        final(w).height == old(w).height,
        final(w).x == old(w).x,
        final(w).y == old(w).y,
{
    w.ex_style = OVERLAY_STYLE_MASK;
}

/// Applying the overlay style twice leaves the window exactly as applying
/// it once does: the style write is idempotent.
pub proof fn lemma_overlay_style_idempotent(w: WindowState)
    ensures
        spec_apply_overlay(spec_apply_overlay(w)) == spec_apply_overlay(w),
{
}

/// The overlay style write never alters a window's size or position — only
/// its extended style.
pub proof fn lemma_overlay_preserves_geometry(w: WindowState)
    ensures
        spec_apply_overlay(w).x == w.x,
        spec_apply_overlay(w).y == w.y,
        spec_apply_overlay(w).width == w.width,
        spec_apply_overlay(w).height == w.height,
{
}

/// Failure to apply the overlay style.  Deliberately discardable: a failed
/// style write degrades the window to an ordinary one instead of aborting
/// startup.
#[derive(Clone, Copy, PartialEq, Eq, Structural, Debug)]
pub enum WindowStyleWriteError {
    /// The native style write reported failure instead of a previous value.
    WriteRejected,
}

/// Interpret the raw return of the native style-write primitive, which
/// reports the previous style value and uses zero as its failure signal.
pub fn classify_style_write(raw_status: i32) -> (r: Result<i32, WindowStyleWriteError>)
    ensures
        raw_status != 0 ==> r == Ok::<i32, WindowStyleWriteError>(raw_status),
        raw_status == 0 ==> r == Err::<i32, WindowStyleWriteError>(
            WindowStyleWriteError::WriteRejected,
        ),
{
    if raw_status != 0 {
        Ok(raw_status)
    } else {
        Err(WindowStyleWriteError::WriteRejected)
    }
}

} // verus!
