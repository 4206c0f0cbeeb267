//! The host window's fullscreen state, read from its flags and flipped.

use vstd::prelude::*;

verus! {

/// How the host is asked to show the window.
#[derive(Clone, Copy, Debug, PartialEq, Eq, Structural)]
pub enum FullscreenMode {
    /// As a window.
    Off,
    /// Over the whole desktop, at the desktop's resolution.
    Desktop,
}

/// The bit of the host's window flags that is set on a fullscreen window.
pub const FULLSCREEN_FLAG: u32 = 0x0000_0001;

/// The bits of the window flags that the host sets for desktop fullscreen
/// and clears for a window.
pub const FULLSCREEN_DESKTOP_FLAGS: u32 = 0x0000_1001;

impl FullscreenMode {
    /// The bits by which the host names the mode.
    pub open spec fn bits_of(self) -> u32 {
        match self {
            FullscreenMode::Off => 0,
            FullscreenMode::Desktop => FULLSCREEN_DESKTOP_FLAGS,
        }
    }

    pub fn bits(self) -> (bits: u32)
        ensures
            bits == self.bits_of(),
    {
        match self {
            FullscreenMode::Off => 0,
            FullscreenMode::Desktop => FULLSCREEN_DESKTOP_FLAGS,
        }
    }
}

/// Whether window flags are those of a fullscreen window.
pub open spec fn shown_fullscreen(flags: u32) -> bool {
    flags & FULLSCREEN_FLAG != 0
}

/// The mode that flips the fullscreen state of a window with these flags.
pub open spec fn flipped(flags: u32) -> FullscreenMode {
    if shown_fullscreen(flags) {
        FullscreenMode::Off
    } else {
        FullscreenMode::Desktop
    }
}

/// The flags of a window after the host has put it into `mode`: the
/// fullscreen bits are cleared and those of the mode set; the others stay.
pub open spec fn flags_after(flags: u32, mode: FullscreenMode) -> u32 {
    (flags & !FULLSCREEN_DESKTOP_FLAGS) | mode.bits_of()
}

pub fn is_fullscreen(flags: u32) -> (fullscreen: bool)
    ensures
        fullscreen == shown_fullscreen(flags),
{
    flags & FULLSCREEN_FLAG != 0
}

/// The mode to ask of the host so that a window with these flags changes
/// between windowed and fullscreen.
pub fn toggle_fullscreen(flags: u32) -> (mode: FullscreenMode)
    ensures
        mode == flipped(flags),
{
    if is_fullscreen(flags) {
        FullscreenMode::Off
    } else {
        FullscreenMode::Desktop
    }
}

/// One toggle changes whether the window is fullscreen, and two in a row
/// bring back the state it started from: the same answer to "fullscreen?",
/// the same next toggle, every other flag untouched, and the very same
/// flags where the window started as a window or in desktop fullscreen.
pub proof fn lemma_fullscreen_toggle_involutive(flags: u32)
    ensures
        shown_fullscreen(flags_after(flags, flipped(flags))) == !shown_fullscreen(flags),
        ({
            let once = flags_after(flags, flipped(flags));
            let twice = flags_after(once, flipped(once));
            &&& shown_fullscreen(twice) == shown_fullscreen(flags)
            &&& flipped(twice) == flipped(flags)
            &&& twice & !FULLSCREEN_DESKTOP_FLAGS == flags & !FULLSCREEN_DESKTOP_FLAGS
            &&& (flags & FULLSCREEN_DESKTOP_FLAGS == 0 || flags & FULLSCREEN_DESKTOP_FLAGS
                == FULLSCREEN_DESKTOP_FLAGS) ==> twice == flags
        }),
{
    assert(((flags & !0x1001u32) | 0u32) & 1u32 == 0) by (bit_vector);
    assert(((flags & !0x1001u32) | 0x1001u32) & 1u32 != 0) by (bit_vector);
    assert((((flags & !0x1001u32) | 0u32) & !0x1001u32) | 0x1001u32 == (flags & !0x1001u32)
        | 0x1001u32) by (bit_vector);
    assert((((flags & !0x1001u32) | 0x1001u32) & !0x1001u32) | 0u32 == (flags & !0x1001u32)
        | 0u32) by (bit_vector);
    assert(((flags & !0x1001u32) | 0u32) & !0x1001u32 == flags & !0x1001u32) by (bit_vector);
    assert(((flags & !0x1001u32) | 0x1001u32) & !0x1001u32 == flags & !0x1001u32)
        by (bit_vector);
    assert(flags & 0x1001u32 == 0 ==> (flags & !0x1001u32) | 0u32 == flags && flags & 1u32 == 0)
        by (bit_vector);
    assert(flags & 0x1001u32 == 0x1001u32 ==> (flags & !0x1001u32) | 0x1001u32 == flags && flags
        & 1u32 != 0) by (bit_vector);
}

} // verus!
