//! Display and window-list identifiers.
//!
//! The display enumeration calls themselves are plain foreign queries with
//! no logic to verify; what belongs here is the documented constant table:
//! the window-list option bits, as an enumerated mapping with the native
//! library's numeric tags.

use vstd::prelude::*;

verus! {

/// A display identifier.
pub type CGDirectDisplayID = u32;

/// A window identifier.  Zero names no window.
pub type CGWindowID = u32;

/// The raw option word of a window-list query.
pub type CGWindowListOption = u32;

/// The window identifier that names no window.
pub const NULL_WINDOW_ID: CGWindowID = 0;

/// The options of a window-list query, one per documented native bit.
#[derive(Clone, Copy, Debug, PartialEq, Eq, Structural)]
pub enum WindowListOption {
    All,
    OnScreenOnly,
    OnScreenAboveWindow,
    OnScreenBelowWindow,
    IncludingWindow,
    ExcludeDesktopElements,
}

/// The bit the native library documents for each window-list option.
/// `All` is the empty mask, not a bit of its own.
pub open spec fn window_list_option_bits(o: WindowListOption) -> u32 {
    match o {
        WindowListOption::All => 0,
        WindowListOption::OnScreenOnly => 1,
        WindowListOption::OnScreenAboveWindow => 2,
        WindowListOption::OnScreenBelowWindow => 4,
        WindowListOption::IncludingWindow => 8,
        WindowListOption::ExcludeDesktopElements => 16,
    }
}

/// The combined mask of a sequence of options.
pub open spec fn spec_options_mask(s: Seq<WindowListOption>) -> u32
    decreases s.len(),
{
    if s.len() == 0 {
        0u32
    } else {
        spec_options_mask(s.drop_last()) | window_list_option_bits(s.last())
    }
}

impl WindowListOption {
    /// The raw native bit of this option.
    pub fn to_u32(&self) -> (r: u32)
        ensures
            r == window_list_option_bits(*self),
    {
        match *self {
            WindowListOption::All => 0,
            WindowListOption::OnScreenOnly => 1,
            WindowListOption::OnScreenAboveWindow => 2,
            WindowListOption::OnScreenBelowWindow => 4,
            WindowListOption::IncludingWindow => 8,
            WindowListOption::ExcludeDesktopElements => 16,
        }
    }
}

/// The raw option word of a window-list query: the given options, combined
/// bit by bit.
pub fn window_list_options_mask(options: &Vec<WindowListOption>) -> (r: u32)
    ensures
        r == spec_options_mask(options@),
{
    let mut r: u32 = 0;
    let mut i: usize = 0;
    while i < options.len()
        invariant
            i <= options.len(),
            r == spec_options_mask(options@.subrange(0, i as int)),
        decreases options.len() - i,
    {
        r = r | options[i].to_u32();
        proof {
            let prefix = options@.subrange(0, i + 1);
            assert(prefix.drop_last() =~= options@.subrange(0, i as int));
            assert(prefix.last() == options@[i as int]);
        }
        i = i + 1;
    }
    proof {
        assert(options@.subrange(0, options@.len() as int) =~= options@);
    }
    r
}

} // verus!
