//! The window-list option table: documented bits and mask combination.

use cgbridge::display::{window_list_options_mask, WindowListOption, NULL_WINDOW_ID};

#[test]
fn option_bits_match_documented_values() {
    assert_eq!(WindowListOption::All.to_u32(), 0);
    assert_eq!(WindowListOption::OnScreenOnly.to_u32(), 1);
    assert_eq!(WindowListOption::OnScreenAboveWindow.to_u32(), 1 << 1);
    assert_eq!(WindowListOption::OnScreenBelowWindow.to_u32(), 1 << 2);
    assert_eq!(WindowListOption::IncludingWindow.to_u32(), 1 << 3);
    assert_eq!(WindowListOption::ExcludeDesktopElements.to_u32(), 1 << 4);
    assert_eq!(NULL_WINDOW_ID, 0);
}

#[test]
fn options_combine_by_bit() {
    assert_eq!(window_list_options_mask(&vec![]), 0);
    assert_eq!(window_list_options_mask(&vec![WindowListOption::All]), 0);
    assert_eq!(
        window_list_options_mask(&vec![
            WindowListOption::OnScreenOnly,
            WindowListOption::ExcludeDesktopElements,
        ]),
        17
    );
    assert_eq!(
        window_list_options_mask(&vec![
            WindowListOption::OnScreenOnly,
            WindowListOption::OnScreenOnly,
            WindowListOption::IncludingWindow,
        ]),
        9
    );
}
