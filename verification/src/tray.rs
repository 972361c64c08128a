//! The tray icon's appearance and menu layout: theme colours, the icon font,
//! and where separators go.
use vstd::prelude::*;

verus! {

/// A colour as red, green and blue components.
pub type Rgb = (u8, u8, u8);

/// Whether the theme setting `AppsUseLightTheme` asks for dark mode: only a stored
/// value of 0 does; a missing value means light mode.
pub fn dark_mode_from_setting(apps_use_light_theme: Option<u32>) -> (dark: bool)
    ensures
        dark == (apps_use_light_theme == Some(0u32)),
{
    match apps_use_light_theme {
        Some(v) => v == 0,
        None => false,
    }
}

/// Background and text colours of the icon: white on dark grey in dark mode, black on
/// light grey otherwise.
pub open spec fn spec_theme_colors(dark: bool) -> (Rgb, Rgb) {
    if dark {
        ((32u8, 32u8, 32u8), (255u8, 255u8, 255u8))
    } else {
        ((240u8, 240u8, 240u8), (0u8, 0u8, 0u8))
    }
}

/// The icon's background and text colours for the theme.
pub fn theme_colors(dark: bool) -> (c: (Rgb, Rgb))
    ensures
        c == spec_theme_colors(dark),
{
    if dark {
        ((32, 32, 32), (255, 255, 255))
    } else {
        ((240, 240, 240), (0, 0, 0))
    }
}

/// A colour as a Win32 `COLORREF` value: `0x00BBGGRR`.
pub fn colorref(c: Rgb) -> (v: u32)
    ensures
        v == c.0 as u32 + 256 * (c.1 as u32) + 65536 * (c.2 as u32),
{
    let r = c.0 as u32;
    let g = c.1 as u32;
    let b = c.2 as u32;
    let v = r | g << 8 | b << 16;
    assert(r < 256 && g < 256 && b < 256 ==> (r | g << 8 | b << 16) == r + 256 * g + 65536 * b)
        by (bit_vector);
    v
}

/// Height of the icon's font for an icon `cy` pixels high: 4 pixels less on icons
/// under 20 pixels, 6 less otherwise.
pub open spec fn spec_font_height(cy: int) -> int {
    if cy < 20 {
        cy - 4
    } else {
        cy - 6
    }
}

/// The font height for an icon `cy` pixels high.
pub fn icon_font_height(cy: i32) -> (h: i32)
    requires
        cy >= i32::MIN + 4,
    ensures
        h == spec_font_height(cy as int),
{
    if cy < 20 {
        cy - 4
    } else {
        cy - 6
    }
}

/// The menu positions that become separators: every entry with an empty label except
/// the first.
pub fn menu_separators(labels: &Vec<String>) -> (sep: Vec<bool>)
    ensures
        sep@.len() == labels@.len(),
        forall|i: int| 0 <= i < labels@.len() ==> sep@[i] == (i > 0 && labels@[i]@.len() == 0),
{
    let mut sep: Vec<bool> = Vec::new();
    let mut i: usize = 0;
    while i < labels.len()
        invariant
            i <= labels@.len(),
            sep@.len() == i,
            forall|j: int| 0 <= j < i ==> sep@[j] == (j > 0 && labels@[j]@.len() == 0),
        decreases labels@.len() - i,
    {
        let empty = labels[i].as_str().unicode_len() == 0;
        sep.push(i > 0 && empty);
        i = i + 1;
    }
    sep
}

} // verus!
