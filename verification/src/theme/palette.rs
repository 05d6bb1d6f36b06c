//! Themes that are given as a palette: the colours of all fields, in one
//! fixed order.

use vstd::prelude::*;
use crate::theme::color::Color;
use crate::theme::model::{PlayerTheme, SyntaxTheme, Theme, ThemeMetadata};

verus! {

/// The number of colours in a theme.
pub const PALETTE_LEN: usize = 62;

/// The theme `name` whose colours are those of `palette`, each `0xRRGGBBAA`,
/// in the order of the fields: the colours of the interface up to
/// `icon_muted`, the four syntax colours, the colours from `status_bar` to
/// `git_renamed`, at last cursor and selection of each of the eight
/// participants.
pub open spec fn painted(
    name: String,
    is_light: bool,
    palette: Seq<u32>,
    highlights: Vec<(String, Color)>,
) -> Theme<Color> {
    Theme {
        metadata: ThemeMetadata { name, is_light },
        transparent: Color::Rgba(palette[0]),
        mac_os_traffic_light_red: Color::Rgba(palette[1]),
        mac_os_traffic_light_yellow: Color::Rgba(palette[2]),
        mac_os_traffic_light_green: Color::Rgba(palette[3]),
        border: Color::Rgba(palette[4]),
        border_variant: Color::Rgba(palette[5]),
        border_focused: Color::Rgba(palette[6]),
        border_transparent: Color::Rgba(palette[7]),
        elevated_surface: Color::Rgba(palette[8]),
        surface: Color::Rgba(palette[9]),
        background: Color::Rgba(palette[10]),
        filled_element: Color::Rgba(palette[11]),
        filled_element_hover: Color::Rgba(palette[12]),
        filled_element_active: Color::Rgba(palette[13]),
        filled_element_selected: Color::Rgba(palette[14]),
        filled_element_disabled: Color::Rgba(palette[15]),
        ghost_element: Color::Rgba(palette[16]),
        ghost_element_hover: Color::Rgba(palette[17]),
        ghost_element_active: Color::Rgba(palette[18]),
        ghost_element_selected: Color::Rgba(palette[19]),
        ghost_element_disabled: Color::Rgba(palette[20]),
        text: Color::Rgba(palette[21]),
        text_muted: Color::Rgba(palette[22]),
        text_placeholder: Color::Rgba(palette[23]),
        text_disabled: Color::Rgba(palette[24]),
        text_accent: Color::Rgba(palette[25]),
        icon_muted: Color::Rgba(palette[26]),
        syntax: SyntaxTheme {
            comment: Color::Rgba(palette[27]),
            string: Color::Rgba(palette[28]),
            function: Color::Rgba(palette[29]),
            keyword: Color::Rgba(palette[30]),
            highlights,
        },
        status_bar: Color::Rgba(palette[31]),
        title_bar: Color::Rgba(palette[32]),
        toolbar: Color::Rgba(palette[33]),
        tab_bar: Color::Rgba(palette[34]),
        editor: Color::Rgba(palette[35]),
        editor_subheader: Color::Rgba(palette[36]),
        editor_active_line: Color::Rgba(palette[37]),
        terminal: Color::Rgba(palette[38]),
        image_fallback_background: Color::Rgba(palette[39]),
        git_created: Color::Rgba(palette[40]),
        git_modified: Color::Rgba(palette[41]),
        git_deleted: Color::Rgba(palette[42]),
        git_conflict: Color::Rgba(palette[43]),
        git_ignored: Color::Rgba(palette[44]),
        git_renamed: Color::Rgba(palette[45]),
        players: [
            PlayerTheme { cursor: Color::Rgba(palette[46]), selection: Color::Rgba(palette[47]) },
            PlayerTheme { cursor: Color::Rgba(palette[48]), selection: Color::Rgba(palette[49]) },
            PlayerTheme { cursor: Color::Rgba(palette[50]), selection: Color::Rgba(palette[51]) },
            PlayerTheme { cursor: Color::Rgba(palette[52]), selection: Color::Rgba(palette[53]) },
            PlayerTheme { cursor: Color::Rgba(palette[54]), selection: Color::Rgba(palette[55]) },
            PlayerTheme { cursor: Color::Rgba(palette[56]), selection: Color::Rgba(palette[57]) },
            PlayerTheme { cursor: Color::Rgba(palette[58]), selection: Color::Rgba(palette[59]) },
            PlayerTheme { cursor: Color::Rgba(palette[60]), selection: Color::Rgba(palette[61]) },
        ],
    }
}

/// Makes the theme `name` from its palette. It has no further syntax
/// highlights.
pub fn paint(name: String, is_light: bool, palette: &[u32; PALETTE_LEN]) -> (theme: Theme<Color>)
    ensures
        theme == painted(name, is_light, palette@, theme.syntax.highlights),
        theme.syntax.highlights@.len() == 0,
{
    Theme {
        metadata: ThemeMetadata { name, is_light },
        transparent: Color::Rgba(palette[0]),
        mac_os_traffic_light_red: Color::Rgba(palette[1]),
        mac_os_traffic_light_yellow: Color::Rgba(palette[2]),
        mac_os_traffic_light_green: Color::Rgba(palette[3]),
        border: Color::Rgba(palette[4]),
        border_variant: Color::Rgba(palette[5]),
        border_focused: Color::Rgba(palette[6]),
        border_transparent: Color::Rgba(palette[7]),
        elevated_surface: Color::Rgba(palette[8]),
        surface: Color::Rgba(palette[9]),
        background: Color::Rgba(palette[10]),
        filled_element: Color::Rgba(palette[11]),
        filled_element_hover: Color::Rgba(palette[12]),
        filled_element_active: Color::Rgba(palette[13]),
        filled_element_selected: Color::Rgba(palette[14]),
        filled_element_disabled: Color::Rgba(palette[15]),
        ghost_element: Color::Rgba(palette[16]),
        ghost_element_hover: Color::Rgba(palette[17]),
        ghost_element_active: Color::Rgba(palette[18]),
        ghost_element_selected: Color::Rgba(palette[19]),
        ghost_element_disabled: Color::Rgba(palette[20]),
        text: Color::Rgba(palette[21]),
        text_muted: Color::Rgba(palette[22]),
        text_placeholder: Color::Rgba(palette[23]),
        text_disabled: Color::Rgba(palette[24]),
        text_accent: Color::Rgba(palette[25]),
        icon_muted: Color::Rgba(palette[26]),
        syntax: SyntaxTheme {
            comment: Color::Rgba(palette[27]),
            string: Color::Rgba(palette[28]),
            function: Color::Rgba(palette[29]),
            keyword: Color::Rgba(palette[30]),
            highlights: Vec::new(),
        },
        status_bar: Color::Rgba(palette[31]),
        title_bar: Color::Rgba(palette[32]),
        toolbar: Color::Rgba(palette[33]),
        tab_bar: Color::Rgba(palette[34]),
        editor: Color::Rgba(palette[35]),
        editor_subheader: Color::Rgba(palette[36]),
        editor_active_line: Color::Rgba(palette[37]),
        terminal: Color::Rgba(palette[38]),
        image_fallback_background: Color::Rgba(palette[39]),
        git_created: Color::Rgba(palette[40]),
        git_modified: Color::Rgba(palette[41]),
        git_deleted: Color::Rgba(palette[42]),
        git_conflict: Color::Rgba(palette[43]),
        git_ignored: Color::Rgba(palette[44]),
        git_renamed: Color::Rgba(palette[45]),
        players: [
            PlayerTheme { cursor: Color::Rgba(palette[46]), selection: Color::Rgba(palette[47]) },
            PlayerTheme { cursor: Color::Rgba(palette[48]), selection: Color::Rgba(palette[49]) },
            PlayerTheme { cursor: Color::Rgba(palette[50]), selection: Color::Rgba(palette[51]) },
            PlayerTheme { cursor: Color::Rgba(palette[52]), selection: Color::Rgba(palette[53]) },
            PlayerTheme { cursor: Color::Rgba(palette[54]), selection: Color::Rgba(palette[55]) },
            PlayerTheme { cursor: Color::Rgba(palette[56]), selection: Color::Rgba(palette[57]) },
            PlayerTheme { cursor: Color::Rgba(palette[58]), selection: Color::Rgba(palette[59]) },
            PlayerTheme { cursor: Color::Rgba(palette[60]), selection: Color::Rgba(palette[61]) },
        ],
    }
}

} // verus!
