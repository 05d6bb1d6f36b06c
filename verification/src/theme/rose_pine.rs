//! The Rosé Pine themes.

use vstd::prelude::*;
use crate::theme::color::Color;
use crate::theme::model::Theme;
use crate::theme::palette::{paint, painted, PALETTE_LEN};

verus! {

/// The palette of Rosé Pine.
pub const ROSE_PINE: [u32; PALETTE_LEN] = [
    0x00000000,  // transparent
    0xec695eff,  // mac_os_traffic_light_red
    0xf4bf4eff,  // mac_os_traffic_light_yellow
    0x61c553ff,  // mac_os_traffic_light_green
    0x423f55ff,  // border
    0x423f55ff,  // border_variant
    0x435255ff,  // border_focused
    0x00000000,  // border_transparent
    0x292738ff,  // elevated_surface
    0x1c1b2aff,  // surface
    0x292738ff,  // background
    0x292738ff,  // filled_element
    0xffffff1e,  // filled_element_hover
    0xffffff28,  // filled_element_active
    0x2f3639ff,  // filled_element_selected
    0x00000000,  // filled_element_disabled
    0x00000000,  // ghost_element
    0xffffff14,  // ghost_element_hover
    0xffffff1e,  // ghost_element_active
    0x2f3639ff,  // ghost_element_selected
    0x00000000,  // ghost_element_disabled
    0xe0def4ff,  // text
    0x74708dff,  // text_muted
    0xea6e92ff,  // text_placeholder
    0x2f2b43ff,  // text_disabled
    0x9bced6ff,  // text_accent
    0x74708dff,  // icon_muted
    0x6e6a86ff,  // syntax.comment
    0xf5c177ff,  // syntax.string
    0xebbcbaff,  // syntax.function
    0x30738fff,  // syntax.keyword
    0x292738ff,  // status_bar
    0x292738ff,  // title_bar
    0x191724ff,  // toolbar
    0x1c1b2aff,  // tab_bar
    0x191724ff,  // editor
    0x1c1b2aff,  // editor_subheader
    0x1c1b2aff,  // editor_active_line
    0x191724ff,  // terminal
    0x292738ff,  // image_fallback_background
    0x5cc1a3ff,  // git_created
    0x9bced6ff,  // git_modified
    0xea6e92ff,  // git_deleted
    0xf5c177ff,  // git_conflict
    0x2f2b43ff,  // git_ignored
    0xf5c177ff,  // git_renamed
    0x9bced6ff,  // players[0].cursor
    0x9bced63d,  // players[0].selection
    0x5cc1a3ff,  // players[1].cursor
    0x5cc1a33d,  // players[1].selection
    0x9d7591ff,  // players[2].cursor
    0x9d75913d,  // players[2].selection
    0xc4a7e6ff,  // players[3].cursor
    0xc4a7e63d,  // players[3].selection
    0xc4a7e6ff,  // players[4].cursor
    0xc4a7e63d,  // players[4].selection
    0x31738fff,  // players[5].cursor
    0x31738f3d,  // players[5].selection
    0xea6e92ff,  // players[6].cursor
    0xea6e923d,  // players[6].selection
    0xf5c177ff,  // players[7].cursor
    0xf5c1773d,  // players[7].selection
];

/// The palette of Rosé Pine Dawn.
pub const ROSE_PINE_DAWN: [u32; PALETTE_LEN] = [
    0x00000000,  // transparent
    0xec695eff,  // mac_os_traffic_light_red
    0xf4bf4eff,  // mac_os_traffic_light_yellow
    0x61c553ff,  // mac_os_traffic_light_green
    0xdcd6d5ff,  // border
    0xdcd6d5ff,  // border_variant
    0xc3d7dbff,  // border_focused
    0x00000000,  // border_transparent
    0xdcd8d8ff,  // elevated_surface
    0xfef9f2ff,  // surface
    0xdcd8d8ff,  // background
    0xdcd8d8ff,  // filled_element
    0xffffff1e,  // filled_element_hover
    0xffffff28,  // filled_element_active
    0xdde9ebff,  // filled_element_selected
    0x00000000,  // filled_element_disabled
    0x00000000,  // ghost_element
    0xffffff14,  // ghost_element_hover
    0xffffff1e,  // ghost_element_active
    0xdde9ebff,  // ghost_element_selected
    0x00000000,  // ghost_element_disabled
    0x575279ff,  // text
    0x706c8cff,  // text_muted
    0xb4647aff,  // text_placeholder
    0x938fa3ff,  // text_disabled
    0x57949fff,  // text_accent
    0x706c8cff,  // icon_muted
    0x9893a5ff,  // syntax.comment
    0xea9d34ff,  // syntax.string
    0xd7827dff,  // syntax.function
    0x276983ff,  // syntax.keyword
    0xdcd8d8ff,  // status_bar
    0xdcd8d8ff,  // title_bar
    0xfaf4edff,  // toolbar
    0xfef9f2ff,  // tab_bar
    0xfaf4edff,  // editor
    0xfef9f2ff,  // editor_subheader
    0xfef9f2ff,  // editor_active_line
    0xfaf4edff,  // terminal
    0xdcd8d8ff,  // image_fallback_background
    0x3daa8eff,  // git_created
    0x57949fff,  // git_modified
    0xb4647aff,  // git_deleted
    0xe99d35ff,  // git_conflict
    0x938fa3ff,  // git_ignored
    0xe99d35ff,  // git_renamed
    0x57949fff,  // players[0].cursor
    0x57949f3d,  // players[0].selection
    0x3daa8eff,  // players[1].cursor
    0x3daa8e3d,  // players[1].selection
    0x7c697fff,  // players[2].cursor
    0x7c697f3d,  // players[2].selection
    0x9079a9ff,  // players[3].cursor
    0x9079a93d,  // players[3].selection
    0x9079a9ff,  // players[4].cursor
    0x9079a93d,  // players[4].selection
    0x296983ff,  // players[5].cursor
    0x2969833d,  // players[5].selection
    0xb4647aff,  // players[6].cursor
    0xb4647a3d,  // players[6].selection
    0xe99d35ff,  // players[7].cursor
    0xe99d353d,  // players[7].selection
];

/// The palette of Rosé Pine Moon.
pub const ROSE_PINE_MOON: [u32; PALETTE_LEN] = [
    0x00000000,  // transparent
    0xec695eff,  // mac_os_traffic_light_red
    0xf4bf4eff,  // mac_os_traffic_light_yellow
    0x61c553ff,  // mac_os_traffic_light_green
    0x504c68ff,  // border
    0x504c68ff,  // border_variant
    0x435255ff,  // border_focused
    0x00000000,  // border_transparent
    0x38354eff,  // elevated_surface
    0x28253cff,  // surface
    0x38354eff,  // background
    0x38354eff,  // filled_element
    0xffffff1e,  // filled_element_hover
    0xffffff28,  // filled_element_active
    0x2f3639ff,  // filled_element_selected
    0x00000000,  // filled_element_disabled
    0x00000000,  // ghost_element
    0xffffff14,  // ghost_element_hover
    0xffffff1e,  // ghost_element_active
    0x2f3639ff,  // ghost_element_selected
    0x00000000,  // ghost_element_disabled
    0xe0def4ff,  // text
    0x85819eff,  // text_muted
    0xea6e92ff,  // text_placeholder
    0x605d7aff,  // text_disabled
    0x9bced6ff,  // text_accent
    0x85819eff,  // icon_muted
    0x6e6a86ff,  // syntax.comment
    0xf5c177ff,  // syntax.string
    0xea9a97ff,  // syntax.function
    0x3d8fb0ff,  // syntax.keyword
    0x38354eff,  // status_bar
    0x38354eff,  // title_bar
    0x232136ff,  // toolbar
    0x28253cff,  // tab_bar
    0x232136ff,  // editor
    0x28253cff,  // editor_subheader
    0x28253cff,  // editor_active_line
    0x232136ff,  // terminal
    0x38354eff,  // image_fallback_background
    0x5cc1a3ff,  // git_created
    0x9bced6ff,  // git_modified
    0xea6e92ff,  // git_deleted
    0xf5c177ff,  // git_conflict
    0x605d7aff,  // git_ignored
    0xf5c177ff,  // git_renamed
    0x9bced6ff,  // players[0].cursor
    0x9bced63d,  // players[0].selection
    0x5cc1a3ff,  // players[1].cursor
    0x5cc1a33d,  // players[1].selection
    0xa683a0ff,  // players[2].cursor
    0xa683a03d,  // players[2].selection
    0xc4a7e6ff,  // players[3].cursor
    0xc4a7e63d,  // players[3].selection
    0xc4a7e6ff,  // players[4].cursor
    0xc4a7e63d,  // players[4].selection
    0x3e8fb0ff,  // players[5].cursor
    0x3e8fb03d,  // players[5].selection
    0xea6e92ff,  // players[6].cursor
    0xea6e923d,  // players[6].selection
    0xf5c177ff,  // players[7].cursor
    0xf5c1773d,  // players[7].selection
];

/// Rosé Pine, a dark theme.
pub fn rose_pine() -> (theme: Theme<Color>)
    ensures
        theme == painted(theme.metadata.name, false, ROSE_PINE@, theme.syntax.highlights),
        theme.metadata.name@ == "Rosé Pine"@,
        theme.syntax.highlights@.len() == 0,
{
    paint("Rosé Pine".to_owned(), false, &ROSE_PINE)
}

/// Rosé Pine Dawn, a light theme.
pub fn rose_pine_dawn() -> (theme: Theme<Color>)
    ensures
        theme == painted(theme.metadata.name, true, ROSE_PINE_DAWN@, theme.syntax.highlights),
        theme.metadata.name@ == "Rosé Pine Dawn"@,
        theme.syntax.highlights@.len() == 0,
{
    paint("Rosé Pine Dawn".to_owned(), true, &ROSE_PINE_DAWN)
}

/// Rosé Pine Moon, a dark theme.
pub fn rose_pine_moon() -> (theme: Theme<Color>)
    ensures
        theme == painted(theme.metadata.name, false, ROSE_PINE_MOON@, theme.syntax.highlights),
        theme.metadata.name@ == "Rosé Pine Moon"@,
        theme.syntax.highlights@.len() == 0,
{
    paint("Rosé Pine Moon".to_owned(), false, &ROSE_PINE_MOON)
}

} // verus!
