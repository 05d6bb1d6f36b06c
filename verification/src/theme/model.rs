//! The current theme description.
//!
//! The types are generic in `C`, the form in which a colour is held: a
//! `Color` while a theme is converted, a `String` once every colour has been
//! rendered for printing.

use vstd::prelude::*;

verus! {

/// Name and kind of a theme.
#[derive(Debug, Clone, PartialEq, Eq)]
pub struct ThemeMetadata {
    pub name: String,
    pub is_light: bool,
}

/// The colours that mark one participant of a shared session.
#[derive(Debug, Clone, Copy, PartialEq, Eq)]
pub struct PlayerTheme<C> {
    pub cursor: C,
    pub selection: C,
}

/// The colours of source text.
#[derive(Debug, Clone, PartialEq, Eq)]
pub struct SyntaxTheme<C> {
    pub comment: C,
    pub string: C,
    pub function: C,
    pub keyword: C,
    /// Further highlights, each a scope name with its style in the form
    /// `C`.
    pub highlights: Vec<(String, C)>,
}

/// A theme.
#[derive(Debug, Clone, PartialEq, Eq)]
pub struct Theme<C> {
    pub metadata: ThemeMetadata,
    pub transparent: C,
    pub mac_os_traffic_light_red: C,
    pub mac_os_traffic_light_yellow: C,
    pub mac_os_traffic_light_green: C,
    pub border: C,
    pub border_variant: C,
    pub border_focused: C,
    pub border_transparent: C,
    pub elevated_surface: C,
    pub surface: C,
    pub background: C,
    pub filled_element: C,
    pub filled_element_hover: C,
    pub filled_element_active: C,
    pub filled_element_selected: C,
    pub filled_element_disabled: C,
    pub ghost_element: C,
    pub ghost_element_hover: C,
    pub ghost_element_active: C,
    pub ghost_element_selected: C,
    pub ghost_element_disabled: C,
    pub text: C,
    pub text_muted: C,
    pub text_placeholder: C,
    pub text_disabled: C,
    pub text_accent: C,
    pub icon_muted: C,
    pub syntax: SyntaxTheme<C>,
    pub status_bar: C,
    pub title_bar: C,
    pub toolbar: C,
    pub tab_bar: C,
    pub editor: C,
    pub editor_subheader: C,
    pub terminal: C,
    pub editor_active_line: C,
    pub image_fallback_background: C,
    pub git_created: C,
    pub git_modified: C,
    pub git_deleted: C,
    pub git_conflict: C,
    pub git_ignored: C,
    pub git_renamed: C,
    pub players: [PlayerTheme<C>; 8],
}

} // verus!
