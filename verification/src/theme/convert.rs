//! From a legacy theme to a current one.

use vstd::prelude::*;
use crate::theme::color::Color;
use crate::theme::legacy::LegacyTheme;
use crate::theme::model::{PlayerTheme, SyntaxTheme, Theme, ThemeMetadata};

verus! {

/// The colours of one participant, as a legacy theme gives them.
#[derive(Debug, Clone, Copy, PartialEq, Eq)]
pub struct PlayerThemeColors {
    pub cursor: Color,
    pub selection: Color,
}

impl PlayerThemeColors {
    /// The colours of participant number `ix` in `theme`: those that the
    /// theme gives where it has that many participants, else the stand-in
    /// for a missing colour, twice.
    pub open spec fn of(theme: LegacyTheme, ix: int) -> PlayerThemeColors {
        if 0 <= ix < theme.players@.len() {
            PlayerThemeColors {
                cursor: theme.players@[ix].cursor,
                selection: theme.players@[ix].selection,
            }
        } else {
            PlayerThemeColors { cursor: Color::missing(), selection: Color::missing() }
        }
    }

    /// The colours of participant number `ix` in `theme`.
    pub fn new(theme: &LegacyTheme, ix: usize) -> (colors: Self)
        ensures
            colors == Self::of(*theme, ix as int),
    {
        if ix < theme.players.len() {
            PlayerThemeColors {
                cursor: theme.players[ix].cursor,
                selection: theme.players[ix].selection,
            }
        } else {
            PlayerThemeColors { cursor: Color::missing(), selection: Color::missing() }
        }
    }
}

/// The participant colours of a current theme that hold `colors`.
pub open spec fn player_theme_of(colors: PlayerThemeColors) -> PlayerTheme<Color> {
    PlayerTheme { cursor: colors.cursor, selection: colors.selection }
}

impl vstd::std_specs::convert::FromSpecImpl<PlayerThemeColors> for PlayerTheme<Color> {
    open spec fn obeys_from_spec() -> bool {
        true
    }

    open spec fn from_spec(value: PlayerThemeColors) -> PlayerTheme<Color> {
        player_theme_of(value)
    }
}

impl From<PlayerThemeColors> for PlayerTheme<Color> {
    fn from(value: PlayerThemeColors) -> (theme: Self) {
        PlayerTheme { cursor: value.cursor, selection: value.selection }
    }
}

/// The four syntax colours that a legacy theme names.
#[derive(Clone, Copy, PartialEq, Eq)]
pub struct SyntaxColor<C> {
    pub comment: C,
    pub string: C,
    pub function: C,
    pub keyword: C,
}

impl SyntaxColor<Color> {
    /// The syntax colours of `theme`: for each of the four scopes the colour
    /// that the theme gives it, else the stand-in for a missing colour.
    pub open spec fn of(theme: LegacyTheme) -> SyntaxColor<Color> {
        SyntaxColor {
            comment: scope_color(theme, "comment"@),
            string: scope_color(theme, "string"@),
            function: scope_color(theme, "function"@),
            keyword: scope_color(theme, "keyword"@),
        }
    }

    /// The syntax colours of `theme`.
    pub fn new(theme: &LegacyTheme) -> (colors: Self)
        ensures
            colors == Self::of(*theme),
    {
        SyntaxColor {
            comment: theme.syntax.get_or_missing("comment"),
            string: theme.syntax.get_or_missing("string"),
            function: theme.syntax.get_or_missing("function"),
            keyword: theme.syntax.get_or_missing("keyword"),
        }
    }
}

/// The colour that `theme` gives the syntax scope `scope`, or the stand-in
/// for a missing colour.
pub open spec fn scope_color(theme: LegacyTheme, scope: Seq<char>) -> Color {
    if theme.syntax@.contains_key(scope) {
        theme.syntax@[scope]
    } else {
        Color::missing()
    }
}

/// The syntax colours of a current theme that hold `colors`, with the given
/// further highlights.
pub open spec fn syntax_theme_of(
    colors: SyntaxColor<Color>,
    highlights: Vec<(String, Color)>,
) -> SyntaxTheme<Color> {
    SyntaxTheme {
        comment: colors.comment,
        string: colors.string,
        function: colors.function,
        keyword: colors.keyword,
        highlights,
    }
}

/// The conversion makes a new, empty list of highlights, which no
/// expression of a specification denotes: `from` describes its result by its
/// own postcondition instead of by `from_spec`.
impl vstd::std_specs::convert::FromSpecImpl<SyntaxColor<Color>> for SyntaxTheme<Color> {
    open spec fn obeys_from_spec() -> bool {
        false
    }

    open spec fn from_spec(value: SyntaxColor<Color>) -> SyntaxTheme<Color> {
        arbitrary()
    }
}

impl From<SyntaxColor<Color>> for SyntaxTheme<Color> {
    /// The four colours of `value`, and no further highlights.
    fn from(value: SyntaxColor<Color>) -> (theme: Self)
        ensures
            theme == syntax_theme_of(value, theme.highlights),
            theme.highlights@.len() == 0,
    {
        SyntaxTheme {
            comment: value.comment,
            string: value.string,
            keyword: value.keyword,
            function: value.function,
            highlights: Vec::new(),
        }
    }
}

/// The current theme that `theme` converts to, with the given further
/// syntax highlights.
///
/// Borders, surfaces, text and version-control colours come from the lowest,
/// middle and highest layer of the legacy theme; the window controls, the
/// hover and press overlays and the transparent colours are the same for
/// every theme.
pub open spec fn converted(theme: LegacyTheme, highlights: Vec<(String, Color)>) -> Theme<Color> {
    Theme {
        metadata: ThemeMetadata { name: theme.name, is_light: theme.is_light },
        transparent: Color::transparent(),
        mac_os_traffic_light_red: Color::Rgb(0xEC695E),
        mac_os_traffic_light_yellow: Color::Rgb(0xF4BF4F),
        mac_os_traffic_light_green: Color::Rgb(0x62C554),
        border: theme.lowest.base.default.border,
        border_variant: theme.lowest.variant.default.border,
        border_focused: theme.lowest.accent.default.border,
        border_transparent: Color::transparent(),
        elevated_surface: theme.lowest.base.default.background,
        surface: theme.middle.base.default.background,
        background: theme.lowest.base.default.background,
        filled_element: theme.lowest.base.default.background,
        filled_element_hover: Color::white_overlay(12),
        filled_element_active: Color::white_overlay(16),
        filled_element_selected: theme.lowest.accent.default.background,
        filled_element_disabled: Color::transparent(),
        ghost_element: Color::transparent(),
        ghost_element_hover: Color::white_overlay(8),
        ghost_element_active: Color::white_overlay(12),
        ghost_element_selected: theme.lowest.accent.default.background,
        ghost_element_disabled: Color::transparent(),
        text: theme.lowest.base.default.foreground,
        text_muted: theme.lowest.variant.default.foreground,
        text_placeholder: theme.lowest.negative.default.foreground,
        text_disabled: theme.lowest.base.disabled.foreground,
        text_accent: theme.lowest.accent.default.foreground,
        icon_muted: theme.lowest.variant.default.foreground,
        syntax: syntax_theme_of(SyntaxColor::of(theme), highlights),
        status_bar: theme.lowest.base.default.background,
        title_bar: theme.lowest.base.default.background,
        toolbar: theme.highest.base.default.background,
        tab_bar: theme.middle.base.default.background,
        editor: theme.highest.base.default.background,
        editor_subheader: theme.middle.base.default.background,
        terminal: theme.highest.base.default.background,
        editor_active_line: theme.highest.on.default.background,
        image_fallback_background: theme.lowest.base.default.background,
        git_created: theme.lowest.positive.default.foreground,
        git_modified: theme.lowest.accent.default.foreground,
        git_deleted: theme.lowest.negative.default.foreground,
        git_conflict: theme.lowest.warning.default.foreground,
        git_ignored: theme.lowest.base.disabled.foreground,
        git_renamed: theme.lowest.warning.default.foreground,
        players: [
            player_theme_of(PlayerThemeColors::of(theme, 0)),
            player_theme_of(PlayerThemeColors::of(theme, 1)),
            player_theme_of(PlayerThemeColors::of(theme, 2)),
            player_theme_of(PlayerThemeColors::of(theme, 3)),
            player_theme_of(PlayerThemeColors::of(theme, 4)),
            player_theme_of(PlayerThemeColors::of(theme, 5)),
            player_theme_of(PlayerThemeColors::of(theme, 6)),
            player_theme_of(PlayerThemeColors::of(theme, 7)),
        ],
    }
}

/// Converts a legacy theme. Every legacy theme converts; the result has no
/// further syntax highlights.
pub fn convert_theme(theme: LegacyTheme) -> (current: Theme<Color>)
    ensures
        current == converted(theme, current.syntax.highlights),
        current.syntax.highlights@.len() == 0,
{
    let players: [PlayerTheme<Color>; 8] = [
        PlayerTheme::from(PlayerThemeColors::new(&theme, 0)),
        PlayerTheme::from(PlayerThemeColors::new(&theme, 1)),
        PlayerTheme::from(PlayerThemeColors::new(&theme, 2)),
        PlayerTheme::from(PlayerThemeColors::new(&theme, 3)),
        PlayerTheme::from(PlayerThemeColors::new(&theme, 4)),
        PlayerTheme::from(PlayerThemeColors::new(&theme, 5)),
        PlayerTheme::from(PlayerThemeColors::new(&theme, 6)),
        PlayerTheme::from(PlayerThemeColors::new(&theme, 7)),
    ];
    let syntax = SyntaxTheme::from(SyntaxColor::new(&theme));
    let metadata = ThemeMetadata { name: theme.name.clone(), is_light: theme.is_light };
    Theme {
        metadata: metadata,
        transparent: Color::transparent(),
        mac_os_traffic_light_red: Color::Rgb(0xEC695E),
        mac_os_traffic_light_yellow: Color::Rgb(0xF4BF4F),
        mac_os_traffic_light_green: Color::Rgb(0x62C554),
        border: theme.lowest.base.default.border,
        border_variant: theme.lowest.variant.default.border,
        border_focused: theme.lowest.accent.default.border,
        border_transparent: Color::transparent(),
        elevated_surface: theme.lowest.base.default.background,
        surface: theme.middle.base.default.background,
        background: theme.lowest.base.default.background,
        filled_element: theme.lowest.base.default.background,
        filled_element_hover: Color::white_overlay(12),
        filled_element_active: Color::white_overlay(16),
        filled_element_selected: theme.lowest.accent.default.background,
        filled_element_disabled: Color::transparent(),
        ghost_element: Color::transparent(),
        ghost_element_hover: Color::white_overlay(8),
        ghost_element_active: Color::white_overlay(12),
        ghost_element_selected: theme.lowest.accent.default.background,
        ghost_element_disabled: Color::transparent(),
        text: theme.lowest.base.default.foreground,
        text_muted: theme.lowest.variant.default.foreground,
        text_placeholder: theme.lowest.negative.default.foreground,
        text_disabled: theme.lowest.base.disabled.foreground,
        text_accent: theme.lowest.accent.default.foreground,
        icon_muted: theme.lowest.variant.default.foreground,
        syntax: syntax,
        status_bar: theme.lowest.base.default.background,
        title_bar: theme.lowest.base.default.background,
        toolbar: theme.highest.base.default.background,
        tab_bar: theme.middle.base.default.background,
        editor: theme.highest.base.default.background,
        editor_subheader: theme.middle.base.default.background,
        terminal: theme.highest.base.default.background,
        editor_active_line: theme.highest.on.default.background,
        image_fallback_background: theme.lowest.base.default.background,
        git_created: theme.lowest.positive.default.foreground,
        git_modified: theme.lowest.accent.default.foreground,
        git_deleted: theme.lowest.negative.default.foreground,
        git_conflict: theme.lowest.warning.default.foreground,
        git_ignored: theme.lowest.base.disabled.foreground,
        git_renamed: theme.lowest.warning.default.foreground,
        players: players,
    }
}

} // verus!
