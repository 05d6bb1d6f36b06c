//! Themes as text, in the form that the derived `Debug` of a struct has.
//!
//! A printer holds a theme whose colours have been rendered already: each
//! colour is the text that stands for it, which is printed as a string,
//! between quotes.

use vstd::prelude::*;
use vstd::string::*;
use crate::theme::convert::SyntaxColor;
use crate::theme::model::{PlayerTheme, SyntaxTheme, Theme, ThemeMetadata};

verus! {

/// What `{:?}` prints for the string `text`: the text between double quotes,
/// with the characters escaped that the standard library escapes.
pub uninterp spec fn debug_text(text: Seq<char>) -> Seq<char>;

/// `format!("{:?}", text)`: the `Debug` form that the standard library gives
/// a string slice.
///
/// Trusted: the result depends on the characters of `text` alone. Nothing
/// more is claimed of it; `debug_text` is its name.
#[verifier::external_body]
fn debug_quoted(text: &str) -> (quoted: String)
    ensures
        quoted@ == debug_text(text@),
{
    format!("{:?}", text)
}

/// What `{:?}` prints for a `bool`.
pub open spec fn bool_text(value: bool) -> Seq<char> {
    if value {
        "true"@
    } else {
        "false"@
    }
}

/// The texts of `items`, a comma and a space between each two.
pub open spec fn joined(items: Seq<Seq<char>>) -> Seq<char>
    decreases items.len(),
{
    if items.len() == 0 {
        Seq::empty()
    } else if items.len() == 1 {
        items[0]
    } else {
        joined(items.drop_last()) + ", "@ + items.last()
    }
}

/// A field as it stands in the text of a struct: name, colon, value.
pub open spec fn field_text(field: (Seq<char>, Seq<char>)) -> Seq<char> {
    field.0 + ": "@ + field.1
}

/// The text of a struct `name` with the given fields, each a name and the
/// text of its value: `Name { first: 1, second: 2 }`, and the bare name for a
/// struct without fields.
pub open spec fn struct_text(name: Seq<char>, fields: Seq<(Seq<char>, Seq<char>)>) -> Seq<char> {
    if fields.len() == 0 {
        name
    } else {
        name + " { "@ + joined(fields.map_values(|field| field_text(field))) + " }"@
    }
}

/// The text of a list of the given items: `[1, 2, 3]`.
pub open spec fn list_text(items: Seq<Seq<char>>) -> Seq<char> {
    "["@ + joined(items) + "]"@
}

/// The text of a pair: `(1, 2)`.
pub open spec fn pair_text(first: Seq<char>, second: Seq<char>) -> Seq<char> {
    "("@ + first + ", "@ + second + ")"@
}

/// One field of a struct that is being printed: its name and the text of its
/// value.
#[derive(Debug, Clone, PartialEq, Eq)]
pub struct Field {
    pub name: String,
    pub value: String,
}

impl View for Field {
    type V = (Seq<char>, Seq<char>);

    open spec fn view(&self) -> (Seq<char>, Seq<char>) {
        (self.name@, self.value@)
    }
}

/// The views of `fields`, one for one.
pub open spec fn field_views(fields: Seq<Field>) -> Seq<(Seq<char>, Seq<char>)> {
    fields.map_values(|field: Field| field@)
}

/// The views of `items`, one for one.
pub open spec fn text_views(items: Seq<String>) -> Seq<Seq<char>> {
    items.map_values(|item: String| item@)
}

/// Joins `items` with a comma and a space between each two.
fn join(items: &Vec<String>) -> (text: String)
    ensures
        text@ == joined(text_views(items@)),
{
    let mut text = String::new();
    let mut i: usize = 0;
    while i < items.len()
        invariant
            i <= items.len(),
            text@ == joined(text_views(items@).take(i as int)),
        decreases items.len() - i,
    {
        proof {
            assert(text_views(items@).take(i + 1).drop_last() =~= text_views(items@).take(
                i as int,
            ));
        }
        if i > 0 {
            text.append(", ");
        }
        text.append(items[i].as_str());
        i += 1;
    }
    assert(text_views(items@).take(i as int) =~= text_views(items@));
    text
}

/// Prints a struct `name` with the given fields.
pub fn debug_struct(name: &str, fields: &Vec<Field>) -> (text: String)
    ensures
        text@ == struct_text(name@, field_views(fields@)),
{
    let mut text = name.to_owned();
    if fields.len() == 0 {
        return text;
    }
    let mut items: Vec<String> = Vec::new();
    let mut i: usize = 0;
    while i < fields.len()
        invariant
            i <= fields.len(),
            text_views(items@) == field_views(fields@).map_values(
                |field| field_text(field),
            ).take(i as int),
        decreases fields.len() - i,
    {
        let mut item = fields[i].name.clone();
        item.append(": ");
        item.append(fields[i].value.as_str());
        push_text(&mut items, item);
        i += 1;
    }
    assert(field_views(fields@).map_values(|field| field_text(field)).take(i as int)
        =~= field_views(fields@).map_values(|field| field_text(field)));
    text.append(" { ");
    text.append(join(&items).as_str());
    text.append(" }");
    text
}

/// Prints a list of items that are printed already.
pub fn debug_list(items: &Vec<String>) -> (text: String)
    ensures
        text@ == list_text(text_views(items@)),
{
    let mut text = "[".to_owned();
    text.append(join(items).as_str());
    text.append("]");
    text
}

/// A field whose value is a string, which is printed between quotes.
fn quoted_field(name: &str, value: &str) -> (field: Field)
    ensures
        field@ == (name@, debug_text(value@)),
{
    Field { name: name.to_owned(), value: debug_quoted(value) }
}

/// A field whose value is printed already.
fn verbatim_field(name: &str, value: String) -> (field: Field)
    ensures
        field@ == (name@, value@),
{
    Field { name: name.to_owned(), value }
}

/// Appends `item` to `items`.
fn push_text(items: &mut Vec<String>, item: String)
    ensures
        text_views(final(items)@) == text_views(old(items)@).push(item@),
{
    items.push(item);
}

/// Appends `field` to `fields`.
fn push_field(fields: &mut Vec<Field>, field: Field)
    ensures
        field_views(final(fields)@) == field_views(old(fields)@).push(field@),
{
    fields.push(field);
}

/// The text of theme metadata.
pub open spec fn metadata_text(metadata: ThemeMetadata) -> Seq<char> {
    struct_text(
        "ThemeMetadata"@,
        Seq::empty().push(("name"@, debug_text(metadata.name@))).push(
            ("is_light"@, bool_text(metadata.is_light)),
        ),
    )
}

fn metadata_debug(metadata: &ThemeMetadata) -> (text: String)
    ensures
        text@ == metadata_text(*metadata),
{
    let mut fields: Vec<Field> = Vec::new();
    assert(field_views(fields@) =~= Seq::empty());
    push_field(&mut fields, quoted_field("name", metadata.name.as_str()));
    let is_light = if metadata.is_light {
        "true".to_owned()
    } else {
        "false".to_owned()
    };
    push_field(&mut fields, verbatim_field("is_light", is_light));
    debug_struct("ThemeMetadata", &fields)
}

/// The text of the colours of one participant.
pub open spec fn player_text(player: PlayerTheme<String>) -> Seq<char> {
    struct_text(
        "PlayerTheme"@,
        Seq::empty().push(("cursor"@, debug_text(player.cursor@))).push(
            ("selection"@, debug_text(player.selection@)),
        ),
    )
}

fn player_debug(player: &PlayerTheme<String>) -> (text: String)
    ensures
        text@ == player_text(*player),
{
    let mut fields: Vec<Field> = Vec::new();
    assert(field_views(fields@) =~= Seq::empty());
    push_field(&mut fields, quoted_field("cursor", player.cursor.as_str()));
    push_field(&mut fields, quoted_field("selection", player.selection.as_str()));
    debug_struct("PlayerTheme", &fields)
}

/// The text of one further highlight: its scope name, between quotes, and
/// its style as it is.
pub open spec fn highlight_text(highlight: (String, String)) -> Seq<char> {
    pair_text(debug_text(highlight.0@), highlight.1@)
}

/// The text of syntax colours.
pub open spec fn syntax_text(syntax: SyntaxTheme<String>) -> Seq<char> {
    struct_text(
        "SyntaxTheme"@,
        Seq::empty().push(("comment"@, debug_text(syntax.comment@))).push(
            ("string"@, debug_text(syntax.string@)),
        ).push(("function"@, debug_text(syntax.function@))).push(
            ("keyword"@, debug_text(syntax.keyword@)),
        ).push(
            (
                "highlights"@,
                list_text(syntax.highlights@.map_values(|highlight| highlight_text(highlight))),
            ),
        ),
    )
}

fn syntax_debug(syntax: &SyntaxTheme<String>) -> (text: String)
    ensures
        text@ == syntax_text(*syntax),
{
    let mut highlights: Vec<String> = Vec::new();
    let mut i: usize = 0;
    while i < syntax.highlights.len()
        invariant
            i <= syntax.highlights.len(),
            text_views(highlights@) == syntax.highlights@.map_values(
                |highlight| highlight_text(highlight),
            ).take(i as int),
        decreases syntax.highlights.len() - i,
    {
        let mut highlight = "(".to_owned();
        highlight.append(debug_quoted(syntax.highlights[i].0.as_str()).as_str());
        highlight.append(", ");
        highlight.append(syntax.highlights[i].1.as_str());
        highlight.append(")");
        push_text(&mut highlights, highlight);
        i += 1;
    }
    assert(syntax.highlights@.map_values(|highlight| highlight_text(highlight)).take(i as int)
        =~= syntax.highlights@.map_values(|highlight| highlight_text(highlight)));
    let mut fields: Vec<Field> = Vec::new();
    assert(field_views(fields@) =~= Seq::empty());
    push_field(&mut fields, quoted_field("comment", syntax.comment.as_str()));
    push_field(&mut fields, quoted_field("string", syntax.string.as_str()));
    push_field(&mut fields, quoted_field("function", syntax.function.as_str()));
    push_field(&mut fields, quoted_field("keyword", syntax.keyword.as_str()));
    push_field(&mut fields, verbatim_field("highlights", debug_list(&highlights)));
    debug_struct("SyntaxTheme", &fields)
}

/// The fields of a theme as they are printed: the metadata, the colours,
/// with the syntax colours among them, and the participants.
pub open spec fn theme_fields(theme: Theme<String>) -> Seq<(Seq<char>, Seq<char>)> {
    Seq::empty()
        .push(("metadata"@, metadata_text(theme.metadata)))
        .push(("transparent"@, debug_text(theme.transparent@)))
        .push(("mac_os_traffic_light_red"@, debug_text(theme.mac_os_traffic_light_red@)))
        .push(("mac_os_traffic_light_yellow"@, debug_text(theme.mac_os_traffic_light_yellow@)))
        .push(("mac_os_traffic_light_green"@, debug_text(theme.mac_os_traffic_light_green@)))
        .push(("border"@, debug_text(theme.border@)))
        .push(("border_variant"@, debug_text(theme.border_variant@)))
        .push(("border_focused"@, debug_text(theme.border_focused@)))
        .push(("border_transparent"@, debug_text(theme.border_transparent@)))
        .push(("elevated_surface"@, debug_text(theme.elevated_surface@)))
        .push(("surface"@, debug_text(theme.surface@)))
        .push(("background"@, debug_text(theme.background@)))
        .push(("filled_element"@, debug_text(theme.filled_element@)))
        .push(("filled_element_hover"@, debug_text(theme.filled_element_hover@)))
        .push(("filled_element_active"@, debug_text(theme.filled_element_active@)))
        .push(("filled_element_selected"@, debug_text(theme.filled_element_selected@)))
        .push(("filled_element_disabled"@, debug_text(theme.filled_element_disabled@)))
        .push(("ghost_element"@, debug_text(theme.ghost_element@)))
        .push(("ghost_element_hover"@, debug_text(theme.ghost_element_hover@)))
        .push(("ghost_element_active"@, debug_text(theme.ghost_element_active@)))
        .push(("ghost_element_selected"@, debug_text(theme.ghost_element_selected@)))
        .push(("ghost_element_disabled"@, debug_text(theme.ghost_element_disabled@)))
        .push(("text"@, debug_text(theme.text@)))
        .push(("text_muted"@, debug_text(theme.text_muted@)))
        .push(("text_placeholder"@, debug_text(theme.text_placeholder@)))
        .push(("text_disabled"@, debug_text(theme.text_disabled@)))
        .push(("text_accent"@, debug_text(theme.text_accent@)))
        .push(("icon_muted"@, debug_text(theme.icon_muted@)))
        .push(("syntax"@, syntax_text(theme.syntax)))
        .push(("status_bar"@, debug_text(theme.status_bar@)))
        .push(("title_bar"@, debug_text(theme.title_bar@)))
        .push(("toolbar"@, debug_text(theme.toolbar@)))
        .push(("tab_bar"@, debug_text(theme.tab_bar@)))
        .push(("editor"@, debug_text(theme.editor@)))
        .push(("editor_subheader"@, debug_text(theme.editor_subheader@)))
        .push(("editor_active_line"@, debug_text(theme.editor_active_line@)))
        .push(("terminal"@, debug_text(theme.terminal@)))
        .push(("image_fallback_background"@, debug_text(theme.image_fallback_background@)))
        .push(("git_created"@, debug_text(theme.git_created@)))
        .push(("git_modified"@, debug_text(theme.git_modified@)))
        .push(("git_deleted"@, debug_text(theme.git_deleted@)))
        .push(("git_conflict"@, debug_text(theme.git_conflict@)))
        .push(("git_ignored"@, debug_text(theme.git_ignored@)))
        .push(("git_renamed"@, debug_text(theme.git_renamed@)))
        .push(("players"@, list_text(Seq::new(8, |i: int| player_text(theme.players@[i])))))
}

/// The text of a theme.
pub open spec fn theme_text(theme: Theme<String>) -> Seq<char> {
    struct_text("Theme"@, theme_fields(theme))
}

/// Prints theme metadata.
pub struct ThemeMetadataPrinter(pub ThemeMetadata);

impl ThemeMetadataPrinter {
    /// `ThemeMetadata { name: "..", is_light: .. }`
    pub fn debug_string(&self) -> (text: String)
        ensures
            text@ == metadata_text(self.0),
    {
        metadata_debug(&self.0)
    }
}

/// Prints the colours of one participant.
pub struct PlayerThemePrinter(pub PlayerTheme<String>);

impl PlayerThemePrinter {
    /// `PlayerTheme { cursor: "..", selection: ".." }`
    pub fn debug_string(&self) -> (text: String)
        ensures
            text@ == player_text(self.0),
    {
        player_debug(&self.0)
    }
}

/// Prints syntax colours.
pub struct SyntaxThemePrinter(pub SyntaxTheme<String>);

impl SyntaxThemePrinter {
    /// `SyntaxTheme { comment: "..", string: "..", function: "..", keyword:
    /// "..", highlights: [..] }`
    pub fn debug_string(&self) -> (text: String)
        ensures
            text@ == syntax_text(self.0),
    {
        syntax_debug(&self.0)
    }
}

/// Prints a theme.
pub struct ThemePrinter(pub Theme<String>);

impl ThemePrinter {
    /// `Theme { metadata: .., transparent: "..", .., players: [..] }`
    pub fn debug_string(&self) -> (text: String)
        ensures
            text@ == theme_text(self.0),
    {
        let theme = &self.0;
        let mut players: Vec<String> = Vec::new();
        let mut i: usize = 0;
        while i < 8
            invariant
                i <= 8,
                text_views(players@) == Seq::new(8, |i: int| player_text(theme.players@[i])).take(
                    i as int,
                ),
            decreases 8 - i,
        {
            push_text(&mut players, player_debug(&theme.players[i]));
            i += 1;
        }
        assert(Seq::new(8, |i: int| player_text(theme.players@[i])).take(8) =~= Seq::new(
            8,
            |i: int| player_text(theme.players@[i]),
        ));
        let mut fields: Vec<Field> = Vec::new();
        assert(field_views(fields@) =~= Seq::empty());
        push_field(&mut fields, verbatim_field("metadata", metadata_debug(&theme.metadata)));
        push_field(&mut fields, quoted_field("transparent", theme.transparent.as_str()));
        push_field(&mut fields, quoted_field("mac_os_traffic_light_red", theme.mac_os_traffic_light_red.as_str()));
        push_field(&mut fields, quoted_field("mac_os_traffic_light_yellow", theme.mac_os_traffic_light_yellow.as_str()));
        push_field(&mut fields, quoted_field("mac_os_traffic_light_green", theme.mac_os_traffic_light_green.as_str()));
        push_field(&mut fields, quoted_field("border", theme.border.as_str()));
        push_field(&mut fields, quoted_field("border_variant", theme.border_variant.as_str()));
        push_field(&mut fields, quoted_field("border_focused", theme.border_focused.as_str()));
        push_field(&mut fields, quoted_field("border_transparent", theme.border_transparent.as_str()));
        push_field(&mut fields, quoted_field("elevated_surface", theme.elevated_surface.as_str()));
        push_field(&mut fields, quoted_field("surface", theme.surface.as_str()));
        push_field(&mut fields, quoted_field("background", theme.background.as_str()));
        push_field(&mut fields, quoted_field("filled_element", theme.filled_element.as_str()));
        push_field(&mut fields, quoted_field("filled_element_hover", theme.filled_element_hover.as_str()));
        push_field(&mut fields, quoted_field("filled_element_active", theme.filled_element_active.as_str()));
        push_field(&mut fields, quoted_field("filled_element_selected", theme.filled_element_selected.as_str()));
        push_field(&mut fields, quoted_field("filled_element_disabled", theme.filled_element_disabled.as_str()));
        push_field(&mut fields, quoted_field("ghost_element", theme.ghost_element.as_str()));
        push_field(&mut fields, quoted_field("ghost_element_hover", theme.ghost_element_hover.as_str()));
        push_field(&mut fields, quoted_field("ghost_element_active", theme.ghost_element_active.as_str()));
        push_field(&mut fields, quoted_field("ghost_element_selected", theme.ghost_element_selected.as_str()));
        push_field(&mut fields, quoted_field("ghost_element_disabled", theme.ghost_element_disabled.as_str()));
        push_field(&mut fields, quoted_field("text", theme.text.as_str()));
        push_field(&mut fields, quoted_field("text_muted", theme.text_muted.as_str()));
        push_field(&mut fields, quoted_field("text_placeholder", theme.text_placeholder.as_str()));
        push_field(&mut fields, quoted_field("text_disabled", theme.text_disabled.as_str()));
        push_field(&mut fields, quoted_field("text_accent", theme.text_accent.as_str()));
        push_field(&mut fields, quoted_field("icon_muted", theme.icon_muted.as_str()));
        push_field(&mut fields, verbatim_field("syntax", syntax_debug(&theme.syntax)));
        push_field(&mut fields, quoted_field("status_bar", theme.status_bar.as_str()));
        push_field(&mut fields, quoted_field("title_bar", theme.title_bar.as_str()));
        push_field(&mut fields, quoted_field("toolbar", theme.toolbar.as_str()));
        push_field(&mut fields, quoted_field("tab_bar", theme.tab_bar.as_str()));
        push_field(&mut fields, quoted_field("editor", theme.editor.as_str()));
        push_field(&mut fields, quoted_field("editor_subheader", theme.editor_subheader.as_str()));
        push_field(&mut fields, quoted_field("editor_active_line", theme.editor_active_line.as_str()));
        push_field(&mut fields, quoted_field("terminal", theme.terminal.as_str()));
        push_field(&mut fields, quoted_field("image_fallback_background", theme.image_fallback_background.as_str()));
        push_field(&mut fields, quoted_field("git_created", theme.git_created.as_str()));
        push_field(&mut fields, quoted_field("git_modified", theme.git_modified.as_str()));
        push_field(&mut fields, quoted_field("git_deleted", theme.git_deleted.as_str()));
        push_field(&mut fields, quoted_field("git_conflict", theme.git_conflict.as_str()));
        push_field(&mut fields, quoted_field("git_ignored", theme.git_ignored.as_str()));
        push_field(&mut fields, quoted_field("git_renamed", theme.git_renamed.as_str()));
        push_field(&mut fields, verbatim_field("players", debug_list(&players)));
        debug_struct("Theme", &fields)
    }
}

impl SyntaxColor<String> {
    /// The text of the four syntax colours.
    pub open spec fn text(self) -> Seq<char> {
        struct_text(
            "SyntaxColor"@,
            Seq::empty().push(("comment"@, debug_text(self.comment@))).push(
                ("string"@, debug_text(self.string@)),
            ).push(("function"@, debug_text(self.function@))).push(
                ("keyword"@, debug_text(self.keyword@)),
            ),
        )
    }

    /// `SyntaxColor { comment: "..", string: "..", function: "..", keyword:
    /// ".." }`
    pub fn debug_string(&self) -> (text: String)
        ensures
            text@ == self.text(),
    {
        let mut fields: Vec<Field> = Vec::new();
        assert(field_views(fields@) =~= Seq::empty());
        push_field(&mut fields, quoted_field("comment", self.comment.as_str()));
        push_field(&mut fields, quoted_field("string", self.string.as_str()));
        push_field(&mut fields, quoted_field("function", self.function.as_str()));
        push_field(&mut fields, quoted_field("keyword", self.keyword.as_str()));
        debug_struct("SyntaxColor", &fields)
    }
}

} // verus!
