use capture::theme::convert::SyntaxColor;
use capture::theme::model::{PlayerTheme, SyntaxTheme, Theme, ThemeMetadata};
use capture::theme::printer::{
    debug_list, debug_struct, Field, PlayerThemePrinter, SyntaxThemePrinter,
    ThemeMetadataPrinter, ThemePrinter,
};

fn field(name: &str, value: &str) -> Field {
    Field { name: name.to_string(), value: value.to_string() }
}

fn theme(highlights: Vec<(String, String)>) -> Theme<String> {
    Theme {
        metadata: ThemeMetadata { name: "Ros\u{e9} \"Pine\"".to_string(), is_light: true },
        transparent: "#000001".to_string(),
        mac_os_traffic_light_red: "#000002".to_string(),
        mac_os_traffic_light_yellow: "#000003".to_string(),
        mac_os_traffic_light_green: "#000004".to_string(),
        border: "#000005".to_string(),
        border_variant: "#000006".to_string(),
        border_focused: "#000007".to_string(),
        border_transparent: "#000008".to_string(),
        elevated_surface: "#000009".to_string(),
        surface: "#00000a".to_string(),
        background: "#00000b".to_string(),
        filled_element: "#00000c".to_string(),
        filled_element_hover: "#00000d".to_string(),
        filled_element_active: "#00000e".to_string(),
        filled_element_selected: "#00000f".to_string(),
        filled_element_disabled: "#000010".to_string(),
        ghost_element: "#000011".to_string(),
        ghost_element_hover: "#000012".to_string(),
        ghost_element_active: "#000013".to_string(),
        ghost_element_selected: "#000014".to_string(),
        ghost_element_disabled: "#000015".to_string(),
        text: "#000016".to_string(),
        text_muted: "#000017".to_string(),
        text_placeholder: "#000018".to_string(),
        text_disabled: "#000019".to_string(),
        text_accent: "#00001a".to_string(),
        icon_muted: "#00001b".to_string(),
        syntax: SyntaxTheme {
            comment: "#c0c0c0".to_string(),
            string: "#c1c1c1".to_string(),
            function: "#c2c2c2".to_string(),
            keyword: "#c3c3c3".to_string(),
            highlights,
        },
        status_bar: "#00001c".to_string(),
        title_bar: "#00001d".to_string(),
        toolbar: "#00001e".to_string(),
        tab_bar: "#00001f".to_string(),
        editor: "#000020".to_string(),
        editor_subheader: "#000021".to_string(),
        terminal: "#000022".to_string(),
        editor_active_line: "#000023".to_string(),
        image_fallback_background: "#000024".to_string(),
        git_created: "#000025".to_string(),
        git_modified: "#000026".to_string(),
        git_deleted: "#000027".to_string(),
        git_conflict: "#000028".to_string(),
        git_ignored: "#000029".to_string(),
        git_renamed: "#00002a".to_string(),
        players: [0, 1, 2, 3, 4, 5, 6, 7]
            .map(|n| PlayerTheme { cursor: format!("#a{n}"), selection: format!("#b{n}") }),
    }
}

fn expected_theme(highlights: &str) -> String {
    [
        "Theme { ",
        "metadata: ThemeMetadata { name: \"Ros\u{e9} \\\"Pine\\\"\", is_light: true }, ",
        "transparent: \"#000001\", ",
        "mac_os_traffic_light_red: \"#000002\", ",
        "mac_os_traffic_light_yellow: \"#000003\", ",
        "mac_os_traffic_light_green: \"#000004\", ",
        "border: \"#000005\", ",
        "border_variant: \"#000006\", ",
        "border_focused: \"#000007\", ",
        "border_transparent: \"#000008\", ",
        "elevated_surface: \"#000009\", ",
        "surface: \"#00000a\", ",
        "background: \"#00000b\", ",
        "filled_element: \"#00000c\", ",
        "filled_element_hover: \"#00000d\", ",
        "filled_element_active: \"#00000e\", ",
        "filled_element_selected: \"#00000f\", ",
        "filled_element_disabled: \"#000010\", ",
        "ghost_element: \"#000011\", ",
        "ghost_element_hover: \"#000012\", ",
        "ghost_element_active: \"#000013\", ",
        "ghost_element_selected: \"#000014\", ",
        "ghost_element_disabled: \"#000015\", ",
        "text: \"#000016\", ",
        "text_muted: \"#000017\", ",
        "text_placeholder: \"#000018\", ",
        "text_disabled: \"#000019\", ",
        "text_accent: \"#00001a\", ",
        "icon_muted: \"#00001b\", ",
        "syntax: SyntaxTheme { comment: \"#c0c0c0\", string: \"#c1c1c1\", ",
        "function: \"#c2c2c2\", keyword: \"#c3c3c3\", highlights: HIGHLIGHTS }, ",
        "status_bar: \"#00001c\", ",
        "title_bar: \"#00001d\", ",
        "toolbar: \"#00001e\", ",
        "tab_bar: \"#00001f\", ",
        "editor: \"#000020\", ",
        "editor_subheader: \"#000021\", ",
        "editor_active_line: \"#000023\", ",
        "terminal: \"#000022\", ",
        "image_fallback_background: \"#000024\", ",
        "git_created: \"#000025\", ",
        "git_modified: \"#000026\", ",
        "git_deleted: \"#000027\", ",
        "git_conflict: \"#000028\", ",
        "git_ignored: \"#000029\", ",
        "git_renamed: \"#00002a\", ",
        "players: [",
        "PlayerTheme { cursor: \"#a0\", selection: \"#b0\" }, ",
        "PlayerTheme { cursor: \"#a1\", selection: \"#b1\" }, ",
        "PlayerTheme { cursor: \"#a2\", selection: \"#b2\" }, ",
        "PlayerTheme { cursor: \"#a3\", selection: \"#b3\" }, ",
        "PlayerTheme { cursor: \"#a4\", selection: \"#b4\" }, ",
        "PlayerTheme { cursor: \"#a5\", selection: \"#b5\" }, ",
        "PlayerTheme { cursor: \"#a6\", selection: \"#b6\" }, ",
        "PlayerTheme { cursor: \"#a7\", selection: \"#b7\" }",
        "] }",
    ]
    .concat()
    .replace("HIGHLIGHTS", highlights)
}

#[test]
fn a_struct_is_its_name_and_its_fields_in_braces() {
    assert_eq!(debug_struct("Point", &vec![field("x", "1"), field("y", "-2")]), "Point { x: 1, y: -2 }");
    assert_eq!(debug_struct("Wrapper", &vec![field("inner", "Point { x: 1 }")]), "Wrapper { inner: Point { x: 1 } }");
    assert_eq!(debug_struct("One", &vec![field("only", "[]")]), "One { only: [] }");
}

#[test]
fn a_struct_without_fields_is_its_name() {
    assert_eq!(debug_struct("Unit", &vec![]), "Unit");
}

#[test]
fn a_list_is_its_items_in_brackets() {
    assert_eq!(debug_list(&vec![]), "[]");
    assert_eq!(debug_list(&vec!["1".to_string()]), "[1]");
    assert_eq!(debug_list(&vec!["1".to_string(), "two".to_string(), "3".to_string()]), "[1, two, 3]");
}

#[test]
fn metadata_prints_as_the_derived_debug_does() {
    let metadata = ThemeMetadata { name: "One Dark".to_string(), is_light: false };
    assert_eq!(
        ThemeMetadataPrinter(metadata.clone()).debug_string(),
        "ThemeMetadata { name: \"One Dark\", is_light: false }"
    );
    assert_eq!(ThemeMetadataPrinter(metadata.clone()).debug_string(), format!("{:?}", metadata));
}

#[test]
fn a_name_is_escaped_as_a_string_is() {
    let metadata = ThemeMetadata { name: "a \"b\" \\ c\n".to_string(), is_light: true };
    assert_eq!(
        ThemeMetadataPrinter(metadata.clone()).debug_string(),
        "ThemeMetadata { name: \"a \\\"b\\\" \\\\ c\\n\", is_light: true }"
    );
    assert_eq!(ThemeMetadataPrinter(metadata.clone()).debug_string(), format!("{:?}", metadata));
}

#[test]
fn a_player_prints_its_two_colours() {
    let player = PlayerTheme { cursor: "#9bced6ff".to_string(), selection: "#9bced63d".to_string() };
    assert_eq!(
        PlayerThemePrinter(player.clone()).debug_string(),
        "PlayerTheme { cursor: \"#9bced6ff\", selection: \"#9bced63d\" }"
    );
    assert_eq!(PlayerThemePrinter(player.clone()).debug_string(), format!("{:?}", player));
}

#[test]
fn syntax_prints_its_colours_and_highlights() {
    let mut syntax = SyntaxTheme {
        comment: "#6e6a86ff".to_string(),
        string: "#f5c177ff".to_string(),
        function: "#ebbcbaff".to_string(),
        keyword: "#30738fff".to_string(),
        highlights: vec![],
    };
    assert_eq!(
        SyntaxThemePrinter(syntax.clone()).debug_string(),
        "SyntaxTheme { comment: \"#6e6a86ff\", string: \"#f5c177ff\", function: \"#ebbcbaff\", \
         keyword: \"#30738fff\", highlights: [] }"
    );
    assert_eq!(SyntaxThemePrinter(syntax.clone()).debug_string(), format!("{:?}", syntax));
    syntax.highlights = vec![
        ("variable".to_string(), "Style { weight: 700 }".to_string()),
        ("a\"b".to_string(), "Plain".to_string()),
    ];
    assert_eq!(
        SyntaxThemePrinter(syntax).debug_string(),
        "SyntaxTheme { comment: \"#6e6a86ff\", string: \"#f5c177ff\", function: \"#ebbcbaff\", \
         keyword: \"#30738fff\", highlights: [(\"variable\", Style { weight: 700 }), \
         (\"a\\\"b\", Plain)] }"
    );
}

#[test]
fn the_four_syntax_colours_print_as_a_struct() {
    let colors = SyntaxColor {
        comment: "#000001".to_string(),
        string: "#000002".to_string(),
        function: "#000003".to_string(),
        keyword: "#000004".to_string(),
    };
    assert_eq!(
        colors.debug_string(),
        "SyntaxColor { comment: \"#000001\", string: \"#000002\", function: \"#000003\", \
         keyword: \"#000004\" }"
    );
}

#[test]
fn a_theme_prints_every_field_in_order() {
    assert_eq!(ThemePrinter(theme(vec![])).debug_string(), expected_theme("[]"));
}

#[test]
fn a_theme_prints_its_highlights() {
    let highlights = vec![("variable".to_string(), "Bold".to_string())];
    assert_eq!(
        ThemePrinter(theme(highlights)).debug_string(),
        expected_theme("[(\"variable\", Bold)]")
    );
}

#[test]
fn a_theme_prints_the_active_line_before_the_terminal() {
    let text = ThemePrinter(theme(vec![])).debug_string();
    let active_line = text.find("editor_active_line").unwrap();
    let terminal = text.find("terminal").unwrap();
    assert!(active_line < terminal);
}
