use capture::theme::color::Color;
use capture::theme::model::PlayerTheme;
use capture::theme::palette::{paint, PALETTE_LEN};
use capture::theme::rose_pine::{
    rose_pine, rose_pine_dawn, rose_pine_moon, ROSE_PINE, ROSE_PINE_DAWN, ROSE_PINE_MOON,
};

#[test]
fn rose_pine_is_dark() {
    let theme = rose_pine();
    assert_eq!(theme.metadata.name, "Ros\u{e9} Pine");
    assert!(!theme.metadata.is_light);
    assert_eq!(theme.transparent, Color::Rgba(0x00000000));
    assert_eq!(theme.mac_os_traffic_light_red, Color::Rgba(0xec695eff));
    assert_eq!(theme.border, Color::Rgba(0x423f55ff));
    assert_eq!(theme.border_focused, Color::Rgba(0x435255ff));
    assert_eq!(theme.filled_element_hover, Color::Rgba(0xffffff1e));
    assert_eq!(theme.icon_muted, Color::Rgba(0x74708dff));
    assert_eq!(theme.syntax.comment, Color::Rgba(0x6e6a86ff));
    assert_eq!(theme.syntax.string, Color::Rgba(0xf5c177ff));
    assert_eq!(theme.syntax.function, Color::Rgba(0xebbcbaff));
    assert_eq!(theme.syntax.keyword, Color::Rgba(0x30738fff));
    assert!(theme.syntax.highlights.is_empty());
    assert_eq!(theme.status_bar, Color::Rgba(0x292738ff));
    assert_eq!(theme.editor_active_line, Color::Rgba(0x1c1b2aff));
    assert_eq!(theme.terminal, Color::Rgba(0x191724ff));
    assert_eq!(theme.git_renamed, Color::Rgba(0xf5c177ff));
    assert_eq!(
        theme.players[0],
        PlayerTheme { cursor: Color::Rgba(0x9bced6ff), selection: Color::Rgba(0x9bced63d) }
    );
    assert_eq!(
        theme.players[5],
        PlayerTheme { cursor: Color::Rgba(0x31738fff), selection: Color::Rgba(0x31738f3d) }
    );
    assert_eq!(
        theme.players[7],
        PlayerTheme { cursor: Color::Rgba(0xf5c177ff), selection: Color::Rgba(0xf5c1773d) }
    );
}

#[test]
fn rose_pine_dawn_is_light() {
    let theme = rose_pine_dawn();
    assert_eq!(theme.metadata.name, "Ros\u{e9} Pine Dawn");
    assert!(theme.metadata.is_light);
    assert_eq!(theme.transparent, Color::Rgba(0x00000000));
    assert_eq!(theme.border, Color::Rgba(0xdcd6d5ff));
    assert_eq!(theme.border_focused, Color::Rgba(0xc3d7dbff));
    assert_eq!(theme.text, Color::Rgba(0x575279ff));
    assert_eq!(theme.syntax.comment, Color::Rgba(0x9893a5ff));
    assert_eq!(theme.editor, Color::Rgba(0xfaf4edff));
    assert_eq!(theme.git_created, Color::Rgba(0x3daa8eff));
    assert_eq!(
        theme.players[7],
        PlayerTheme { cursor: Color::Rgba(0xe99d35ff), selection: Color::Rgba(0xe99d353d) }
    );
}

#[test]
fn rose_pine_moon_is_dark() {
    let theme = rose_pine_moon();
    assert_eq!(theme.metadata.name, "Ros\u{e9} Pine Moon");
    assert!(!theme.metadata.is_light);
    assert_eq!(theme.border, Color::Rgba(0x504c68ff));
    assert_eq!(theme.surface, Color::Rgba(0x28253cff));
    assert_eq!(theme.text, Color::Rgba(0xe0def4ff));
    assert_eq!(theme.syntax.keyword, Color::Rgba(0x3d8fb0ff));
    assert_eq!(theme.toolbar, Color::Rgba(0x232136ff));
    assert_eq!(
        theme.players[2],
        PlayerTheme { cursor: Color::Rgba(0xa683a0ff), selection: Color::Rgba(0xa683a03d) }
    );
}

#[test]
fn a_palette_fills_the_fields_in_order() {
    assert_eq!(PALETTE_LEN, 62);
    let mut palette = [0u32; 62];
    for (place, color) in palette.iter_mut().enumerate() {
        *color = place as u32;
    }
    let theme = paint("Numbers".to_string(), true, &palette);
    assert_eq!(theme.metadata.name, "Numbers");
    assert!(theme.metadata.is_light);
    assert_eq!(theme.transparent, Color::Rgba(0));
    assert_eq!(theme.icon_muted, Color::Rgba(26));
    assert_eq!(theme.syntax.comment, Color::Rgba(27));
    assert_eq!(theme.syntax.keyword, Color::Rgba(30));
    assert_eq!(theme.status_bar, Color::Rgba(31));
    assert_eq!(theme.editor_subheader, Color::Rgba(36));
    assert_eq!(theme.editor_active_line, Color::Rgba(37));
    assert_eq!(theme.terminal, Color::Rgba(38));
    assert_eq!(theme.git_renamed, Color::Rgba(45));
    for player in 0..8 {
        assert_eq!(theme.players[player].cursor, Color::Rgba(46 + 2 * player as u32));
        assert_eq!(theme.players[player].selection, Color::Rgba(47 + 2 * player as u32));
    }
    assert!(theme.syntax.highlights.is_empty());
}

#[test]
fn each_selection_is_its_cursor_at_a_quarter_alpha() {
    for palette in [ROSE_PINE, ROSE_PINE_DAWN, ROSE_PINE_MOON] {
        for player in 0..8 {
            let cursor = palette[46 + 2 * player];
            let selection = palette[47 + 2 * player];
            assert_eq!(cursor & 0xff, 0xff);
            assert_eq!(selection, (cursor & 0xffffff00) | 0x3d);
        }
    }
}
