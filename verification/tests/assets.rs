use capture::theme::assets::Assets;

fn catalogue() -> Assets {
    Assets::new(
        [
            "themes/one.json",
            "fonts/plex/regular.ttf",
            "themes/rose\u{301}.json",
            "README.md",
            "themes",
            "icons/themes/x.svg",
        ]
        .iter()
        .map(|path| path.to_string())
        .collect(),
    )
}

#[test]
fn list_keeps_the_paths_below_a_directory_in_order() {
    assert_eq!(catalogue().list("themes/"), vec!["themes/one.json", "themes/rose\u{301}.json"]);
    assert_eq!(catalogue().list("fonts/"), vec!["fonts/plex/regular.ttf"]);
    assert_eq!(catalogue().list("sounds/"), Vec::<String>::new());
}

#[test]
fn list_goes_by_the_start_of_the_path_alone() {
    assert_eq!(
        catalogue().list("themes"),
        vec!["themes/one.json", "themes/rose\u{301}.json", "themes"]
    );
    assert_eq!(catalogue().list("themes/rose"), vec!["themes/rose\u{301}.json"]);
    assert_eq!(catalogue().list("README.md"), vec!["README.md"]);
    assert_eq!(catalogue().list("README.md "), Vec::<String>::new());
    assert_eq!(catalogue().list("Themes"), Vec::<String>::new());
}

#[test]
fn the_empty_path_lists_everything() {
    assert_eq!(catalogue().list("").len(), 6);
    assert_eq!(Assets::new(vec![]).list(""), Vec::<String>::new());
}

#[test]
fn a_theme_lies_in_the_themes_directory() {
    assert_eq!(Assets::theme_path("one"), "themes/one.json");
    assert_eq!(Assets::theme_path(""), "themes/.json");
    assert_eq!(Assets::theme_path("ros\u{e9} pine"), "themes/ros\u{e9} pine.json");
}
