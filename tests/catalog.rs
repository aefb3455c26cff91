use alacritty_themes::catalog::{format_theme, get_themes, is_theme_file, theme_name};

fn names(v: &[&str]) -> Vec<String> {
    v.iter().map(|s| s.to_string()).collect()
}

#[test]
fn catalog_keeps_only_toml_files() {
    let themes = get_themes("/t", &names(&["a.toml", "b.toml", "c.txt", "README"]));
    assert_eq!(themes.len(), 2);
    assert_eq!(themes[0].name, "a");
    assert_eq!(themes[0].path, "/t/a.toml");
    assert_eq!(themes[1].name, "b");
    assert_eq!(themes[1].path, "/t/b.toml");
}

#[test]
fn catalog_keeps_listing_order() {
    let themes = get_themes("themes", &names(&["z.toml", "m.yml", "a.toml"]));
    let got: Vec<&str> = themes.iter().map(|t| t.name.as_str()).collect();
    assert_eq!(got, vec!["z", "a"]);
}

#[test]
fn catalog_of_empty_listing_is_empty() {
    assert!(get_themes("themes", &Vec::new()).is_empty());
}

#[test]
fn extension_edge_cases() {
    assert!(is_theme_file("gruvbox.toml"));
    assert!(is_theme_file("x.y.toml"));
    assert!(!is_theme_file("README"));
    assert!(!is_theme_file(".toml"));
    assert!(!is_theme_file("a.TOML"));
    assert!(!is_theme_file("a.toml.bak"));
    assert!(!is_theme_file("a."));
    assert!(!is_theme_file(""));
    assert!(!is_theme_file(".."));
}

#[test]
fn names_drop_the_extension() {
    assert_eq!(theme_name("gruvbox.toml"), "gruvbox");
    assert_eq!(theme_name("x.y.toml"), "x.y");
    assert_eq!(theme_name(".profile"), ".profile");
    assert_eq!(theme_name("README"), "README");
}

#[test]
fn format_theme_uses_file_stem() {
    assert_eq!(format_theme("/home/u/themes/nord.toml"), "nord");
    assert_eq!(format_theme("nord.toml"), "nord");
    assert_eq!(format_theme("dir/README"), "README");
    assert_eq!(format_theme("dir/.hidden"), ".hidden");
}

#[test]
fn format_theme_falls_back_to_path() {
    assert_eq!(format_theme(""), "");
    assert_eq!(format_theme("/"), "/");
    assert_eq!(format_theme("themes/.."), "themes/..");
    assert_eq!(format_theme("."), ".");
    assert_eq!(format_theme("./"), "./");
    assert_eq!(format_theme("/."), "/.");
}

#[test]
fn format_theme_skips_trailing_separators() {
    assert_eq!(format_theme("a/b.toml/"), "b");
    assert_eq!(format_theme("a/b.toml/."), "b");
    assert_eq!(format_theme("a/b.toml//./"), "b");
    assert_eq!(format_theme("themes/"), "themes");
    assert_eq!(format_theme("a/.hidden/"), ".hidden");
}
