use alacritty_themes::error::ConfigError;
use alacritty_themes::imports::{add_theme_import, parse_config, theme_reference};

const BASE: &str = "~/Projects/alacritty-skins/themes";

fn imports_of(doc: &toml_edit::DocumentMut) -> Vec<String> {
    doc.get("import")
        .and_then(|i| i.as_array())
        .map(|a| a.iter().map(|v| v.as_str().unwrap().to_string()).collect())
        .unwrap()
}

#[test]
fn reference_is_base_name_and_extension() {
    assert_eq!(theme_reference("/b", "nord"), "/b/nord.toml");
    assert_eq!(theme_reference(BASE, "gruvbox"), "~/Projects/alacritty-skins/themes/gruvbox.toml");
}

#[test]
fn parse_refuses_non_toml_with_message() {
    for text in ["import = [", "= 3"] {
        match parse_config(text) {
            Err(ConfigError::ParseFailure(message)) => {
                assert!(message.starts_with("TOML parse error at line 1"));
            }
            _ => panic!("expected a parse failure"),
        }
    }
    assert!(parse_config("").is_ok());
}

#[test]
fn appends_to_existing_list() {
    let mut doc = parse_config("import = [\"existing.toml\"]\n").unwrap();
    assert_eq!(add_theme_import(&mut doc, "nord", "/b"), Ok(()));
    assert_eq!(imports_of(&doc), vec!["existing.toml".to_string(), "/b/nord.toml".to_string()]);
}

#[test]
fn creates_missing_list() {
    let mut doc = parse_config("[window]\nopacity = 1\n").unwrap();
    assert_eq!(add_theme_import(&mut doc, "nord", "/b"), Ok(()));
    assert_eq!(imports_of(&doc), vec!["/b/nord.toml".to_string()]);
    assert_eq!(doc["window"]["opacity"].as_integer(), Some(1));
}

#[test]
fn adding_twice_keeps_one_entry() {
    let mut doc = parse_config("import = []\n").unwrap();
    assert_eq!(add_theme_import(&mut doc, "nord", "/b"), Ok(()));
    let once = doc.to_string();
    assert_eq!(add_theme_import(&mut doc, "nord", "/b"), Ok(()));
    assert_eq!(doc.to_string(), once);
    assert_eq!(imports_of(&doc), vec!["/b/nord.toml".to_string()]);
}

#[test]
fn match_is_case_sensitive() {
    let mut doc = parse_config("import = [\"/b/Nord.toml\"]\n").unwrap();
    assert_eq!(add_theme_import(&mut doc, "nord", "/b"), Ok(()));
    assert_eq!(imports_of(&doc), vec!["/b/Nord.toml".to_string(), "/b/nord.toml".to_string()]);
}

#[test]
fn malformed_import_is_refused_and_untouched() {
    for text in [
        "import = \"one.toml\"\n",
        "import = [1, 2]\n",
        "import = [\"a.toml\", 3]\n",
        "[import]\nx = 1\n",
        "[[import]]\nx = 1\n",
    ] {
        let mut doc = parse_config(text).unwrap();
        assert_eq!(add_theme_import(&mut doc, "nord", "/b"), Err(ConfigError::MalformedDocument));
        assert_eq!(doc.to_string(), text);
    }
}

#[test]
fn unrelated_text_is_preserved() {
    let text = "# my config\nimport = [\n    \"existing.toml\",\n]\n\n[font]   # fonts\n  size    =   11.5\n\n[colors.primary]\nbackground = '#000000' # black\n";
    let mut doc = parse_config(text).unwrap();
    assert_eq!(add_theme_import(&mut doc, "nord", "/b"), Ok(()));
    let out = doc.to_string();
    let tail = "\n\n[font]   # fonts\n  size    =   11.5\n\n[colors.primary]\nbackground = '#000000' # black\n";
    assert!(out.starts_with("# my config\nimport = ["));
    assert!(out.ends_with(tail));
    assert!(out.contains("\"existing.toml\""));
    assert!(out.contains("\"/b/nord.toml\""));
}

#[test]
fn new_import_leaves_other_text_alone() {
    let text = "# header comment\ncursor = \"Block\"   # shape\n\n[window]\n  padding = { x = 2, y = 2 }\n";
    let mut doc = parse_config(text).unwrap();
    assert_eq!(add_theme_import(&mut doc, "nord", "/b"), Ok(()));
    let out = doc.to_string();
    assert!(out.starts_with("# header comment\ncursor = \"Block\"   # shape\n"));
    assert!(out.ends_with("\n[window]\n  padding = { x = 2, y = 2 }\n"));
    assert!(out.contains("import = [\"/b/nord.toml\"]"));
}
