use dirt::settings::heal_config_text;
use dirt::theme::{lookup, resolve_color, resolve_var, split_path, vars_table, Theme};
use dirt::toml_doc::{deep_copy, find_entry, heal_copy, heal_value, same_toml_type, strip_color_blocks, TomlValue};

fn s(x: &str) -> TomlValue {
    TomlValue::String(x.to_string())
}

fn table(entries: Vec<(&str, TomlValue)>) -> TomlValue {
    TomlValue::Table(entries.into_iter().map(|(k, v)| (k.to_string(), v)).collect())
}

fn show(v: &TomlValue) -> String {
    format!("{v:?}")
}

fn defaults() -> TomlValue {
    table(vec![
        ("name", s("x")),
        ("depth", TomlValue::Integer(6)),
        ("panels", table(vec![("sidebar", TomlValue::Boolean(true)), ("preview", TomlValue::Boolean(true))])),
        ("profiles", TomlValue::Array(vec![table(vec![("name", s("dev")), ("hidden", TomlValue::Boolean(false))])])),
    ])
}

#[test]
fn heal_adds_missing_keys_and_fixes_kinds() {
    let mut cur = table(vec![
        ("depth", s("deep")),
        ("panels", table(vec![("sidebar", TomlValue::Boolean(false))])),
        ("extra", TomlValue::Integer(1)),
        ("profiles", TomlValue::Array(vec![table(vec![("name", s("mine"))])])),
    ]);
    let changed = heal_value(&mut cur, &defaults());
    assert!(changed);
    let expected = table(vec![
        ("depth", TomlValue::Integer(6)),
        ("panels", table(vec![("sidebar", TomlValue::Boolean(false)), ("preview", TomlValue::Boolean(true))])),
        ("extra", TomlValue::Integer(1)),
        ("profiles", TomlValue::Array(vec![table(vec![("name", s("mine")), ("hidden", TomlValue::Boolean(false))])])),
        ("name", s("x")),
    ]);
    assert_eq!(show(&cur), show(&expected));
}

#[test]
fn heal_of_a_wrong_root_gives_the_defaults() {
    let (v, changed) = heal_copy(&TomlValue::Integer(3), &defaults());
    assert!(changed);
    assert_eq!(show(&v), show(&defaults()));
}

#[test]
fn healing_twice_changes_nothing_more() {
    let mut cur = table(vec![("panels", s("oops")), ("profiles", TomlValue::Array(vec![table(vec![])]))]);
    assert!(heal_value(&mut cur, &defaults()));
    let once = show(&cur);
    assert!(!heal_value(&mut cur, &defaults()));
    assert_eq!(show(&cur), once);
}

#[test]
fn healing_the_defaults_with_themselves_changes_nothing() {
    let mut d = defaults();
    assert!(!heal_value(&mut d, &defaults()));
    assert_eq!(show(&d), show(&defaults()));
}

#[test]
fn kinds_and_copies() {
    assert!(same_toml_type(&s("a"), &s("b")));
    assert!(!same_toml_type(&s("a"), &TomlValue::Integer(1)));
    assert!(same_toml_type(&TomlValue::Array(vec![]), &TomlValue::Array(vec![s("x")])));
    assert_eq!(show(&deep_copy(&defaults())), show(&defaults()));
    if let TomlValue::Table(t) = defaults() {
        assert_eq!(find_entry(&t, "panels"), Some(2));
        assert_eq!(find_entry(&t, "missing"), None);
    }
}

#[test]
fn strip_removes_colour_blocks_once() {
    let mut root = table(vec![
        ("defaults", table(vec![("theme", s("dark")), ("ui_colors", table(vec![("bg", s("black"))]))])),
        ("profiles", TomlValue::Array(vec![
            table(vec![("name", s("a")), ("ui_colors", table(vec![]))]),
            table(vec![("name", s("b"))]),
        ])),
    ]);
    assert!(strip_color_blocks(&mut root));
    let expected = table(vec![
        ("defaults", table(vec![("theme", s("dark"))])),
        ("profiles", TomlValue::Array(vec![table(vec![("name", s("a"))]), table(vec![("name", s("b"))])])),
    ]);
    assert_eq!(show(&root), show(&expected));
    assert!(!strip_color_blocks(&mut root));
    assert_eq!(show(&root), show(&expected));
}

#[test]
fn an_empty_configuration_is_filled_with_the_defaults() {
    let healed = heal_config_text("").unwrap();
    let text = healed.rewrite.expect("the filled document is written back");
    let parsed: toml::Value = toml::from_str(&text).unwrap();
    assert_eq!(parsed["defaults"]["theme"].as_str(), Some("dark"));
    assert_eq!(parsed["defaults"]["search"]["max_depth"].as_integer(), Some(6));
    let profiles = parsed["profiles"].as_array().unwrap();
    assert_eq!(profiles.len(), 2);
    assert_eq!(profiles[1]["name"].as_str(), Some("clean"));
    assert!(profiles[1].get("start_dir").is_none());
    assert!(matches!(healed.document, TomlValue::Table(_)));
}

#[test]
fn a_rewritten_configuration_settles_on_the_second_pass() {
    let first = heal_config_text("").unwrap().rewrite.unwrap();
    let second = heal_config_text(&first).unwrap().rewrite.expect("the second profile is filled from the first");
    let parsed: toml::Value = toml::from_str(&second).unwrap();
    assert_eq!(parsed["profiles"][1]["start_dir"].as_str(), Some("~/projects"));
    assert_eq!(parsed["profiles"][1]["name"].as_str(), Some("clean"));
    assert!(heal_config_text(&second).unwrap().rewrite.is_none());
}

#[test]
fn unreadable_configuration_is_replaced_by_the_defaults() {
    let healed = heal_config_text("this is = = not toml").unwrap();
    let text = healed.rewrite.unwrap();
    let parsed: toml::Value = toml::from_str(&text).unwrap();
    assert_eq!(parsed["defaults"]["sort"].as_str(), Some("name"));
}

#[test]
fn colour_blocks_are_dropped_from_a_configuration() {
    let raw = "[defaults]\ntheme = \"light\"\n[defaults.ui_colors]\nbg = \"black\"\n";
    let healed = heal_config_text(raw).unwrap();
    let text = healed.rewrite.unwrap();
    let parsed: toml::Value = toml::from_str(&text).unwrap();
    assert_eq!(parsed["defaults"]["theme"].as_str(), Some("light"));
    assert!(parsed["defaults"].get("ui_colors").is_none());
}

#[test]
fn dotted_paths_split_and_look_up() {
    assert_eq!(split_path("a.b.c"), vec!["a", "b", "c"]);
    assert_eq!(split_path(""), vec![""]);
    assert_eq!(split_path("a..b"), vec!["a", "", "b"]);
    let doc = table(vec![("top_bar", table(vec![("bg", s("#000000"))]))]);
    assert_eq!(show(lookup(&doc, "top_bar.bg").unwrap()), show(&s("#000000")));
    assert!(lookup(&doc, "top_bar.fg").is_none());
    assert!(lookup(&doc, "top_bar.bg.x").is_none());
}

#[test]
fn theme_variables_resolve_through_references() {
    let doc = table(vec![
        ("vars", table(vec![
            ("base", s("#102030")),
            ("alias", s("$base")),
            ("loop_a", s("$loop_b")),
            ("loop_b", s("$loop_a")),
            ("count", TomlValue::Integer(3)),
        ])),
        ("top_bar", table(vec![("bg", s("$alias")), ("fg", s("plain")), ("bad", s("$nope"))])),
    ]);
    let vars = vars_table(&doc);
    assert_eq!(vars.len(), 4);
    assert_eq!(resolve_var("alias", &vars, "#FFFFFF", 0), "#102030");
    assert_eq!(resolve_var("loop_a", &vars, "#FFFFFF", 0), "#FFFFFF");
    assert_eq!(resolve_var("missing", &vars, "fb", 0), "fb");
    assert_eq!(resolve_color(&doc, &vars, "top_bar.bg", "#FFFFFF"), "#102030");
    assert_eq!(resolve_color(&doc, &vars, "top_bar.fg", "#FFFFFF"), "plain");
    assert_eq!(resolve_color(&doc, &vars, "top_bar.bad", "#ABCDEF"), "#ABCDEF");
    assert_eq!(resolve_color(&doc, &vars, "top_bar.none", "#ABCDEF"), "#ABCDEF");
}

#[test]
fn a_theme_reads_its_colours_with_fallbacks() {
    let doc = table(vec![
        ("vars", table(vec![("accent", s("#ff0000")), ("primary_fg", s("#00ff00"))])),
        ("col_1", table(vec![("dir", s("$accent"))])),
    ]);
    let t = Theme::from_toml_value(&doc);
    assert_eq!(t.vars.accent, "#ff0000");
    assert_eq!(t.vars.defult_text, "#00ff00");
    assert_eq!(t.vars.bool_yes, "#84E052");
    assert_eq!(t.col_1.dir, "#ff0000");
    let d = Theme::hardcoded_defaults();
    assert_eq!(d.vars.accent, "#FFFFFF");
    assert_eq!(d.vars.bool_yes, "#84E052");
}
