use tauri_plugin_edge::{
    default_custom_colors_for_system_bars, default_navigation_bar_color,
    default_navigation_bar_content, default_status_bar_color, default_status_bar_content,
    AppearanceConfig, AppearanceFields, JsonField, JsonInput,
};

fn member(key: &str, value: JsonField) -> (String, JsonField) {
    (key.to_string(), value)
}

fn text(s: &str) -> JsonField {
    JsonField::Text(s.to_string())
}

fn assert_default(c: &AppearanceConfig) {
    assert!(c.custom_colors_for_system_bars);
    assert_eq!(c.status_bar_color, "#000000");
    assert_eq!(c.status_bar_content, "light");
    assert_eq!(c.navigation_bar_color, "#000000");
    assert_eq!(c.navigation_bar_content, "light");
}

#[test]
fn default_literals() {
    assert!(default_custom_colors_for_system_bars());
    assert_eq!(default_status_bar_color(), "#000000");
    assert_eq!(default_status_bar_content(), "light");
    assert_eq!(default_navigation_bar_color(), "#000000");
    assert_eq!(default_navigation_bar_content(), "light");
    assert_default(&AppearanceConfig::default());
}

#[test]
fn absent_input_gives_defaults() {
    assert_default(&AppearanceConfig::from_json(None));
}

#[test]
fn empty_object_gives_defaults() {
    let input = JsonInput::Object(vec![]);
    assert_default(&AppearanceConfig::from_json(Some(&input)));
}

#[test]
fn full_object_is_kept() {
    let input = JsonInput::Object(vec![
        member("custom_colors_for_system_bars", JsonField::Bool(false)),
        member("status_bar_color", text("#112233")),
        member("status_bar_content", text("dark")),
        member("navigation_bar_color", text("#445566")),
        member("navigation_bar_content", text("dark")),
    ]);
    let c = AppearanceConfig::from_json(Some(&input));
    assert!(!c.custom_colors_for_system_bars);
    assert_eq!(c.status_bar_color, "#112233");
    assert_eq!(c.status_bar_content, "dark");
    assert_eq!(c.navigation_bar_color, "#445566");
    assert_eq!(c.navigation_bar_content, "dark");
}

#[test]
fn missing_fields_take_defaults() {
    let input = JsonInput::Object(vec![
        member("navigation_bar_content", text("dark")),
        member("status_bar_color", text("#ff0000")),
    ]);
    let c = AppearanceConfig::from_json(Some(&input));
    assert!(c.custom_colors_for_system_bars);
    assert_eq!(c.status_bar_color, "#ff0000");
    assert_eq!(c.status_bar_content, "light");
    assert_eq!(c.navigation_bar_color, "#000000");
    assert_eq!(c.navigation_bar_content, "dark");
}

#[test]
fn unknown_members_are_ignored() {
    let input = JsonInput::Object(vec![
        member("offset", JsonField::Other),
        member("status_bar_content", text("dark")),
        member("theme", text("x")),
    ]);
    let c = AppearanceConfig::from_json(Some(&input));
    assert_eq!(c.status_bar_content, "dark");
    assert_eq!(c.status_bar_color, "#000000");
}

#[test]
fn wrong_field_type_gives_defaults() {
    let input = JsonInput::Object(vec![
        member("status_bar_color", text("#123456")),
        member("custom_colors_for_system_bars", text("yes")),
    ]);
    assert_default(&AppearanceConfig::from_json(Some(&input)));
    let input = JsonInput::Object(vec![member("status_bar_color", JsonField::Bool(true))]);
    assert_default(&AppearanceConfig::from_json(Some(&input)));
    let input = JsonInput::Object(vec![member("navigation_bar_color", JsonField::Other)]);
    assert_default(&AppearanceConfig::from_json(Some(&input)));
}

#[test]
fn repeated_field_gives_defaults() {
    let input = JsonInput::Object(vec![
        member("status_bar_color", text("#123456")),
        member("status_bar_color", text("#654321")),
    ]);
    assert_default(&AppearanceConfig::from_json(Some(&input)));
}

#[test]
fn non_object_gives_defaults() {
    assert_default(&AppearanceConfig::from_json(Some(&JsonInput::Other)));
}

#[test]
fn array_reads_by_position() {
    let input = JsonInput::Array(vec![JsonField::Bool(false), text("#abcdef")]);
    let c = AppearanceConfig::from_json(Some(&input));
    assert!(!c.custom_colors_for_system_bars);
    assert_eq!(c.status_bar_color, "#abcdef");
    assert_eq!(c.status_bar_content, "light");
    assert_eq!(c.navigation_bar_color, "#000000");
    assert_eq!(c.navigation_bar_content, "light");
}

#[test]
fn full_array_is_kept() {
    let input = JsonInput::Array(vec![
        JsonField::Bool(false),
        text("a"),
        text("b"),
        text("c"),
        text("d"),
    ]);
    let c = AppearanceConfig::from_json(Some(&input));
    assert!(!c.custom_colors_for_system_bars);
    assert_eq!(c.status_bar_color, "a");
    assert_eq!(c.status_bar_content, "b");
    assert_eq!(c.navigation_bar_color, "c");
    assert_eq!(c.navigation_bar_content, "d");
}

#[test]
fn malformed_array_gives_defaults() {
    let too_long = JsonInput::Array(vec![
        JsonField::Bool(false),
        text("a"),
        text("b"),
        text("c"),
        text("d"),
        text("e"),
    ]);
    assert_default(&AppearanceConfig::from_json(Some(&too_long)));
    let wrong_type = JsonInput::Array(vec![text("true")]);
    assert_default(&AppearanceConfig::from_json(Some(&wrong_type)));
    let empty = JsonInput::Array(vec![]);
    assert_default(&AppearanceConfig::from_json(Some(&empty)));
}

#[test]
fn from_fields_fills_only_missing() {
    let fields = AppearanceFields {
        custom_colors_for_system_bars: Some(false),
        status_bar_color: None,
        status_bar_content: Some("dark".to_string()),
        navigation_bar_color: None,
        navigation_bar_content: None,
    };
    let c = AppearanceConfig::from_fields(fields);
    assert!(!c.custom_colors_for_system_bars);
    assert_eq!(c.status_bar_color, "#000000");
    assert_eq!(c.status_bar_content, "dark");
    assert_eq!(c.navigation_bar_color, "#000000");
    assert_eq!(c.navigation_bar_content, "light");
    assert_default(&AppearanceConfig::from_fields(AppearanceFields::empty()));
}

#[test]
fn from_input_reports_shape() {
    assert!(AppearanceFields::from_input(&JsonInput::Other).is_none());
    let f = AppearanceFields::from_input(&JsonInput::Object(vec![member(
        "status_bar_content",
        text("dark"),
    )]))
    .unwrap();
    assert_eq!(f.status_bar_content.as_deref(), Some("dark"));
    assert!(f.status_bar_color.is_none());
    assert!(f.custom_colors_for_system_bars.is_none());
}
