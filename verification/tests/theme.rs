use chat_api::theme::Theme;

#[test]
fn theme_names() {
    assert_eq!(Theme::Light.as_str(), "light");
    assert_eq!(Theme::Dark.as_str(), "dark");
    assert_eq!(Theme::System.as_str(), "system");
}

#[test]
fn theme_from_name() {
    assert_eq!(Theme::from_name("dark"), Theme::Dark);
    assert_eq!(Theme::from_name("light"), Theme::Light);
    assert_eq!(Theme::from_name("system"), Theme::System);
    assert_eq!(Theme::from_name(""), Theme::System);
    assert_eq!(Theme::from_name("Dark"), Theme::System);
    assert_eq!(Theme::from_name("dark "), Theme::System);
    assert_eq!(Theme::from_name("sepia"), Theme::System);
}

#[test]
fn theme_name_round_trip() {
    for theme in [Theme::Light, Theme::Dark, Theme::System] {
        assert_eq!(Theme::from_name(theme.as_str()), theme);
    }
}

#[test]
fn theme_from_toggle() {
    assert_eq!(Theme::from_toggle("true"), Theme::Dark);
    assert_eq!(Theme::from_toggle("false"), Theme::Light);
    assert_eq!(Theme::from_toggle(""), Theme::Light);
    assert_eq!(Theme::from_toggle("on"), Theme::Light);
    assert_eq!(Theme::from_toggle("TRUE"), Theme::Light);
}

#[test]
fn only_dark_is_dark() {
    assert!(Theme::Dark.is_dark());
    assert!(!Theme::Light.is_dark());
    assert!(!Theme::System.is_dark());
}
