use grindstone::models::{
    format_hex_color, parse_hex_color, Category, CategoryColor, DurationSecs, Session, Timestamp,
};

fn sample_session(duration: i64) -> Session {
    Session {
        id: None,
        name: "Sample".to_string(),
        description: None,
        category: "coding".to_string(),
        started_at: Timestamp::new(1000),
        ended_at: Timestamp::new(1000 + duration),
        duration_secs: DurationSecs::new(duration),
    }
}

#[test]
fn test_builder_requires_all_fields() {
    let complete = Session::builder()
        .name("Morning work".to_string())
        .category("work".to_string())
        .started_at(Timestamp::new(100))
        .ended_at(Timestamp::new(1600))
        .duration_secs(DurationSecs::new(1500))
        .build();
    let session = complete.expect("all required fields were set");
    assert_eq!(session.name, "Morning work");
    assert_eq!(session.category, "work");
    assert!(session.id.is_none());
    assert!(session.description.is_none());
    assert_eq!(session.started_at.seconds(), 100);
    assert_eq!(session.ended_at.seconds(), 1600);
    assert_eq!(session.duration_secs.as_secs(), 1500);

    let missing_name = Session::builder()
        .category("work".to_string())
        .started_at(Timestamp::new(100))
        .ended_at(Timestamp::new(1600))
        .duration_secs(DurationSecs::new(1500))
        .build();
    assert!(missing_name.is_none());
}

#[test]
fn test_builder_description_is_optional() {
    let with_desc = Session::builder()
        .name("n".to_string())
        .description(Some("details".to_string()))
        .category("c".to_string())
        .started_at(Timestamp::new(0))
        .ended_at(Timestamp::new(0))
        .duration_secs(DurationSecs::new(0))
        .build()
        .unwrap();
    assert_eq!(with_desc.description.as_deref(), Some("details"));
}

#[test]
fn test_duplicate_copies_every_field() {
    let mut original = sample_session(900);
    original.description = Some("notes".to_string());
    let copy = original.duplicate();
    assert_eq!(copy.name, original.name);
    assert_eq!(copy.description, original.description);
    assert_eq!(copy.category, original.category);
    assert_eq!(copy.started_at, original.started_at);
    assert_eq!(copy.ended_at, original.ended_at);
    assert_eq!(copy.duration_secs, original.duration_secs);
}

#[test]
fn test_format_duration_minutes_only() {
    let s = sample_session(1500);
    assert_eq!(s.format_duration(), "25m");
    let s = sample_session(59);
    assert_eq!(s.format_duration(), "0m");
}

#[test]
fn test_format_duration_hours_and_minutes() {
    let s = sample_session(3900);
    assert_eq!(s.format_duration(), "1h 5m");
    let s = sample_session(7200);
    assert_eq!(s.format_duration(), "2h 0m");
}

#[test]
fn test_category_defaults() {
    let defaults = Category::defaults();
    assert_eq!(defaults.len(), 6);
    let names: Vec<&str> = defaults.iter().map(|c| c.name.as_str()).collect();
    assert_eq!(
        names,
        vec!["work", "study", "coding", "reading", "exercise", "other"]
    );
    assert_eq!(defaults[0].color, CategoryColor::Rgb(255, 107, 107));
    assert!(defaults.iter().all(|c| c.id.is_none()));
}

#[test]
fn test_parse_hex_color_valid() {
    assert_eq!(parse_hex_color("#FF6B6B"), CategoryColor::Rgb(255, 107, 107));
    assert_eq!(parse_hex_color("4ECDC4"), CategoryColor::Rgb(78, 205, 196));
    assert_eq!(parse_hex_color("#ffffff"), CategoryColor::Rgb(255, 255, 255));
    assert_eq!(parse_hex_color("#000000"), CategoryColor::Rgb(0, 0, 0));
}

#[test]
fn test_parse_hex_color_wrong_length_is_gray() {
    assert_eq!(parse_hex_color(""), CategoryColor::Gray);
    assert_eq!(parse_hex_color("#FFF"), CategoryColor::Gray);
    assert_eq!(parse_hex_color("#FF6B6B0"), CategoryColor::Gray);
}

#[test]
fn test_parse_hex_color_bad_digits_fall_back() {
    // Each unreadable two-character group falls back to 128
    assert_eq!(parse_hex_color("#GG6B6B"), CategoryColor::Rgb(128, 107, 107));
    assert_eq!(parse_hex_color("zzzzzz"), CategoryColor::Rgb(128, 128, 128));
}

#[test]
fn test_format_hex_color() {
    assert_eq!(format_hex_color(CategoryColor::Rgb(255, 107, 107)), "#FF6B6B");
    assert_eq!(format_hex_color(CategoryColor::Rgb(0, 0, 0)), "#000000");
    assert_eq!(format_hex_color(CategoryColor::Gray), "#808080");
}

#[test]
fn test_hex_color_round_trip() {
    let color = CategoryColor::Rgb(69, 183, 209);
    assert_eq!(parse_hex_color(&format_hex_color(color)), color);
}
