use tracing_forest::event::Event;
use tracing_forest::level::Level;
use tracing_forest::tag::{NoTag, Tag, TagParser};

const LEVELS: [Level; 5] = [Level::Trace, Level::Debug, Level::Info, Level::Warn, Level::Error];

#[test]
fn level_table_entries() {
    let expected: [(Level, &'static str, char); 5] = [
        (Level::Trace, "trace", '📍'),
        (Level::Debug, "debug", '🐛'),
        (Level::Info, "info", 'ｉ'),
        (Level::Warn, "warn", '🚧'),
        (Level::Error, "error", '🚨'),
    ];
    for (level, suffix, icon) in expected {
        let tag = Tag::from(level);
        assert_eq!(tag.prefix(), None);
        assert_eq!(tag.suffix(), suffix);
        assert_eq!(tag.icon(), icon);
    }
}

#[test]
fn from_level_equals_built_tag() {
    for level in LEVELS {
        assert_eq!(Tag::from(level), Tag::builder().set_level(level).finish());
    }
}

#[test]
fn render_with_prefix() {
    let tag = Tag::builder().set_prefix("admin").set_suffix("info").set_icon('ｉ').finish();
    assert_eq!(tag.render(), "admin.info");
}

#[test]
fn render_without_prefix() {
    let tag = Tag::builder().set_suffix("info").set_icon('ｉ').finish();
    assert_eq!(tag.render(), "info");
}

#[test]
fn later_suffix_overwrites_earlier() {
    let tag = Tag::builder().set_suffix("a").set_suffix("b").set_icon('x').finish();
    assert_eq!(tag.suffix(), "b");
    assert_eq!(tag.icon(), 'x');
}

#[test]
fn later_prefix_overwrites_earlier() {
    let tag = Tag::builder().set_prefix("one").set_prefix("two").set_level(Level::Info).finish();
    assert_eq!(tag.prefix(), Some("two"));
    assert_eq!(tag.render(), "two.info");
}

#[test]
fn suffix_after_level_overwrites() {
    let tag = Tag::builder().set_level(Level::Info).set_suffix("custom").finish();
    assert_eq!(tag.suffix(), "custom");
    assert_eq!(tag.icon(), 'ｉ');
}

#[test]
fn icon_then_suffix_finishes() {
    let tag = Tag::builder().set_icon('x').set_suffix("swapped").finish();
    assert_eq!(tag.suffix(), "swapped");
    assert_eq!(tag.icon(), 'x');
    assert_eq!(tag.prefix(), None);
}

#[test]
fn no_tag_returns_none() {
    let event = Event::new("anything", Level::Warn);
    assert!(NoTag.parse(&event).is_none());
}

fn security_only(event: &Event) -> Option<Tag> {
    if event.target() == "security" && event.level() == Level::Error {
        Some(Tag::builder().set_prefix("security").set_suffix("critical").set_icon('🔐').finish())
    } else {
        None
    }
}

#[test]
fn custom_classifier_matches_and_rejects() {
    let hit = security_only.parse(&Event::new("security", Level::Error));
    assert_eq!(hit.unwrap().suffix(), "critical");
    let miss = security_only.parse(&Event::new("admin", Level::Info));
    assert!(miss.is_none());
}

fn simple_tag(event: &Event) -> Option<Tag> {
    let target = event.target();
    let level = event.level();
    if target == "security" && level == Level::Error {
        Some(Tag::builder().set_prefix(target).set_suffix("critical").set_icon('🔐').finish())
    } else if target == "admin" || target == "request" {
        Some(Tag::builder().set_prefix(target).set_level(level).finish())
    } else {
        None
    }
}

#[test]
fn end_to_end_classification() {
    let admin = simple_tag.parse(&Event::new("admin", Level::Info)).unwrap();
    assert_eq!(admin.render(), "admin.info");

    let request = simple_tag.parse(&Event::new("request", Level::Error)).unwrap();
    assert_eq!(request.render(), "request.error");

    let security = simple_tag.parse(&Event::new("security", Level::Error)).unwrap();
    assert_eq!(security.render(), "security.critical");

    assert!(simple_tag.parse(&Event::new("app", Level::Info)).is_none());
}
