use divan::config::{FormatStyle, SortingAttr, TimerKind};

#[test]
fn timer_kind_names() {
    assert_eq!(TimerKind::Os.name(), "os");
    assert_eq!(TimerKind::Tsc.name(), "tsc");
    assert_eq!(TimerKind::all(), vec![TimerKind::Os, TimerKind::Tsc]);
}

#[test]
fn format_style_names() {
    assert_eq!(FormatStyle::Pretty.name(), "pretty");
    assert_eq!(FormatStyle::Terse.name(), "terse");
    assert_eq!(FormatStyle::all(), vec![FormatStyle::Pretty, FormatStyle::Terse]);
}

#[test]
fn sorting_attr_names() {
    assert_eq!(SortingAttr::Kind.name(), "kind");
    assert_eq!(SortingAttr::Name.name(), "name");
    assert_eq!(SortingAttr::Location.name(), "location");
    assert_eq!(
        SortingAttr::all(),
        vec![SortingAttr::Kind, SortingAttr::Name, SortingAttr::Location]
    );
}
