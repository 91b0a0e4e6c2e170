use nuefi::logger::{Level, UefiColorLogger, UefiLogger};
use nuefi::proto::console::{TextBackground, TextForeground};

static TARGETS: [&str; 2] = ["nuefi", "app::net"];
static EXCLUDES: [&str; 1] = ["nuefi::mem"];
static NONE: [&str; 0] = [];

#[test]
fn all_lets_everything_through() {
    let l = UefiLogger::all();
    assert!(l.enabled("anything"));
    assert!(l.enabled(""));
}

#[test]
fn targets_cover_submodules() {
    let l = UefiLogger::new(&TARGETS);
    assert!(l.enabled("nuefi"));
    assert!(l.enabled("nuefi::table"));
    assert!(l.enabled("app::net::tcp"));
    assert!(!l.enabled("nuefi_macros"));
    assert!(!l.enabled("app"));
    assert!(!l.enabled("other"));
}

#[test]
fn empty_targets_filter_everything() {
    let l = UefiLogger::new(&NONE);
    assert!(!l.enabled("nuefi"));
}

#[test]
fn excludes_win() {
    let l = UefiLogger::new(&TARGETS).exclude(&EXCLUDES);
    assert!(l.enabled("nuefi::table"));
    assert!(!l.enabled("nuefi::mem"));
    assert!(!l.enabled("nuefi::mem::pool"));
    assert!(l.enabled("nuefi::memory"));
    let all = UefiLogger::all().exclude(&EXCLUDES);
    assert!(all.enabled("x"));
    assert!(!all.enabled("nuefi::mem"));
}

#[test]
fn color_logger_filters_alike() {
    let c = UefiLogger::new(&TARGETS).exclude(&EXCLUDES).color();
    assert!(c.enabled("nuefi"));
    assert!(!c.enabled("nuefi::mem"));
    assert!(!c.enabled("other"));
}

#[test]
fn level_colors() {
    let black = TextBackground::black();
    assert_eq!(UefiColorLogger::attributes(Level::Error), (TextForeground::red(), black));
    assert_eq!(UefiColorLogger::attributes(Level::Warn), (TextForeground::yellow(), black));
    assert_eq!(UefiColorLogger::attributes(Level::Info), (TextForeground::light_cyan(), black));
    assert_eq!(UefiColorLogger::attributes(Level::Debug), (TextForeground::blue(), black));
    assert_eq!(UefiColorLogger::attributes(Level::Trace), (TextForeground::magenta(), black));
    assert_eq!(TextForeground::red().0, 0x04);
}

static EXCLUDE_A: [&str; 1] = ["a"];
static EXCLUDE_B: [&str; 1] = ["b"];

#[test]
fn excludes_add_up() {
    let l = UefiLogger::all().exclude(&EXCLUDE_A).exclude(&EXCLUDE_B);
    assert!(!l.enabled("a"));
    assert!(!l.enabled("a::x"));
    assert!(!l.enabled("b"));
    assert!(l.enabled("c"));
}
