use irid::config::{AppConfigBuilder, ApplicationConfig};
use irid::config_file::{parse_line, Setting};

#[test]
fn builder_defaults_when_nothing_set() {
    let config = AppConfigBuilder::new().build();
    assert_eq!(config.window_inner_width(), 960);
    assert_eq!(config.window_inner_height(), 540);
    assert!(config.window_starts_maximized());
}

#[test]
fn zero_width_falls_back_to_default() {
    let config = AppConfigBuilder::new()
        .with_window_inner_width(0)
        .with_window_inner_height(0)
        .build();
    assert_eq!(config.window_inner_width(), AppConfigBuilder::DEFAULT_WINDOW_INNER_WIDTH);
    assert_eq!(config.window_inner_height(), AppConfigBuilder::DEFAULT_WINDOW_INNER_HEIGHT);
}

#[test]
fn set_values_reach_config() {
    let config = AppConfigBuilder::new()
        .with_window_inner_width(800)
        .with_window_inner_height(600)
        .with_window_starts_maximized(false)
        .build();
    assert_eq!(config.window_inner_width(), 800);
    assert_eq!(config.window_inner_height(), 600);
    assert!(!config.window_starts_maximized());
    let size = config.window_inner_size();
    assert_eq!((size.width, size.height), (800, 600));
    let min = config.window_min_inner_size();
    assert_eq!((min.width, min.height), (400, 300));
}

#[test]
fn empty_config_file_gives_defaults() {
    let config = ApplicationConfig::new(b"");
    let default = ApplicationConfig::default();
    assert_eq!(config.window_inner_width(), default.window_inner_width());
    assert_eq!(config.window_inner_height(), default.window_inner_height());
    assert_eq!(config.window_starts_maximized(), default.window_starts_maximized());
}

#[test]
fn config_file_values_are_read() {
    let file = b"# window\nwindow_inner_width = 1280\r\n  window_starts_maximized=false\n";
    let config = ApplicationConfig::new(file);
    assert_eq!(config.window_inner_width(), 1280);
    assert_eq!(config.window_inner_height(), 540);
    assert!(!config.window_starts_maximized());
}

#[test]
fn config_file_last_line_wins_and_bad_lines_are_skipped() {
    let file = b"window_inner_height = 600\nwindow_inner_height = 720\nwindow_inner_width = abc\nwindow_inner_width = 99999999999\nwindow_starts_maximized = yes\nunknown = 3";
    let config = ApplicationConfig::new(file);
    assert_eq!(config.window_inner_width(), 960);
    assert_eq!(config.window_inner_height(), 720);
    assert!(config.window_starts_maximized());
}

#[test]
fn config_file_zero_size_means_default() {
    let config = ApplicationConfig::new(b"window_inner_width = 0\nwindow_inner_height=0");
    assert_eq!(config.window_inner_width(), 960);
    assert_eq!(config.window_inner_height(), 540);
}

#[test]
fn config_file_lines_parse_to_settings() {
    let line = b"  window_inner_height\t=  42 ";
    assert_eq!(parse_line(line, 0, line.len()), Some(Setting::WindowInnerHeight(42)));
    let line = b"window_inner_widthx = 4";
    assert_eq!(parse_line(line, 0, line.len()), None);
    let line = b"window_starts_maximized = true";
    assert_eq!(parse_line(line, 0, line.len()), Some(Setting::WindowStartsMaximized(true)));
    let line = b"window_inner_width = 4294967295";
    assert_eq!(parse_line(line, 0, line.len()), Some(Setting::WindowInnerWidth(u32::MAX)));
}

#[test]
fn last_width_wins_and_setters_commute() {
    let a = AppConfigBuilder::new()
        .with_window_inner_width(100)
        .with_window_inner_width(300)
        .with_window_inner_height(200)
        .build();
    let b = AppConfigBuilder::new()
        .with_window_inner_height(200)
        .with_window_inner_width(300)
        .build();
    assert_eq!(a.window_inner_width(), 300);
    assert_eq!(a.window_inner_width(), b.window_inner_width());
    assert_eq!(a.window_inner_height(), b.window_inner_height());
}

#[test]
fn default_builder_builds_default_config() {
    let built = AppConfigBuilder::default().build();
    let fresh = AppConfigBuilder::new().build();
    let default = ApplicationConfig::default();
    for c in [&built, &fresh] {
        assert_eq!(c.window_inner_width(), default.window_inner_width());
        assert_eq!(c.window_inner_height(), default.window_inner_height());
        assert_eq!(c.window_starts_maximized(), default.window_starts_maximized());
    }
}
