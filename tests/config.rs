use scx_integration_test_framework::config::AppTheme;
use scx_integration_test_framework::config::Config;

#[test]
fn test_merge_configs() {
    let mut a = Config::empty_config();
    a.theme = Some(AppTheme::MidnightGreen);
    a.tick_rate_ms = None;
    a.debug = Some(true);
    a.exclude_bpf = None;

    let mut b = Config::empty_config();
    b.theme = Some(AppTheme::IAmBlue);
    b.tick_rate_ms = Some(114);
    b.debug = None;
    a.exclude_bpf = None;

    let merged = Config::merge(vec![a, b]);

    assert_eq!(merged.theme(), &AppTheme::MidnightGreen);
    assert_eq!(merged.tick_rate_ms(), 114);
    assert_eq!(merged.debug(), true);
    assert_eq!(merged.exclude_bpf(), false);
}

#[test]
fn empty_config_reads_defaults() {
    let c = Config::empty_config();
    assert_eq!(c.theme(), &AppTheme::Default);
    assert_eq!(c.tick_rate_ms(), 250);
    assert!(!c.debug());
    assert!(!c.exclude_bpf());
    assert_eq!(c.stats_socket_path(), "/var/run/scx/root/stats");
    assert_eq!(c.trace_file_prefix(), "scxtop_trace");
    assert_eq!(c.trace_ticks(), 5);
    assert_eq!(c.worker_threads(), 4);
    assert_eq!(c.trace_tick_warmup(), 3);
}

#[test]
fn default_config_sets_three_fields() {
    let c = Config::default_config();
    assert_eq!(c.tick_rate_ms, Some(250));
    assert_eq!(c.debug, Some(false));
    assert_eq!(c.exclude_bpf, Some(false));
    assert_eq!(c.theme, None);
    assert_eq!(c.trace_ticks, None);
    assert!(c.keymap.is_none());
}

#[test]
fn setters_and_set_values_win() {
    let mut c = Config::empty_config();
    c.set_theme(AppTheme::SolarizedDark);
    c.set_tick_rate_ms(20);
    c.stats_socket_path = Some("/tmp/s".to_string());
    c.trace_file_prefix = Some("p".to_string());
    c.trace_ticks = Some(9);
    c.worker_threads = Some(2);
    c.trace_tick_warmup = Some(1);
    assert_eq!(c.theme(), &AppTheme::SolarizedDark);
    assert_eq!(c.tick_rate_ms(), 20);
    assert_eq!(c.stats_socket_path(), "/tmp/s");
    assert_eq!(c.trace_file_prefix(), "p");
    assert_eq!(c.trace_ticks(), 9);
    assert_eq!(c.worker_threads(), 2);
    assert_eq!(c.trace_tick_warmup(), 1);
}

#[test]
fn or_keeps_first_set_value() {
    let mut a = Config::empty_config();
    a.keymap = Some(vec![("q".to_string(), "Quit".to_string())]);
    a.worker_threads = Some(8);
    let mut b = Config::empty_config();
    b.keymap = Some(vec![]);
    b.worker_threads = Some(1);
    b.trace_ticks = Some(7);
    let c = a.or(b);
    assert_eq!(c.keymap.as_ref().map(|k| k.len()), Some(1));
    assert_eq!(c.worker_threads(), 8);
    assert_eq!(c.trace_ticks(), 7);
}

#[test]
fn merge_of_nothing_is_empty() {
    let c = Config::merge(vec![]);
    assert_eq!(c.tick_rate_ms, None);
    assert_eq!(c.theme, None);
}
