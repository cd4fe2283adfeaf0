use utils::logflex::colors::{Color, ColoredLevelConfig, ColoredLogLevel, Level};
use utils::logflex::{level_label, log_format, log_line, thread_label, uname_count, ThreadId};

const QUIET: &str = ", mio=info, tokio_reactor=info, tokio_core=info, tokio=info, tokio_threadpool=info, hyper=info, want=info, tokio_io=info";

#[test]
fn set_builds_the_filter_of_each_verbosity() {
    assert_eq!(utils::logflex::set(0, true).filter, format!("warn{}", QUIET));
    assert_eq!(utils::logflex::set(1, true).filter, format!("info{}", QUIET));
    assert_eq!(utils::logflex::set(2, true).filter, format!("debug{}", QUIET));
    assert_eq!(utils::logflex::set(3, true).filter, format!("trace{}", QUIET));
    assert_eq!(utils::logflex::set(42, false).filter, format!("trace{}", QUIET));
}

#[test]
fn set_colors_unless_nocolor() {
    assert!(utils::logflex::set(1, true).colors.is_none());
    let c = utils::logflex::set(1, false).colors.unwrap();
    assert_eq!(c.error, Color::Red);
    assert_eq!(c.warn, Color::Yellow);
    assert_eq!(c.info, Color::Green);
    assert_eq!(c.debug, Color::White);
    assert_eq!(c.trace, Color::White);
}

#[test]
fn default_colors() {
    let c = ColoredLevelConfig::new();
    assert_eq!(c.get_color(&Level::Error), Color::Red);
    assert_eq!(c.get_color(&Level::Warn), Color::Yellow);
    assert_eq!(c.get_color(&Level::Info), Color::White);
    assert_eq!(c.get_color(&Level::Debug), Color::White);
    assert_eq!(c.get_color(&Level::Trace), Color::White);
    let d: ColoredLevelConfig = Default::default();
    assert_eq!(d.get_color(&Level::Error), Color::Red);
}

#[test]
fn builder_sets_one_level() {
    let c = ColoredLevelConfig::new().info(Color::Blue).trace(Color::AnsiColor(8));
    assert_eq!(c.get_color(&Level::Info), Color::Blue);
    assert_eq!(c.get_color(&Level::Trace), Color::AnsiColor(8));
    assert_eq!(c.get_color(&Level::Error), Color::Red);
    let c = c.error(Color::Cyan).warn(Color::Magenta).debug(Color::Black);
    assert_eq!(c.get_color(&Level::Error), Color::Cyan);
    assert_eq!(c.get_color(&Level::Warn), Color::Magenta);
    assert_eq!(c.get_color(&Level::Debug), Color::Black);
}

#[test]
fn colored_rendering() {
    let c = ColoredLevelConfig::new().info(Color::Green);
    assert_eq!(c.color(Level::Info).render(), "\x1B[32mINFO \x1B[0m");
    assert_eq!(c.color(Level::Error).render(), "\x1B[31mERROR\x1B[0m");
    assert_eq!(Level::Warn.colored(Color::BrightYellow).render(), "\x1B[93mWARN \x1B[0m");
    assert_eq!(Level::Debug.colored(Color::AnsiColor(200)).render(), "\x1B[38;5;200mDEBUG\x1B[0m");
    let w = Level::Trace.colored(Color::White);
    assert_eq!(w.text, Level::Trace);
    assert_eq!(w.color, Color::White);
}

#[test]
fn plain_and_colored_labels() {
    assert_eq!(level_label(&None, Level::Warn), "WARN ");
    assert_eq!(level_label(&None, Level::Trace), "TRACE");
    let colors = utils::logflex::set(1, false).colors;
    assert_eq!(level_label(&colors, Level::Info), "\x1B[32mINFO \x1B[0m");
}

#[test]
fn log_format_lays_out_a_record() {
    let line = log_format(
        &None,
        "2019-03-01 12:00:00.123",
        Level::Info,
        "1_main",
        Some("src/main.rs"),
        Some(216),
        "r4j",
        "booting up, info 3",
    );
    assert_eq!(line, "2019-03-01 12:00:00.123 INFO  [1_main] (src/main.rs:216) [r4j] -- booting up, info 3");
    let line = log_format(&utils::logflex::set(1, false).colors, "d", Level::Error, "t", None, None, "x", "m");
    assert_eq!(line, "d \x1B[31mERROR\x1B[0m [t] (*:0) [x] -- m");
}

#[test]
fn log_line_with_given_label() {
    assert_eq!(log_line("a", "L", "b", None, Some(4294967295), "c", ""), "a L [b] (*:4294967295) [c] -- ");
}

#[test]
fn thread_labels() {
    let mut n: usize = 0;
    assert_eq!(thread_label(&ThreadId(1), Some("main"), &mut n), "1_main");
    assert_eq!(n, 0);
    assert_eq!(thread_label(&ThreadId(12), None, &mut n), "12_<uname- 0>");
    assert_eq!(n, 1);
    assert_eq!(thread_label(&ThreadId(13), None, &mut n), "13_<uname- 1>");
    let mut m: usize = 123;
    assert_eq!(thread_label(&ThreadId(0), None, &mut m), "0_<uname-123>");
    assert_eq!(m, 124);
}

#[test]
fn uname_count_counts_and_wraps() {
    let mut n: usize = 5;
    assert_eq!(uname_count(&mut n), 5);
    assert_eq!(uname_count(&mut n), 6);
    assert_eq!(n, 7);
    let mut top = usize::MAX;
    assert_eq!(uname_count(&mut top), usize::MAX);
    assert_eq!(top, 0);
}

#[test]
fn truecolor_renders_with_a_possible_code() {
    let text = Level::Info.colored(Color::TrueColor { r: 255, g: 0, b: 0 }).render();
    let named = ["30", "31", "32", "33", "34", "35", "36", "37", "90", "91", "92", "93", "94", "95", "96", "97"];
    let mut codes: Vec<String> = named.iter().map(|c| c.to_string()).collect();
    codes.push("38;2;255;0;0".to_string());
    assert!(codes.iter().any(|c| text == format!("\x1B[{}mINFO \x1B[0m", c)));
}

#[test]
fn unnamed_numbers_run_from_zero() {
    let mut n: usize = 0;
    for k in 0..100usize {
        assert_eq!(uname_count(&mut n), k);
    }
}
