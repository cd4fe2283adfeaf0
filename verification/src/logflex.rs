//! The logic of a log setup: which records pass, how a record's line reads,
//! and how threads are labelled in it.

pub mod colors;

use crate::text::{decimal, opt_str_view, pad_left, push_decimal, push_decimal_padded_left};
use colors::{
    padded_level, push_padded_level, Color, ColoredLevelConfig, Level, is_colored_text,
};
use vstd::prelude::*;
use vstd::string::*;

verus! {

/// The numeric id of a thread.
pub struct ThreadId(pub u64);

/// Hands out the next number of an unnamed thread: returns the counter and
/// advances it by one (wrapping, as an atomic `fetch_add` does).
pub fn uname_count(count: &mut usize) -> (r: usize)
    ensures
        r == *old(count),
        *final(count) == old(count).wrapping_add(1),
{
    let r = *count;
    *count = count.wrapping_add(1);
    r
}

/// The counter after `k` calls of `uname_count` on a counter that held `start`.
pub open spec fn counter_after(start: usize, k: nat) -> usize
    decreases k,
{
    if k == 0 {
        start
    } else {
        counter_after(start, (k - 1) as nat).wrapping_add(1)
    }
}

/// Unnamed threads are numbered 0, 1, 2, ... with no number skipped: on a
/// counter that starts at 0, the call made after `k` earlier calls (while
/// `k` has not reached `usize::MAX`) returns `k`, the counter it finds.
pub proof fn law_uname_count_sequence(k: nat)
    requires
        k <= usize::MAX,
    ensures
        counter_after(0, k) == k,
    decreases k,
{
    if k > 0 {
        law_uname_count_sequence((k - 1) as nat);
    }
}

/// The label of a thread: its id, `_`, and its name; an unnamed thread gets
/// `<uname-N>` with `N` the number `unnamed` held, right-aligned in two places.
pub open spec fn thread_label_text(id: u64, name: Option<Seq<char>>, unnamed: usize) -> Seq<char> {
    decimal(id as nat) + seq!['_'] + match name {
        Some(n) => n,
        None => seq!['<', 'u', 'n', 'a', 'm', 'e', '-'] + pad_left(decimal(unnamed as nat), 2)
            + seq!['>'],
    }
}

/// Labels a thread for log lines (`{id}_{name}`, or `{id}_<uname-{:2}>` for a
/// thread without a name, which then takes the next unnamed number).
pub fn thread_label(id: &ThreadId, name: Option<&str>, unnamed: &mut usize) -> (r: String)
    ensures
        r@ == thread_label_text(id.0, opt_str_view(name), *old(unnamed)),
        name matches Some(n) ==> r@ == decimal(id.0 as nat) + seq!['_'] + n@,
        name is Some ==> *final(unnamed) == *old(unnamed),
        name is None ==> *final(unnamed) == old(unnamed).wrapping_add(1),
{
    proof {
        reveal_strlit("_");
        reveal_strlit("<uname-");
        reveal_strlit(">");
    }
    let mut r = String::new();
    push_decimal(&mut r, id.0);
    r.append("_");
    match name {
        Some(n) => {
            r.append(n);
        },
        None => {
            let k = uname_count(unnamed);
            r.append("<uname-");
            push_decimal_padded_left(&mut r, k as u64, 2);
            r.append(">");
        },
    }
    assert(r@ =~= thread_label_text(id.0, opt_str_view(name), *old(unnamed)));
    r
}

/// A named thread's label is its decimal id, `_`, and then its whole name.
pub proof fn law_named_thread_label(id: u64, name: Seq<char>, unnamed: usize)
    ensures
        thread_label_text(id, Some(name), unnamed) == decimal(id as nat) + seq!['_'] + name,
        thread_label_text(id, Some(name), unnamed).len() == decimal(id as nat).len() + 1
            + name.len(),
        thread_label_text(id, Some(name), unnamed).skip(decimal(id as nat).len() + 1int) == name,
{
    assert((decimal(id as nat) + seq!['_'] + name).skip(decimal(id as nat).len() + 1int) =~= name);
}

/// Whether `label` shows `level` as a log line does: colored when a color
/// configuration is set, otherwise the plain name padded to five characters.
pub open spec fn is_level_label(
    colors: Option<ColoredLevelConfig>,
    level: Level,
    label: Seq<char>,
) -> bool {
    match colors {
        Some(cfg) => is_colored_text(label, cfg.color_of(level), level),
        None => label == padded_level(level),
    }
}

/// The level as a log line shows it.
pub fn level_label(colors: &Option<ColoredLevelConfig>, level: Level) -> (r: String)
    ensures
        is_level_label(*colors, level, r@),
{
    match colors {
        Some(cfg) => cfg.color(level).render(),
        None => {
            let mut r = String::new();
            push_padded_level(&mut r, level);
            assert(r@ =~= padded_level(level));
            r
        },
    }
}

/// A log line: `{date} {level} [{thread}] ({file}:{line}) [{target}] -- {msg}`,
/// with `*` for an unknown file and `0` for an unknown line.
pub open spec fn log_line_text(
    date: Seq<char>,
    level: Seq<char>,
    thread_name: Seq<char>,
    file: Option<Seq<char>>,
    line: Option<u32>,
    target: Seq<char>,
    msg: Seq<char>,
) -> Seq<char> {
    date + seq![' '] + level + seq![' ', '['] + thread_name + seq![']', ' ', '('] + match file {
        Some(f) => f,
        None => seq!['*'],
    } + seq![':'] + decimal(
        match line {
            Some(l) => l as nat,
            None => 0,
        },
    ) + seq![')', ' ', '['] + target + seq![']', ' ', '-', '-', ' '] + msg
}

/// A log line starts with the whole date and ends with the whole message,
/// after `] -- `.
pub proof fn law_log_line_ends_with_message(
    date: Seq<char>,
    level: Seq<char>,
    thread_name: Seq<char>,
    file: Option<Seq<char>>,
    line: Option<u32>,
    target: Seq<char>,
    msg: Seq<char>,
)
    ensures
        ({
            let text = log_line_text(date, level, thread_name, file, line, target, msg);
            &&& text.len() >= date.len() + 5 + msg.len()
            &&& text.take(date.len() as int) == date
            &&& text.skip(text.len() - msg.len()) == msg
            &&& text.subrange(text.len() - msg.len() - 5, text.len() - msg.len()) == seq![
                ']',
                ' ',
                '-',
                '-',
                ' ',
            ]
        }),
{
    let text = log_line_text(date, level, thread_name, file, line, target, msg);
    let head = date + seq![' '] + level + seq![' ', '['] + thread_name + seq![']', ' ', '(']
        + match file {
        Some(f) => f,
        None => seq!['*'],
    } + seq![':'] + decimal(
        match line {
            Some(l) => l as nat,
            None => 0,
        },
    ) + seq![')', ' ', '['] + target;
    assert(text == head + seq![']', ' ', '-', '-', ' '] + msg);
    assert(text.take(date.len() as int) =~= date);
    assert(text.skip(text.len() - msg.len()) =~= msg);
    assert(text.subrange(text.len() - msg.len() - 5, text.len() - msg.len()) =~= seq![
        ']',
        ' ',
        '-',
        '-',
        ' ',
    ]);
}

/// Lays out a log line from its parts, the level already rendered.
pub fn log_line(
    date: &str,
    level: &str,
    thread_name: &str,
    file: Option<&str>,
    line: Option<u32>,
    target: &str,
    msg: &str,
) -> (r: String)
    ensures
        r@ == log_line_text(
            date@,
            level@,
            thread_name@,
            opt_str_view(file),
            line,
            target@,
            msg@,
        ),
        r@.len() >= date@.len() + msg@.len(),
        r@.take(date@.len() as int) == date@,
        r@.skip(r@.len() - msg@.len()) == msg@,
{
    proof {
        reveal_strlit(" ");
        reveal_strlit(" [");
        reveal_strlit("] (");
        reveal_strlit("*");
        reveal_strlit(":");
        reveal_strlit(") [");
        reveal_strlit("] -- ");
    }
    let mut r = String::new();
    r.append(date);
    r.append(" ");
    r.append(level);
    r.append(" [");
    r.append(thread_name);
    r.append("] (");
    match file {
        Some(f) => r.append(f),
        None => r.append("*"),
    }
    r.append(":");
    let n: u32 = match line {
        Some(l) => l,
        None => 0,
    };
    push_decimal(&mut r, n as u64);
    r.append(") [");
    r.append(target);
    r.append("] -- ");
    r.append(msg);
    assert(r@ =~= log_line_text(
        date@,
        level@,
        thread_name@,
        opt_str_view(file),
        line,
        target@,
        msg@,
    ));
    proof {
        law_log_line_ends_with_message(
            date@,
            level@,
            thread_name@,
            opt_str_view(file),
            line,
            target@,
            msg@,
        );
    }
    r
}

/// Formats a log record: the date, the level (colored when a color
/// configuration is set), the thread, the source location, the target and
/// the message.
pub fn log_format(
    colors: &Option<ColoredLevelConfig>,
    date: &str,
    level: Level,
    thread_name: &str,
    file: Option<&str>,
    line: Option<u32>,
    target: &str,
    msg: &str,
) -> (r: String)
    ensures
        exists|label: Seq<char>|
            is_level_label(*colors, level, label) && r@ == log_line_text(
                date@,
                label,
                thread_name@,
                opt_str_view(file),
                line,
                target@,
                msg@,
            ),
        r@.len() >= date@.len() + msg@.len(),
        r@.take(date@.len() as int) == date@,
        r@.skip(r@.len() - msg@.len()) == msg@,
{
    let label = level_label(colors, level);
    let r = log_line(date, label.as_str(), thread_name, file, line, target, msg);
    assert(is_level_label(*colors, level, label@));
    r
}

/// The level directive of a verbosity: 0 `warn`, 1 `info`, 2 `debug`, 3 and
/// more `trace`.
pub open spec fn level_directive(verbosity: u64) -> Seq<char> {
    if verbosity == 0 {
        "warn"@
    } else if verbosity == 1 {
        "info"@
    } else if verbosity == 2 {
        "debug"@
    } else {
        "trace"@
    }
}

/// The crates whose records are kept at `info` and above whatever the
/// verbosity.
pub open spec fn quiet_crates() -> Seq<Seq<char>> {
    seq![
        "mio"@,
        "tokio_reactor"@,
        "tokio_core"@,
        "tokio"@,
        "tokio_threadpool"@,
        "hyper"@,
        "want"@,
        "tokio_io"@,
    ]
}

/// `, {crate}=info` for each crate, in order.
pub open spec fn quiet_directives(crates: Seq<Seq<char>>) -> Seq<char>
    decreases crates.len(),
{
    if crates.len() == 0 {
        seq![]
    } else {
        quiet_directives(crates.drop_last()) + ", "@ + crates.last() + "=info"@
    }
}

/// The filter of a verbosity: its level directive, then the quiet crates.
pub open spec fn filter_text(verbosity: u64) -> Seq<char> {
    level_directive(verbosity) + quiet_directives(quiet_crates())
}

/// The colors of a colored setup: red errors, yellow warnings, green infos,
/// white debug and trace records.
pub open spec fn setup_colors() -> ColoredLevelConfig {
    ColoredLevelConfig {
        error: Color::Red,
        warn: Color::Yellow,
        info: Color::Green,
        debug: Color::White,
        trace: Color::White,
    }
}

/// Every verbosity from 3 up gives the same filter as 3 (trace).
pub proof fn law_verbosity_saturates(verbosity: u64)
    requires
        verbosity >= 3,
    ensures
        filter_text(verbosity) == filter_text(3),
{
}

/// The filters of two verbosities differ only in their level directive: the
/// directives for the quiet crates follow it, the same for every verbosity.
pub proof fn law_filter_shape(a: u64, b: u64)
    ensures
        filter_text(a).take(level_directive(a).len() as int) == level_directive(a),
        filter_text(a).skip(level_directive(a).len() as int) == filter_text(b).skip(
            level_directive(b).len() as int,
        ),
{
    assert(filter_text(a).take(level_directive(a).len() as int) =~= level_directive(a));
    assert(filter_text(a).skip(level_directive(a).len() as int) =~= quiet_directives(
        quiet_crates(),
    ));
    assert(filter_text(b).skip(level_directive(b).len() as int) =~= quiet_directives(
        quiet_crates(),
    ));
}

/// What a logger is started with: its filter, and the level colors when the
/// output is colored.
pub struct LogSetup {
    pub filter: String,
    pub colors: Option<ColoredLevelConfig>,
}

/// The setup of a logger of the given verbosity (0 warn, 1 info, 2 debug,
/// 3 and more trace), colored unless `nocolor`.
pub fn set(warn0_info1_debug2_trace3: u64, nocolor: bool) -> (r: LogSetup)
    ensures
        r.filter@ == filter_text(warn0_info1_debug2_trace3),
        r.colors == (if nocolor {
            None
        } else {
            Some(setup_colors())
        }),
{
    let colors = if !nocolor {
        Some(
            ColoredLevelConfig::new().error(Color::Red).warn(Color::Yellow).info(Color::Green).debug(
                Color::White,
            ).trace(Color::White),
        )
    } else {
        None
    };
    let mut filter = String::from_str(
        if warn0_info1_debug2_trace3 == 0 {
            "warn"
        } else if warn0_info1_debug2_trace3 == 1 {
            "info"
        } else if warn0_info1_debug2_trace3 == 2 {
            "debug"
        } else {
            "trace"
        },
    );
    let crates: Vec<&str> = vec![
        "mio",
        "tokio_reactor",
        "tokio_core",
        "tokio",
        "tokio_threadpool",
        "hyper",
        "want",
        "tokio_io",
    ];
    let ghost quiet = quiet_crates();
    assert(crates@.map_values(|c: &str| c@) =~= quiet);
    let mut i: usize = 0;
    while i < crates.len()
        invariant
            i <= crates.len(),
            crates@.map_values(|c: &str| c@) == quiet,
            quiet == quiet_crates(),
            filter@ == level_directive(warn0_info1_debug2_trace3) + quiet_directives(quiet.take(i as int)),
        decreases crates.len() - i,
    {
        let c = crates[i];
        assert(c@ == quiet[i as int]);
        filter.append(", ");
        filter.append(c);
        filter.append("=info");
        i = i + 1;
        assert(quiet.take(i as int).drop_last() =~= quiet.take(i - 1));
    }
    assert(quiet.take(i as int) =~= quiet);
    LogSetup { filter, colors }
}

} // verus!
