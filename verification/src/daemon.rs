//! The decisions of the daemon and of the command line.

use vstd::prelude::*;

use crate::clock::{clock_can_tell, secs_since_epoch};
use crate::llm::engine::{EngineManager, ManagerView};
use crate::text::{
    is_blank, is_white_space, trimmed, trimming_is_idempotent, trimming_takes_only_white_space,
};

verus! {

// ── Idle exit ────────────────────────────────────────────────────────────────

/// The greatest and the smallest number of seconds between two looks at the
/// time idle.
pub const MAX_CHECK_SECS: u64 = 60;

pub const MIN_CHECK_SECS: u64 = 10;

/// A quarter of the idle timeout, but no more than a minute and no less than
/// ten seconds.
pub open spec fn check_secs(idle_secs: u64) -> int {
    let quarter = (idle_secs / 4) as int;
    if quarter < MIN_CHECK_SECS {
        MIN_CHECK_SECS as int
    } else if quarter > MAX_CHECK_SECS {
        MAX_CHECK_SECS as int
    } else {
        quarter
    }
}

/// How many seconds to wait before the next look at the time idle.
pub fn idle_check_secs(idle_secs: u64) -> (r: u64)
    ensures
        r == check_secs(idle_secs),
{
    let quarter: u64 = idle_secs / 4;
    if quarter < MIN_CHECK_SECS {
        MIN_CHECK_SECS
    } else if quarter > MAX_CHECK_SECS {
        MAX_CHECK_SECS
    } else {
        quarter
    }
}

/// How many seconds to wait between two looks at the time idle; nothing where
/// the daemon never exits by itself, and so never looks.
pub fn idle_checks(timeout: Option<u64>) -> (r: Option<u64>)
    ensures
        match timeout {
            None => r is None,
            Some(idle_secs) => r matches Some(secs) && secs == check_secs(idle_secs),
        },
{
    match timeout {
        None => None,
        Some(idle_secs) => Some(idle_check_secs(idle_secs)),
    }
}

/// Does the daemon exit after `idle` seconds without a request?
pub open spec fn exits_after(idle: int, idle_secs: u64) -> bool {
    idle > 0 && idle >= idle_secs
}

/// Has the idle timeout been reached at `now`?
pub fn idle_exit_at(engine: &EngineManager, idle_secs: u64, now: u64) -> (r: bool)
    ensures
        r == exits_after(engine@.idle_for(now), idle_secs),
{
    let idle = engine.seconds_idle_at(now);
    idle > 0 && idle >= idle_secs
}

/// Has the idle timeout been reached?
pub fn idle_exit(engine: &EngineManager, idle_secs: u64) -> (r: bool)
    ensures
        exists|passed: Option<u64>| #[trigger]
            clock_can_tell(passed) && r == exits_after(
                engine@.idle_for(secs_since_epoch(passed)),
                idle_secs,
            ),
        engine@.last_active == 0 ==> !r,
{
    let idle = engine.seconds_idle();
    idle > 0 && idle >= idle_secs
}

/// Has the idle timeout been reached with no request under way? A daemon that
/// serves `serving` requests is not inactive, however long they take.
pub fn inactive_exit(engine: &EngineManager, serving: usize, idle_secs: u64) -> (r: bool)
    ensures
        serving > 0 ==> !r,
        serving == 0 ==> exists|passed: Option<u64>| #[trigger]
            clock_can_tell(passed) && r == exits_after(
                engine@.idle_for(secs_since_epoch(passed)),
                idle_secs,
            ),
{
    if serving > 0 {
        return false;
    }
    idle_exit(engine, idle_secs)
}

// ── Watchdog ─────────────────────────────────────────────────────────────────

/// The microseconds between two pings: half of what the watchdog allows.
pub fn ping_interval_micros(watchdog_micros: u64) -> (r: u64)
    ensures
        r == watchdog_micros as int / 2,
{
    watchdog_micros / 2
}

/// What to do when a ping is due.
#[derive(Debug, Clone, Copy, PartialEq, Eq, Structural)]
pub enum WatchdogAction {
    /// Ping the watchdog.
    Ping,
    /// An inference has run longer than this many seconds: do not ping, so that
    /// the service is restarted.
    Suppress { timeout_secs: u64 },
}

/// What to do when a ping is due at `now`.
pub fn watchdog_at(engine: &EngineManager, now: u64) -> (r: WatchdogAction)
    ensures
        r == (if engine@.hung_at(now) {
            WatchdogAction::Suppress { timeout_secs: engine@.config.inference_timeout_secs }
        } else {
            WatchdogAction::Ping
        }),
{
    if engine.inference_hung_at(now) {
        WatchdogAction::Suppress { timeout_secs: engine.config().inference_timeout_secs }
    } else {
        WatchdogAction::Ping
    }
}

// ── Input ────────────────────────────────────────────────────────────────────

/// Where the text to rewrite comes from.
pub enum Input {
    /// It was given as an argument.
    Argument(String),
    /// It was read from standard input.
    Stdin(String),
}

/// The text of `input`: an argument as it is, standard input without the white
/// space around it.
pub open spec fn input_text(input: Input) -> Seq<char> {
    match input {
        Input::Argument(text) => text@,
        Input::Stdin(text) => trimmed(text@),
    }
}

/// The text to rewrite.
pub fn read_input(input: Input) -> (r: String)
    ensures
        r@ == input_text(input),
{
    match input {
        Input::Argument(text) => text,
        Input::Stdin(text) => text.as_str().trim().to_owned(),
    }
}

/// The text to rewrite, or the message that there is none.
pub fn require_input(input: Input) -> (r: Result<String, &'static str>)
    ensures
        match r {
            Ok(text) => text@ == input_text(input) && text@.len() > 0,
            Err(message) => {
                &&& input_text(input).len() == 0
                &&& message@ == "no text provided (pass it as an argument or via stdin)"@
            },
        },
{
    let text = read_input(input);
    if text.as_str().is_empty() {
        Err("no text provided (pass it as an argument or via stdin)")
    } else {
        Ok(text)
    }
}

// ── Laws ─────────────────────────────────────────────────────────────────────

/// Nothing of the input is lost but white space at its two ends, and that only
/// of standard input: an argument is taken as it is, and standard input is the
/// text with something blank in front of it and behind it. The text itself then
/// neither begins nor ends with white space.
pub proof fn input_loses_only_white_space_around_it(argument: String, stdin: String)
    ensures
        input_text(Input::Argument(argument)) == argument@,
        exists|front: Seq<char>, back: Seq<char>|
            #[trigger] is_blank(front) && #[trigger] is_blank(back) && stdin@ == front + input_text(
                Input::Stdin(stdin),
            ) + back,
        ({
            let text = input_text(Input::Stdin(stdin));
            text.len() > 0 ==> !is_white_space(text[0]) && !is_white_space(text.last())
        }),
{
    trimming_takes_only_white_space(stdin@);
    trimming_is_idempotent(stdin@);
}

/// The daemon looks at the time idle every quarter of its timeout, where that is
/// from ten seconds to a minute; more often than every ten seconds, or less often
/// than every minute, it never looks.
pub proof fn idle_checks_come_every_quarter(idle_secs: u64)
    ensures
        40 <= idle_secs <= 240 ==> check_secs(idle_secs) == idle_secs as int / 4,
        idle_secs < 40 ==> check_secs(idle_secs) == 10,
        idle_secs > 240 ==> check_secs(idle_secs) == 60,
{
}

/// The daemon exits once it has been idle for its timeout, at least a second, and
/// not before.
pub proof fn exits_come_with_the_timeout(idle: int, idle_secs: u64)
    requires
        idle >= 0,
    ensures
        idle < idle_secs ==> !exits_after(idle, idle_secs),
        idle >= idle_secs && idle >= 1 ==> exits_after(idle, idle_secs),
        !exits_after(0, idle_secs),
{
}

/// A daemon that was never used does not exit. One that was, exits just when
/// its timeout has passed since the last request.
pub proof fn idle_daemons_exit(m: ManagerView, last: u64, now: u64, idle_secs: u64)
    requires
        last > 0,
    ensures
        !exits_after(m.touched(0).idle_for(now), idle_secs),
        exits_after(m.touched(last).idle_for(now), idle_secs) <==> now > last && now - last
            >= idle_secs,
{
}

/// The daemon looks at the time idle at least once a minute and at most every
/// ten seconds, and four times within a timeout that is long enough for that.
pub proof fn idle_checks_are_frequent(idle_secs: u64)
    ensures
        10 <= check_secs(idle_secs) <= 60,
        idle_secs >= 40 ==> 4 * check_secs(idle_secs) <= idle_secs,
{
}

} // verus!
