//! The text of console log lines: ANSI colour codes, a timestamp, a level tag,
//! an optional subsystem tag and the message.

use vstd::prelude::*;
use vstd::string::*;
use crate::decimal::{decimal, signed_decimal, u32_to_decimal, i8_to_decimal};
use crate::metadata::{Color, DEBUG, color_red, color_green, color_yellow, color_blue, color_cyan, color_dark_grey};
use crate::status::GameStatus;

verus! {

/// Whether changes of the run status are logged.
pub const GAME_STATE_DEBUG: bool = true;

/// How severe a log line is.
#[derive(Clone, Copy, Debug, PartialEq, Eq, Structural)]
pub enum Level {
    Info,
    Warn,
    Error,
}

/// The subsystem a log line comes from.
#[derive(Clone, Copy, Debug, PartialEq, Eq, Structural)]
pub enum Scope {
    General,
    Assets,
    OpenGl,
}

/// `value` behind the escape code that selects `color` as the foreground.
pub open spec fn colored(color: Color, value: Seq<char>) -> Seq<char> {
    "\x1b[38;2;"@ + decimal(color.red as nat) + ";"@ + decimal(color.green as nat) + ";"@
        + decimal(color.blue as nat) + "m"@ + value
}

/// The escape code that restores the default colours.
pub open spec fn reset_code() -> Seq<char> {
    "\x1b[0m"@
}

/// The tag of the asset loader, in yellow.
pub open spec fn asset_prefix_text() -> Seq<char> {
    colored(color_yellow(), "[AssetLoader]"@)
}

/// The tag of the OpenGL renderer, in cyan.
pub open spec fn opengl_prefix_text() -> Seq<char> {
    colored(color_cyan(), "[Renderer - OpenGL]"@)
}

pub open spec fn level_color(level: Level) -> Color {
    match level {
        Level::Info => color_green(),
        Level::Warn => color_yellow(),
        Level::Error => color_red(),
    }
}

/// The level tag. A general warning carries no space after its tag; the
/// space follows the colour reset instead.
pub open spec fn level_tag(level: Level, scope: Scope) -> Seq<char> {
    match level {
        Level::Info => "[INFO] "@,
        Level::Warn => if scope == Scope::General {
            "[WARN]"@
        } else {
            "[WARN] "@
        },
        Level::Error => "[ERROR] "@,
    }
}

/// The subsystem tag, coloured once more in the subsystem's colour.
pub open spec fn scope_tag(scope: Scope) -> Seq<char> {
    match scope {
        Scope::General => Seq::<char>::empty(),
        Scope::Assets => colored(color_yellow(), asset_prefix_text()),
        Scope::OpenGl => colored(color_cyan(), opengl_prefix_text()),
    }
}

/// What stands between the colour reset and the message.
pub open spec fn gap(level: Level, scope: Scope) -> Seq<char> {
    match (level, scope) {
        (Level::Info, Scope::Assets) => " "@,
        (Level::Info, Scope::OpenGl) => " "@,
        (Level::Warn, Scope::General) => " "@,
        (Level::Warn, Scope::OpenGl) => " "@,
        _ => Seq::<char>::empty(),
    }
}

/// A whole log line: the timestamp in dark grey, a space, the coloured level
/// tag, the subsystem tag, the colour reset, the gap and the message.
pub open spec fn line(level: Level, scope: Scope, time: Seq<char>, args: Seq<char>) -> Seq<char> {
    colored(color_dark_grey(), time) + " "@ + colored(level_color(level), level_tag(level, scope))
        + scope_tag(scope) + reset_code() + gap(level, scope) + args
}

/// The message that reports a run status.
pub open spec fn game_state_message(state: GameStatus, exit_code: i8) -> Seq<char> {
    let head = colored(color_blue(), "[GameState]"@) + " "@ + reset_code();
    match state {
        GameStatus::Running => head + "Game is running"@,
        GameStatus::Paused => head + "Game is paused"@,
        GameStatus::Stopped => head + "Game is stopped... Exiting with code "@ + signed_decimal(
            exit_code as int,
        ),
    }
}

/// The log line for a run status: a warning while the game goes on, an error
/// once it has stopped, and nothing where status logging is switched off.
pub open spec fn game_state_text(state: GameStatus, exit_code: i8, time: Seq<char>) -> Seq<char> {
    if DEBUG || GAME_STATE_DEBUG {
        let level = if state == GameStatus::Stopped {
            Level::Error
        } else {
            Level::Warn
        };
        line(level, Scope::General, time, game_state_message(state, exit_code))
    } else {
        Seq::<char>::empty()
    }
}

/// Puts the 24-bit foreground colour code for `color` before `value`.
pub fn set_color(color: Color, value: &str) -> (out: String)
    ensures
        out@ == colored(color, value@),
{
    let mut out = String::from_str("\x1b[38;2;");
    let red = u32_to_decimal(color.red as u32);
    out.append(red.as_str());
    out.append(";");
    let green = u32_to_decimal(color.green as u32);
    out.append(green.as_str());
    out.append(";");
    let blue = u32_to_decimal(color.blue as u32);
    out.append(blue.as_str());
    out.append("m");
    out.append(value);
    out
}

/// The code that resets colour and formatting.
pub fn reset_color() -> (out: String)
    ensures
        out@ == reset_code(),
{
    String::from_str("\x1b[0m")
}

/// The asset loader's tag.
pub fn asset_prefix() -> (out: String)
    ensures
        out@ == asset_prefix_text(),
{
    set_color(color_yellow(), "[AssetLoader]")
}

/// The OpenGL renderer's tag.
pub fn opengl_prefix() -> (out: String)
    ensures
        out@ == opengl_prefix_text(),
{
    set_color(color_cyan(), "[Renderer - OpenGL]")
}

/// The local time as `[YYYY-MM-DD][HH:MM:SS]`, from `chrono::Local::now`
/// and `DateTime::format`. Nothing is claimed of the text: it depends on
/// the clock and the time zone of the machine.
#[verifier::external_body]
pub fn get_time() -> (out: String)
{
    chrono::Local::now().format("[%Y-%m-%d][%H:%M:%S]").to_string()
}

/// Builds the log line of the given level and subsystem for a timestamp and
/// a message.
pub fn log_line(level: Level, scope: Scope, time: &str, args: &str) -> (out: String)
    ensures
        out@ == line(level, scope, time@, args@),
{
    let mut out = set_color(color_dark_grey(), time);
    out.append(" ");
    let tag = match level {
        Level::Info => set_color(color_green(), "[INFO] "),
        Level::Warn => match scope {
            Scope::General => set_color(color_yellow(), "[WARN]"),
            _ => set_color(color_yellow(), "[WARN] "),
        },
        Level::Error => set_color(color_red(), "[ERROR] "),
    };
    out.append(tag.as_str());
    match scope {
        Scope::General => {},
        Scope::Assets => {
            let prefix = asset_prefix();
            let tagged = set_color(color_yellow(), prefix.as_str());
            out.append(tagged.as_str());
        },
        Scope::OpenGl => {
            let prefix = opengl_prefix();
            let tagged = set_color(color_cyan(), prefix.as_str());
            out.append(tagged.as_str());
        },
    }
    let reset = reset_color();
    out.append(reset.as_str());
    let spaced = match (level, scope) {
        (Level::Info, Scope::Assets) => true,
        (Level::Info, Scope::OpenGl) => true,
        (Level::Warn, Scope::General) => true,
        (Level::Warn, Scope::OpenGl) => true,
        _ => false,
    };
    if spaced {
        out.append(" ");
    }
    out.append(args);
    assert(out@ =~= line(level, scope, time@, args@));
    out
}

/// An informational line stamped with the current time.
pub fn info(args: &str) -> (out: String)
    ensures
        exists|time: Seq<char>| out@ == #[trigger] line(Level::Info, Scope::General, time, args@),
{
    let time = get_time();
    log_line(Level::Info, Scope::General, time.as_str(), args)
}

/// An informational line of the asset loader.
pub fn info_assets(args: &str) -> (out: String)
    ensures
        exists|time: Seq<char>| out@ == #[trigger] line(Level::Info, Scope::Assets, time, args@),
{
    let time = get_time();
    log_line(Level::Info, Scope::Assets, time.as_str(), args)
}

/// An informational line of the OpenGL renderer.
pub fn info_opengl(args: &str) -> (out: String)
    ensures
        exists|time: Seq<char>| out@ == #[trigger] line(Level::Info, Scope::OpenGl, time, args@),
{
    let time = get_time();
    log_line(Level::Info, Scope::OpenGl, time.as_str(), args)
}

/// A warning stamped with the current time.
pub fn warn(args: &str) -> (out: String)
    ensures
        exists|time: Seq<char>| out@ == #[trigger] line(Level::Warn, Scope::General, time, args@),
{
    let time = get_time();
    log_line(Level::Warn, Scope::General, time.as_str(), args)
}

/// A warning of the asset loader.
pub fn warn_assets(args: &str) -> (out: String)
    ensures
        exists|time: Seq<char>| out@ == #[trigger] line(Level::Warn, Scope::Assets, time, args@),
{
    let time = get_time();
    log_line(Level::Warn, Scope::Assets, time.as_str(), args)
}

/// A warning of the OpenGL renderer.
pub fn warn_opengl(args: &str) -> (out: String)
    ensures
        exists|time: Seq<char>| out@ == #[trigger] line(Level::Warn, Scope::OpenGl, time, args@),
{
    let time = get_time();
    log_line(Level::Warn, Scope::OpenGl, time.as_str(), args)
}

/// An error line stamped with the current time.
pub fn error(args: &str) -> (out: String)
    ensures
        exists|time: Seq<char>| out@ == #[trigger] line(Level::Error, Scope::General, time, args@),
{
    let time = get_time();
    log_line(Level::Error, Scope::General, time.as_str(), args)
}

/// An error line of the asset loader.
pub fn error_assets(args: &str) -> (out: String)
    ensures
        exists|time: Seq<char>| out@ == #[trigger] line(Level::Error, Scope::Assets, time, args@),
{
    let time = get_time();
    log_line(Level::Error, Scope::Assets, time.as_str(), args)
}

/// An error line of the OpenGL renderer.
pub fn error_opengl(args: &str) -> (out: String)
    ensures
        exists|time: Seq<char>| out@ == #[trigger] line(Level::Error, Scope::OpenGl, time, args@),
{
    let time = get_time();
    log_line(Level::Error, Scope::OpenGl, time.as_str(), args)
}

/// The log line that reports `state` at the given timestamp.
pub fn game_state_at(state: GameStatus, exit_code: i8, time: &str) -> (out: String)
    ensures
        out@ == game_state_text(state, exit_code, time@),
{
    if DEBUG || GAME_STATE_DEBUG {
        let mut message = set_color(color_blue(), "[GameState]");
        message.append(" ");
        let reset = reset_color();
        message.append(reset.as_str());
        match state {
            GameStatus::Running => {
                message.append("Game is running");
                assert(message@ =~= game_state_message(state, exit_code));
                log_line(Level::Warn, Scope::General, time, message.as_str())
            },
            GameStatus::Paused => {
                message.append("Game is paused");
                assert(message@ =~= game_state_message(state, exit_code));
                log_line(Level::Warn, Scope::General, time, message.as_str())
            },
            GameStatus::Stopped => {
                message.append("Game is stopped... Exiting with code ");
                let code = i8_to_decimal(exit_code);
                message.append(code.as_str());
                assert(message@ =~= game_state_message(state, exit_code));
                log_line(Level::Error, Scope::General, time, message.as_str())
            },
        }
    } else {
        String::new()
    }
}

/// The log line that reports `state`, stamped with the current time.
pub fn game_state(state: GameStatus, exit_code: i8) -> (out: String)
    ensures
        exists|time: Seq<char>| out@ == #[trigger] game_state_text(state, exit_code, time),
{
    let time = get_time();
    game_state_at(state, exit_code, time.as_str())
}

} // verus!
