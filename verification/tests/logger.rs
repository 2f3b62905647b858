use tile_engine::decimal::{i8_to_decimal, u32_to_decimal};
use tile_engine::logger::{
    asset_prefix, error, error_assets, error_opengl, game_state, game_state_at, get_time, info,
    info_assets, info_opengl, log_line, opengl_prefix, reset_color, set_color, warn, warn_assets,
    warn_opengl, Level, Scope,
};
use tile_engine::metadata::{
    color_black, color_blue, color_cyan, color_dark_grey, color_green, color_magenta, color_red,
    color_white, color_yellow, Color,
};
use tile_engine::status::GameStatus;

const GREY: &str = "\x1b[38;2;63;63;63m";
const RESET: &str = "\x1b[0m";
const ASSETS: &str = "\x1b[38;2;255;255;0m\x1b[38;2;255;255;0m[AssetLoader]";
const OPENGL: &str = "\x1b[38;2;0;255;255m\x1b[38;2;0;255;255m[Renderer - OpenGL]";

/// Whether `text` is a timestamp such as `[2024-01-31][23:59:59]`.
fn is_timestamp(text: &str) -> bool {
    let shape = "[dddd-dd-dd][dd:dd:dd]";
    text.len() == shape.len()
        && text.chars().zip(shape.chars()).all(|(c, s)| if s == 'd' { c.is_ascii_digit() } else { c == s })
}

/// Checks that `line` is `head`, a timestamp, then `tail`.
fn assert_stamped(line: &str, tail: &str) {
    assert!(line.starts_with(GREY), "{line:?}");
    assert!(line.ends_with(tail), "{line:?}");
    let stamp = &line[GREY.len()..line.len() - tail.len()];
    assert!(is_timestamp(stamp), "{stamp:?}");
}

#[test]
fn numbers_are_written_in_decimal() {
    assert_eq!(u32_to_decimal(0), "0");
    assert_eq!(u32_to_decimal(7), "7");
    assert_eq!(u32_to_decimal(10), "10");
    assert_eq!(u32_to_decimal(255), "255");
    assert_eq!(u32_to_decimal(1002003), "1002003");
    assert_eq!(u32_to_decimal(u32::MAX), "4294967295");
    for n in 0..2000u32 {
        assert_eq!(u32_to_decimal(n), n.to_string());
    }
}

#[test]
fn signed_numbers_carry_their_sign() {
    assert_eq!(i8_to_decimal(0), "0");
    assert_eq!(i8_to_decimal(21), "21");
    assert_eq!(i8_to_decimal(-5), "-5");
    assert_eq!(i8_to_decimal(i8::MIN), "-128");
    assert_eq!(i8_to_decimal(i8::MAX), "127");
    for n in i8::MIN..=i8::MAX {
        assert_eq!(i8_to_decimal(n), n.to_string());
    }
}

#[test]
fn the_named_colours_have_their_channels() {
    let rgb = |c: Color| (c.red, c.green, c.blue, c.alpha);
    assert_eq!(rgb(color_red()), (255, 0, 0, 255));
    assert_eq!(rgb(color_green()), (0, 255, 0, 255));
    assert_eq!(rgb(color_yellow()), (255, 255, 0, 255));
    assert_eq!(rgb(color_blue()), (0, 0, 255, 255));
    assert_eq!(rgb(color_magenta()), (255, 0, 255, 255));
    assert_eq!(rgb(color_cyan()), (0, 255, 255, 255));
    assert_eq!(rgb(color_white()), (255, 255, 255, 255));
    assert_eq!(rgb(color_black()), (0, 0, 0, 255));
    assert_eq!(rgb(color_dark_grey()), (63, 63, 63, 255));
}

#[test]
fn a_colour_code_precedes_the_text() {
    assert_eq!(set_color(color_red(), "Hello, World!"), "\x1b[38;2;255;0;0mHello, World!");
    assert_eq!(set_color(color_dark_grey(), ""), "\x1b[38;2;63;63;63m");
    let odd = Color { red: 1, green: 20, blue: 203, alpha: 0 };
    assert_eq!(set_color(odd, "x"), "\x1b[38;2;1;20;203mx");
}

#[test]
fn the_reset_code_is_fixed() {
    assert_eq!(reset_color(), "\x1b[0m");
}

#[test]
fn the_subsystem_tags_are_coloured() {
    assert_eq!(asset_prefix(), "\x1b[38;2;255;255;0m[AssetLoader]");
    assert_eq!(opengl_prefix(), "\x1b[38;2;0;255;255m[Renderer - OpenGL]");
}

#[test]
fn general_lines_have_their_shape() {
    let t = "[2024-01-31][23:59:59]";
    assert_eq!(
        log_line(Level::Info, Scope::General, t, "ready"),
        format!("{GREY}{t} \x1b[38;2;0;255;0m[INFO] {RESET}ready")
    );
    assert_eq!(
        log_line(Level::Warn, Scope::General, t, "careful"),
        format!("{GREY}{t} \x1b[38;2;255;255;0m[WARN]{RESET} careful")
    );
    assert_eq!(
        log_line(Level::Error, Scope::General, t, "broken"),
        format!("{GREY}{t} \x1b[38;2;255;0;0m[ERROR] {RESET}broken")
    );
}

#[test]
fn asset_lines_have_their_shape() {
    let t = "[t]";
    assert_eq!(
        log_line(Level::Info, Scope::Assets, t, "m"),
        format!("{GREY}{t} \x1b[38;2;0;255;0m[INFO] {ASSETS}{RESET} m")
    );
    assert_eq!(
        log_line(Level::Warn, Scope::Assets, t, "m"),
        format!("{GREY}{t} \x1b[38;2;255;255;0m[WARN] {ASSETS}{RESET}m")
    );
    assert_eq!(
        log_line(Level::Error, Scope::Assets, t, "m"),
        format!("{GREY}{t} \x1b[38;2;255;0;0m[ERROR] {ASSETS}{RESET}m")
    );
}

#[test]
fn opengl_lines_have_their_shape() {
    let t = "";
    assert_eq!(
        log_line(Level::Info, Scope::OpenGl, t, "m"),
        format!("{GREY}{t} \x1b[38;2;0;255;0m[INFO] {OPENGL}{RESET} m")
    );
    assert_eq!(
        log_line(Level::Warn, Scope::OpenGl, t, "m"),
        format!("{GREY}{t} \x1b[38;2;255;255;0m[WARN] {OPENGL}{RESET} m")
    );
    assert_eq!(
        log_line(Level::Error, Scope::OpenGl, t, "m"),
        format!("{GREY}{t} \x1b[38;2;255;0;0m[ERROR] {OPENGL}{RESET}m")
    );
}

#[test]
fn the_time_is_a_bracketed_date_and_time() {
    let now = get_time();
    assert!(is_timestamp(&now), "{now:?}");
}

#[test]
fn stamped_lines_carry_the_time_of_the_call() {
    assert_stamped(&info("a"), &format!(" \x1b[38;2;0;255;0m[INFO] {RESET}a"));
    assert_stamped(&info_assets("a"), &format!(" \x1b[38;2;0;255;0m[INFO] {ASSETS}{RESET} a"));
    assert_stamped(&info_opengl("a"), &format!(" \x1b[38;2;0;255;0m[INFO] {OPENGL}{RESET} a"));
    assert_stamped(&warn("b"), &format!(" \x1b[38;2;255;255;0m[WARN]{RESET} b"));
    assert_stamped(&warn_assets("b"), &format!(" \x1b[38;2;255;255;0m[WARN] {ASSETS}{RESET}b"));
    assert_stamped(&warn_opengl("b"), &format!(" \x1b[38;2;255;255;0m[WARN] {OPENGL}{RESET} b"));
    assert_stamped(&error("c"), &format!(" \x1b[38;2;255;0;0m[ERROR] {RESET}c"));
    assert_stamped(&error_assets("c"), &format!(" \x1b[38;2;255;0;0m[ERROR] {ASSETS}{RESET}c"));
    assert_stamped(&error_opengl("c"), &format!(" \x1b[38;2;255;0;0m[ERROR] {OPENGL}{RESET}c"));
}

#[test]
fn the_run_status_is_reported() {
    let t = "[2024-01-31][23:59:59]";
    let tag = "\x1b[38;2;0;0;255m[GameState] \x1b[0m";
    assert_eq!(
        game_state_at(GameStatus::Running, 22, t),
        format!("{GREY}{t} \x1b[38;2;255;255;0m[WARN]{RESET} {tag}Game is running")
    );
    assert_eq!(
        game_state_at(GameStatus::Paused, 21, t),
        format!("{GREY}{t} \x1b[38;2;255;255;0m[WARN]{RESET} {tag}Game is paused")
    );
    assert_eq!(
        game_state_at(GameStatus::Stopped, 0, t),
        format!("{GREY}{t} \x1b[38;2;255;0;0m[ERROR] {RESET}{tag}Game is stopped... Exiting with code 0")
    );
    assert_eq!(
        game_state_at(GameStatus::Stopped, -3, t),
        format!("{GREY}{t} \x1b[38;2;255;0;0m[ERROR] {RESET}{tag}Game is stopped... Exiting with code -3")
    );
}

#[test]
fn the_stamped_run_status_is_reported() {
    let tag = "\x1b[38;2;0;0;255m[GameState] \x1b[0m";
    assert_stamped(
        &game_state(GameStatus::Stopped, 0),
        &format!(" \x1b[38;2;255;0;0m[ERROR] {RESET}{tag}Game is stopped... Exiting with code 0"),
    );
    assert_stamped(
        &game_state(GameStatus::Paused, 21),
        &format!(" \x1b[38;2;255;255;0m[WARN]{RESET} {tag}Game is paused"),
    );
}
