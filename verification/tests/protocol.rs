use pomo_cli::protocol::{command_word, decimal_string, format_status, parse_command, Command};
use pomo_cli::timer::TimerType;

#[test]
fn each_command_word_parses_back_to_its_command() {
    let all = [
        Command::Pause,
        Command::Resume,
        Command::Stop,
        Command::Status,
        Command::Next,
        Command::Abort,
    ];
    for &c in all.iter() {
        assert_eq!(parse_command(command_word(c)), Some(c));
    }
}

#[test]
fn command_words_are_the_wire_words() {
    assert_eq!(command_word(Command::Pause), "pause");
    assert_eq!(command_word(Command::Resume), "resume");
    assert_eq!(command_word(Command::Stop), "stop");
    assert_eq!(command_word(Command::Status), "status");
    assert_eq!(command_word(Command::Next), "next");
    assert_eq!(command_word(Command::Abort), "abort");
}

#[test]
fn unknown_words_are_rejected() {
    assert_eq!(parse_command(""), None);
    assert_eq!(parse_command("PAUSE"), None);
    assert_eq!(parse_command("pause "), None);
    assert_eq!(parse_command("resume now"), None);
    assert_eq!(parse_command("skip"), None);
}

#[test]
fn decimal_strings_are_exact() {
    assert_eq!(decimal_string(0), "0");
    assert_eq!(decimal_string(7), "7");
    assert_eq!(decimal_string(10), "10");
    assert_eq!(decimal_string(12345), "12345");
    assert_eq!(decimal_string(u64::MAX), "18446744073709551615");
}

#[test]
fn status_lines_are_exact() {
    assert_eq!(format_status(TimerType::Work, 1_500_000), "W 25:00");
    assert_eq!(format_status(TimerType::Break, 300_000), "B 05:00");
    assert_eq!(format_status(TimerType::LongBreak, 900_000), "B 15:00");
    assert_eq!(format_status(TimerType::Work, 0), "W 00:00");
    assert_eq!(format_status(TimerType::Work, 59_999), "W 00:59");
    assert_eq!(format_status(TimerType::Work, 61_000), "W 01:01");
    assert_eq!(format_status(TimerType::Work, 6_000_000), "W 100:00");
}
