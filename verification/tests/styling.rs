use ffrenc::human::{render, Segment};
use ffrenc::paint::{paint, Tone};
use ffrenc::ui::{UiMessage, UiMessagePayload, UiState};

const RESET: &str = "\u{1b}[0m";

fn painted(tone: Tone, text: &str) -> String {
    colored::control::set_override(true);
    paint(tone, text)
}

#[test]
fn bold_is_marked() {
    assert_eq!(painted(Tone::Bold, "T: 4"), format!("\u{1b}[1mT: 4{RESET}"));
}

#[test]
fn dimmed_is_marked() {
    assert_eq!(painted(Tone::Dimmed, "+2 more"), format!("\u{1b}[2m+2 more{RESET}"));
}

#[test]
fn red_is_marked() {
    assert_eq!(painted(Tone::Red, "F: 1"), format!("\u{1b}[31mF: 1{RESET}"));
}

#[test]
fn green_is_marked() {
    assert_eq!(painted(Tone::Green, "S: 1"), format!("\u{1b}[32mS: 1{RESET}"));
}

#[test]
fn yellow_is_marked() {
    assert_eq!(painted(Tone::Yellow, "A: 1"), format!("\u{1b}[33mA: 1{RESET}"));
}

#[test]
fn blue_is_marked() {
    assert_eq!(painted(Tone::Blue, "C: 1"), format!("\u{1b}[34mC: 1{RESET}"));
}

#[test]
fn cyan_is_marked() {
    assert_eq!(painted(Tone::Cyan, "a.mkv"), format!("\u{1b}[36ma.mkv{RESET}"));
}

#[test]
fn every_tone_keeps_the_text_whole() {
    let tones = [
        Tone::Bold,
        Tone::Dimmed,
        Tone::Red,
        Tone::Yellow,
        Tone::Green,
        Tone::Blue,
        Tone::Cyan,
    ];
    for tone in tones {
        let text = "12.5% of it";
        let result = painted(tone, text);
        assert!(result.contains(text));
        assert_ne!(result, text);
        assert!(result.ends_with(RESET));
    }
}

#[test]
fn rendering_marks_each_segment_by_itself() {
    colored::control::set_override(true);
    let segments = vec![
        Segment { tone: Tone::Plain, text: "\r".to_string() },
        Segment { tone: Tone::Bold, text: "T: 1".to_string() },
        Segment { tone: Tone::Plain, text: " | ".to_string() },
        Segment { tone: Tone::Yellow, text: "A: 0".to_string() },
    ];
    assert_eq!(
        render(&segments),
        format!("\r\u{1b}[1mT: 1{RESET} | \u{1b}[33mA: 0{RESET}")
    );
}

#[test]
fn status_line_in_colour() {
    colored::control::set_override(true);
    let mut state = UiState::new();
    let created = UiMessagePayload::Created {
        input: "/in/a.mkv".to_string(),
        output: "a.mp4".to_string(),
        total: 10_000_000_000,
    };
    assert!(state.apply(UiMessage::new(0, created), 0).is_ok());
    assert!(state.apply(UiMessage::new(0, UiMessagePayload::Started), 0).is_ok());
    let progress = UiMessagePayload::Progress { total: 10_000_000_000, current: 7_000_000_000 };
    assert!(state.apply(UiMessage::new(0, progress), 0).is_ok());
    let line = state.snapshot(7_000_000_000).to_string_human();
    let expected = format!(
        "\r\u{1b}[1mT: 1{RESET} | \u{1b}[33mA: 1{RESET} | \u{1b}[32mS: 0{RESET} | \u{1b}[31mF: 0{RESET} | \u{1b}[34mC: 0{RESET} | \u{1b}[36ma.mkv{RESET}[\u{1b}[32m70.0%{RESET} \u{1b}[2meta: 0m 3s{RESET} \u{1b}[2melapsed: 0m 7s{RESET}]"
    );
    assert_eq!(line, expected);
}
