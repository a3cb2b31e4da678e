use event_daemon::util::text::{
    chars_of, find_first_word, parse_amixer_volume, parse_pactl_volume,
    text_contains_yes, WordTest,
};

const PACTL_OUTPUT: &str = "Volume: front-left: 32768 /  50% / -18.06 dB,   front-right: 32768 /  50% / -18.06 dB\n        balance 0.00\n";

const AMIXER_OUTPUT: &str = "Simple mixer control 'Master',0\n  Capabilities: pvolume pswitch pswitch-joined\n  Playback channels: Front Left - Front Right\n  Limits: Playback 0 - 65536\n  Mono:\n  Front Left: Playback 26214 [40%] [on]\n  Front Right: Playback 26214 [40%] [on]\n";

#[test]
fn pactl_volume_is_first_word_ending_in_percent() {
    assert_eq!(parse_pactl_volume(PACTL_OUTPUT), Some("50%".to_string()));
}

#[test]
fn pactl_volume_skips_words_with_inner_percent() {
    assert_eq!(parse_pactl_volume("a%b 12%x 75%"), Some("75%".to_string()));
}

#[test]
fn pactl_volume_missing() {
    assert_eq!(parse_pactl_volume("Volume: none\n"), None);
    assert_eq!(parse_pactl_volume(""), None);
    assert_eq!(parse_pactl_volume("   \n\t "), None);
}

#[test]
fn pactl_volume_single_percent_word() {
    assert_eq!(parse_pactl_volume("%"), Some("%".to_string()));
    assert_eq!(parse_pactl_volume("\t100%\n"), Some("100%".to_string()));
}

#[test]
fn amixer_volume_from_first_percent_line() {
    assert_eq!(parse_amixer_volume(AMIXER_OUTPUT), Some("40%".to_string()));
}

#[test]
fn amixer_volume_with_crlf_line_endings() {
    assert_eq!(
        parse_amixer_volume("Mono:\r\n  Mono: Playback 31 [63%] [-2.00dB] [on]\r\n"),
        Some("63%".to_string())
    );
}

#[test]
fn amixer_volume_takes_first_line_only() {
    assert_eq!(parse_amixer_volume("x [10%]\ny [20%]\n"), Some("10%".to_string()));
}

#[test]
fn amixer_volume_trims_all_brackets() {
    assert_eq!(parse_amixer_volume("[[75%]]"), Some("75%".to_string()));
    assert_eq!(parse_amixer_volume("a ]5%["), Some("5%".to_string()));
    assert_eq!(parse_amixer_volume("[%]"), Some("%".to_string()));
}

#[test]
fn amixer_volume_missing() {
    assert_eq!(parse_amixer_volume("Simple mixer control 'Master',0\n  Mono: [on]\n"), None);
    assert_eq!(parse_amixer_volume(""), None);
}

#[test]
fn yes_is_found_anywhere() {
    assert!(text_contains_yes("Mute: yes\n"));
    assert!(text_contains_yes("yes"));
    assert!(text_contains_yes("eyesight"));
    assert!(!text_contains_yes("Mute: no\n"));
    assert!(!text_contains_yes("ye"));
    assert!(!text_contains_yes(""));
    assert!(!text_contains_yes("YES"));
}

#[test]
fn chars_are_read_one_by_one() {
    assert_eq!(chars_of("a é%"), vec!['a', ' ', 'é', '%']);
    assert_eq!(chars_of(""), Vec::<char>::new());
}

#[test]
fn words_are_split_at_unicode_white_space() {
    assert_eq!(parse_pactl_volume("a\u{A0}7%\u{2003}b"), Some("7%".to_string()));
    assert_eq!(parse_pactl_volume("x\u{3000}8%"), Some("8%".to_string()));
    assert_eq!(parse_amixer_volume("v:\t[9%]\x0b[on]"), Some("9%".to_string()));
}

#[test]
fn first_word_positions() {
    let chars = chars_of("ab 1% x2%");
    assert_eq!(find_first_word(&chars, 0, chars.len(), WordTest::EndsWithPercent), Some((3, 5)));
    assert_eq!(find_first_word(&chars, 4, chars.len(), WordTest::EndsWithPercent), Some((4, 5)));
    assert_eq!(find_first_word(&chars, 5, chars.len(), WordTest::EndsWithPercent), Some((6, 9)));
    assert_eq!(find_first_word(&chars, 0, 2, WordTest::HasPercent), None);
}
