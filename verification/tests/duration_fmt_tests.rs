use cursor_api::common::utils::duration_fmt::{DurationFormat, Language, human};
use std::time::Duration;

#[test]
fn test_compact_format() {
    let duration = Duration::from_secs(3662);
    let formatted = human(duration).format(DurationFormat::Compact).language(Language::English);
    assert_eq!(formatted.to_string(), "1h1m2s");
}

#[test]
fn test_standard_format() {
    let duration = Duration::from_secs(3662);
    let formatted = human(duration).format(DurationFormat::Standard).language(Language::English);
    assert_eq!(formatted.to_string(), "1 hour 1 minute 2 seconds");
}

#[test]
fn test_detailed_format() {
    let duration = Duration::from_secs(3662);
    let formatted = human(duration).format(DurationFormat::Detailed).language(Language::English);
    assert_eq!(formatted.to_string(), "1 hour, 1 minute, 2.000 seconds");
}

#[test]
fn test_iso8601_format() {
    let duration = Duration::from_secs(3662);
    let formatted = human(duration).format(DurationFormat::ISO8601);
    assert_eq!(formatted.to_string(), "PT1H1M2S");
}

#[test]
fn test_chinese_language() {
    let duration = Duration::from_secs(65);
    let formatted = human(duration).format(DurationFormat::Standard).language(Language::Chinese);
    assert_eq!(formatted.to_string(), "1 分钟 5 秒");
}

#[test]
fn test_fuzzy_format() {
    let duration = Duration::from_secs(50);
    let formatted = human(duration).format(DurationFormat::Fuzzy).language(Language::English);
    assert_eq!(formatted.to_string(), "about 50 seconds");

    let duration = Duration::from_secs(3600);
    let formatted = human(duration).format(DurationFormat::Fuzzy).language(Language::English);
    assert_eq!(formatted.to_string(), "about 1 hour");
}

#[test]
fn iso8601_zero_duration() {
    assert_eq!(human(Duration::ZERO).format(DurationFormat::ISO8601).to_string(), "PT0S");
    assert_eq!(human(Duration::from_millis(500)).format(DurationFormat::ISO8601).to_string(), "PT0S");
    assert_eq!(human(Duration::from_secs(86400)).format(DurationFormat::ISO8601).to_string(), "P1D");
}

#[test]
fn verbose_format_as_documented() {
    let d = Duration::new(93784, 567_000_000);
    assert_eq!(human(d).format(DurationFormat::Verbose).to_string(), "D:1 H:2 M:3 S:4 MS:567");
    let d = Duration::new(0, 1_002_003);
    assert_eq!(human(d).format(DurationFormat::Verbose).to_string(), "MS:1 μs:2 ns:3");
    assert_eq!(human(Duration::ZERO).format(DurationFormat::Verbose).to_string(), "0s");
}

#[test]
fn human_keeps_the_duration() {
    let d = Duration::new(65, 0);
    assert_eq!(human(d).format(DurationFormat::Compact).language(Language::English).to_string(), "1m5s");
}
