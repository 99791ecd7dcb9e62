use cursor_api::common::time::{BuildAge, ProjectAge};

#[test]
fn test_project_age_display() {
    let age = ProjectAge { years: 0, months: 0, days: 0 };
    assert_eq!(age.to_string(), "less than 1 day");

    let age = ProjectAge { years: 1, months: 2, days: 3 };
    assert_eq!(age.to_string(), "1 year, 2 months, and 3 days");

    let age = ProjectAge { years: 2, months: 1, days: 1 };
    assert_eq!(age.to_string(), "2 years, 1 month, and 1 day");
}

#[test]
fn test_build_age_display() {
    let age = BuildAge { minutes: 0 };
    assert_eq!(age.to_string(), "just now");

    let age = BuildAge { minutes: 1 };
    assert_eq!(age.to_string(), "1 minute");

    let age = BuildAge { minutes: 65 };
    assert_eq!(age.to_string(), "1 hour and 5 minutes");

    let age = BuildAge { minutes: 120 };
    assert_eq!(age.to_string(), "2 hours");
}

#[test]
fn project_age_counts_days_from_epoch() {
    let age = ProjectAge::since_epoch(1_734_915_448 + 400 * 86_400 + 5);
    assert_eq!((age.years, age.months, age.days), (1, 1, 5));
}

#[test]
fn build_age_counts_minutes() {
    let age = BuildAge::since_build(1_000 + 3_900, 1_000);
    assert_eq!(age.minutes, 65);
    assert_eq!(BuildAge::since_build(20, 20).minutes, 0);
}
