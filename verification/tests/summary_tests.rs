use eventline::summary::{get_summary, summary_of};

#[test]
fn get_summary_tests() {
    assert_eq!(
        get_summary("Lunch at noon next Friday"),
        Some("Lunch".to_owned())
    );
    assert_eq!(
        get_summary("Dinner with friends tomorrow"),
        Some("Dinner with friends".to_owned())
    );
    assert_eq!(
        get_summary("My Birthday April 5"),
        Some("My Birthday".to_owned())
    );
    assert_eq!(
        get_summary("April 5 My Birthday"),
        Some("My Birthday".to_owned())
    );
    assert_eq!(
        get_summary("6pm Next Friday Doctor's Appointment"),
        Some("Doctor's Appointment".to_owned())
    );
    assert_eq!(
        get_summary("6pm Doctor's Appointment Next Friday"),
        Some("Doctor's Appointment".to_owned())
    );
    assert_eq!(
        get_summary("6pm Doctor's Appointment Next Friday"),
        Some("Doctor's Appointment".to_owned())
    );
    assert_eq!(
        get_summary("Flight on saturday at noon"),
        Some("Flight".to_owned())
    );
    assert_eq!(
        get_summary("Senior Week 6/17-6/21"),
        Some("Senior Week".to_owned())
    )
}

#[test]
fn summary_of_compiles_every_pattern() {
    assert_eq!(summary_of("Lunch at 1pm"), Some("Lunch".to_owned()));
}

#[test]
fn summary_of_only_time_words_is_empty() {
    assert_eq!(get_summary("tomorrow at noon"), Some(String::new()));
}

#[test]
fn summary_removes_short_dates_before_full_dates() {
    // The short-date pattern runs first and takes "6/10" and "6/12", which leaves
    // the full-date pattern nothing to match.
    assert_eq!(get_summary("Trip 6/10/2019 - 6/12/2019"), Some("Trip /  /".to_owned()));
}

#[test]
fn summary_keeps_inner_line_feeds_and_trims_ends() {
    assert_eq!(get_summary("  Team\nsync  "), Some("Team\nsync".to_owned()));
}
