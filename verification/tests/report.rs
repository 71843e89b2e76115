use regloss_notifier::error::Error;
use regloss_notifier::log::{push_to_log, test_log, Log};
use regloss_notifier::regloss::{ids, subscribers_as_str};

#[test]
fn test_subscribers_as_str() {
    let result = subscribers_as_str(&vec![1, 2, 3, 4, 5], 15);
    println!("{}", result);
}

#[test]
fn report_has_one_line_per_account_and_a_total() {
    let result = subscribers_as_str(&vec![1, 2, 3, 4, 5], 15);
    assert_eq!(
        result,
        "Hiodoshi Ao has 1 subscribers\n\
         Otonose Kanade has 2 subscribers\n\
         Ichijou Ririka has 3 subscribers\n\
         Juufuutei Raden has 4 subscribers\n\
         Todoroki Hajime has 5 subscribers\n\
         Regloss have 15 subscribers in total"
    );
}

#[test]
fn report_groups_digits_by_three() {
    let result = subscribers_as_str(&vec![0, 999, 1000, 1234567, u64::MAX], 1_000_000);
    assert_eq!(
        result,
        "Hiodoshi Ao has 0 subscribers\n\
         Otonose Kanade has 999 subscribers\n\
         Ichijou Ririka has 1,000 subscribers\n\
         Juufuutei Raden has 1,234,567 subscribers\n\
         Todoroki Hajime has 18,446,744,073,709,551,615 subscribers\n\
         Regloss have 1,000,000 subscribers in total"
    );
}

#[test]
fn report_keeps_zeros_inside_groups() {
    let result = subscribers_as_str(&vec![1_000_001, 10_020, 100, 10, 1_001_000], 0);
    assert_eq!(
        result,
        "Hiodoshi Ao has 1,000,001 subscribers\n\
         Otonose Kanade has 10,020 subscribers\n\
         Ichijou Ririka has 100 subscribers\n\
         Juufuutei Raden has 10 subscribers\n\
         Todoroki Hajime has 1,001,000 subscribers\n\
         Regloss have 0 subscribers in total"
    );
}

#[test]
fn report_ignores_counts_beyond_the_tracked_accounts() {
    let five = subscribers_as_str(&vec![1, 2, 3, 4, 5], 15);
    let six = subscribers_as_str(&vec![1, 2, 3, 4, 5, 6], 15);
    assert_eq!(five, six);
}

#[test]
fn ids_are_the_tracked_accounts_in_order() {
    assert_eq!(
        ids(),
        vec![
            "hiodoshiao".to_string(),
            "otonosekanade".to_string(),
            "ichijouririka".to_string(),
            "juufuuteiraden".to_string(),
            "todorokihajime".to_string(),
        ]
    );
}

#[test]
fn log_keeps_messages_in_order() {
    let mut log = Log::new();
    assert_eq!(log.len(), 0);
    test_log(&mut log);
    push_to_log(&mut log, "first\n".to_string());
    push_to_log(&mut log, "second\n".to_string());
    assert_eq!(log.len(), 3);
    assert_eq!(log.entry(0), "\n");
    assert_eq!(log.entry(1), "first\n");
    assert_eq!(log.entry(2), "second\n");
}

#[test]
fn errors_are_shown_with_their_category() {
    let d = || "detail".to_string();
    assert_eq!(Error::Io(d()).to_string(), "IO Error: detail");
    assert_eq!(Error::Env(d()).to_string(), "Env Error: detail");
    assert_eq!(Error::SerdeJson(d()).to_string(), "SerdeJson Error: detail");
    assert_eq!(Error::TwitterV2(d()).to_string(), "TwitterV2 Error: detail");
    assert_eq!(Error::Time(d()).to_string(), "Time Error: detail");
    assert_eq!(Error::OAuth2Conf(d()).to_string(), "OAuth2 Configuration Error: detail");
    assert_eq!(Error::TimeFormat(d()).to_string(), "Time Format Error: detail");
    assert_eq!(Error::Error(d()).to_string(), "Error: detail");
    assert_eq!(Error::ErrorString(d()).to_string(), "Error: detail");
}

#[test]
fn new_wraps_an_unclassified_failure() {
    assert!(matches!(Error::new("boom".to_string()), Error::Error(m) if m == "boom"));
}
