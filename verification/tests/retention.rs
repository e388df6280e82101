use lifecycle_core::clock::utc_file_month;
use lifecycle_core::retention::{is_stale, plan_prune, select_stale, summarize_prune, FileMonth};

fn unix_secs(year: i32, month: u8, day: u8) -> i64 {
    let month = time::Month::try_from(month).unwrap();
    time::Date::from_calendar_date(year, month, day)
        .unwrap()
        .midnight()
        .assume_utc()
        .unix_timestamp()
}

#[test]
fn stale_is_strictly_earlier_month() {
    let reference = FileMonth { year: 2024, month: 3 };
    assert!(is_stale(FileMonth { year: 2024, month: 2 }, reference));
    assert!(is_stale(FileMonth { year: 2023, month: 12 }, reference));
    assert!(is_stale(FileMonth { year: 2023, month: 3 }, reference));
    assert!(!is_stale(FileMonth { year: 2024, month: 3 }, reference));
    assert!(!is_stale(FileMonth { year: 2024, month: 4 }, reference));
    assert!(!is_stale(FileMonth { year: 2025, month: 1 }, reference));
}

#[test]
fn selects_exactly_the_earlier_months_in_any_order() {
    let reference = FileMonth { year: 2024, month: 3 };
    let files = vec![
        FileMonth { year: 2024, month: 3 },
        FileMonth { year: 2023, month: 11 },
        FileMonth { year: 2024, month: 5 },
        FileMonth { year: 2024, month: 1 },
        FileMonth { year: 2024, month: 2 },
    ];
    assert_eq!(select_stale(&files, reference), vec![1, 3, 4]);

    let reordered = vec![
        FileMonth { year: 2024, month: 2 },
        FileMonth { year: 2024, month: 1 },
        FileMonth { year: 2024, month: 5 },
        FileMonth { year: 2023, month: 11 },
        FileMonth { year: 2024, month: 3 },
    ];
    let picked: Vec<FileMonth> = select_stale(&reordered, reference)
        .into_iter()
        .map(|i| reordered[i])
        .collect();
    let mut sorted = picked.iter().map(|f| (f.year, f.month)).collect::<Vec<_>>();
    sorted.sort();
    assert_eq!(sorted, vec![(2023, 11), (2024, 1), (2024, 2)]);
}

#[test]
fn empty_directory_is_a_noop() {
    let reference = FileMonth { year: 2024, month: 3 };
    assert_eq!(select_stale(&Vec::new(), reference), Vec::<usize>::new());
    assert_eq!(plan_prune(&Vec::new(), unix_secs(2024, 3, 15)), Vec::<usize>::new());
}

#[test]
fn current_month_only_is_a_noop() {
    let reference = FileMonth { year: 2024, month: 3 };
    let files = vec![
        FileMonth { year: 2024, month: 3 },
        FileMonth { year: 2024, month: 3 },
    ];
    assert_eq!(select_stale(&files, reference), Vec::<usize>::new());

    let mtimes = vec![unix_secs(2024, 3, 1), unix_secs(2024, 3, 14)];
    assert_eq!(plan_prune(&mtimes, unix_secs(2024, 3, 15)), Vec::<usize>::new());
}

#[test]
fn prune_scenario_mid_march() {
    // Reference time 2024-03-15; files last modified 2024-01-10, 2024-02-20
    // and 2024-03-01: only the March file survives.
    let mtimes = vec![
        unix_secs(2024, 1, 10),
        unix_secs(2024, 2, 20),
        unix_secs(2024, 3, 1),
    ];
    assert_eq!(plan_prune(&mtimes, unix_secs(2024, 3, 15)), vec![0, 1]);
}

#[test]
fn prune_respects_year_boundary() {
    let mtimes = vec![unix_secs(2023, 12, 31), unix_secs(2024, 1, 1)];
    assert_eq!(plan_prune(&mtimes, unix_secs(2024, 1, 1)), vec![0]);
}

#[test]
fn unreadable_timestamp_is_skipped_not_deleted() {
    // A timestamp the calendar cannot represent is skipped, and the plan
    // still covers the rest of the listing.
    let mtimes = vec![i64::MIN, unix_secs(2024, 1, 10), unix_secs(2024, 3, 1)];
    assert_eq!(plan_prune(&mtimes, unix_secs(2024, 3, 15)), vec![1]);
}

#[test]
fn failed_deletions_are_counted_and_swallowed() {
    // One deletion refused by the filesystem: the sweep still returns a
    // report instead of failing startup.
    let outcomes = vec![true, false, true];
    let report = summarize_prune(&outcomes);
    assert_eq!(report.deleted, 2);
    assert_eq!(report.failed, 1);

    let none = summarize_prune(&Vec::new());
    assert_eq!(none.deleted, 0);
    assert_eq!(none.failed, 0);
}

#[test]
fn calendar_conversion_reads_real_dates() {
    assert_eq!(utc_file_month(0), Some(FileMonth { year: 1970, month: 1 }));
    assert_eq!(
        utc_file_month(unix_secs(2024, 3, 15)),
        Some(FileMonth { year: 2024, month: 3 })
    );
    assert_eq!(
        utc_file_month(unix_secs(1999, 12, 31)),
        Some(FileMonth { year: 1999, month: 12 })
    );
    assert_eq!(utc_file_month(i64::MIN), None);
}
