use bulk_fetch::collector::{summarize_joins, Collector};
use bulk_fetch::tasks::{build_download_args, collect_task_lines, worker_result, DownloadTask};
use bulk_fetch::{get_string_from_loglevel, LogLevel};

#[test]
fn task_lines_drop_only_empty_lines() {
    let lines = vec![
        "https://example.test/one".to_string(),
        "".to_string(),
        "https://example.test/two".to_string(),
        "".to_string(),
    ];
    let tasks = collect_task_lines(lines);
    assert_eq!(
        tasks,
        vec![
            "https://example.test/one".to_string(),
            "https://example.test/two".to_string(),
        ]
    );
}

#[test]
fn download_args_are_fixed_plus_url() {
    let task = DownloadTask::new("https://example.test/clip".to_string(), "20240101".to_string());
    let args = build_download_args(&task);
    assert_eq!(
        args,
        vec![
            "--sponsorblock-remove".to_string(),
            "default".to_string(),
            "--retries".to_string(),
            "infinite".to_string(),
            "--fragment-retries".to_string(),
            "infinite".to_string(),
            "--buffer-size".to_string(),
            "16K".to_string(),
            "https://example.test/clip".to_string(),
        ]
    );
}

#[test]
fn worker_result_reports_its_task() {
    let url = "https://example.test/clip".to_string();
    let result = worker_result(&url);
    assert_eq!(result.task_reference, url);
    assert_eq!(result.status_message, "Downloaded https://example.test/clip");
}

#[test]
fn three_dispatched_tasks_count_to_three() {
    let mut collector = Collector::new(3);
    assert!(!collector.all_received());
    assert_eq!(collector.on_result(), 1);
    assert_eq!(collector.on_result(), 2);
    assert!(!collector.all_received());
    assert_eq!(collector.on_result(), 3);
    assert!(collector.all_received());
}

#[test]
fn zero_dispatched_tasks_are_complete_at_once() {
    let collector = Collector::new(0);
    assert!(collector.all_received());
}

#[test]
fn lost_joins_are_counted_not_fatal() {
    let summary = summarize_joins(&vec![true, false, true]);
    assert_eq!(summary.joined, 2);
    assert_eq!(summary.lost, 1);
}

#[test]
fn loglevel_names_are_canonical() {
    assert_eq!(get_string_from_loglevel(LogLevel::Trace), "Trace");
    assert_eq!(get_string_from_loglevel(LogLevel::Debug), "Debug");
    assert_eq!(get_string_from_loglevel(LogLevel::Info), "Info");
    assert_eq!(get_string_from_loglevel(LogLevel::Warn), "Warn");
    assert_eq!(get_string_from_loglevel(LogLevel::Error), "Error");
}
