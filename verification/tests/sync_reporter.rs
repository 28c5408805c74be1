use std::cmp::Ordering;

use pixi_logic::install_reporter::{
    transaction_requests, BarCommand, CombinedInstallReporterInner, Operation, PackageWithSize,
    Record, Request,
};
use pixi_logic::sync_reporter::{
    build_log_contents, build_log_name, drain_ready, failure_report, stream_line, FailedBuild,
    LogFile, OutputPlan, SyncReporter,
};
use pixi_logic::transactions::TransactionId;

fn record(name: &str, size: Option<u64>) -> Option<Record<String>> {
    Some(Record {
        name: name.to_string(),
        size,
    })
}

fn operations() -> Vec<Operation<String>> {
    vec![
        Operation {
            install: record("new", Some(7)),
            remove: None,
        },
        Operation {
            install: None,
            remove: record("gone", None),
        },
        Operation {
            install: None,
            remove: None,
        },
        Operation {
            install: record("changed", None),
            remove: record("changed", Some(3)),
        },
    ]
}

fn lines(count: usize) -> Vec<String> {
    (0..count).map(|i| format!("line {i}")).collect()
}

#[test]
fn places_are_asked_for_in_order() {
    let package = |name: &str, size: u64| Request::Queue {
        package: PackageWithSize {
            name: name.to_string(),
            size,
        },
    };
    assert_eq!(
        transaction_requests(&operations()),
        [
            package("new", 7),
            Request::StartEntry { operation: 0 },
            package("gone", 1),
            package("changed", 1),
            Request::StartEntry { operation: 3 },
        ]
    );
}

#[test]
fn operations_have_their_own_places() {
    let mut inner = CombinedInstallReporterInner::new();
    let id = TransactionId::new(4);
    inner.on_transaction_start(id, &operations(), &vec![10, 20, 11, 12, 21]);
    assert_eq!(inner.cache_entry(id, 0), Some(20));
    assert_eq!(inner.cache_entry(id, 1), None);
    assert_eq!(inner.cache_entry(id, 3), Some(21));
    assert_eq!(inner.cache_entry(TransactionId::new(5), 0), None);
    assert_eq!(inner.on_populate_cache_start(id, 3), 21);

    assert_eq!(inner.on_unlink_start(id, 1), 1);
    assert_eq!(inner.on_link_start(id, 3), 3);
    assert_eq!(inner.on_link_start(id, 2), 2);
    inner.on_transaction_operation_complete(id, 1);
    inner.on_transaction_operation_complete(id, 1);
    inner.on_transaction_operation_complete(id, 3);
    assert_eq!(
        inner.take_commands(),
        [
            BarCommand::LinkStart { link: 11 },
            BarCommand::LinkStart { link: 12 },
            BarCommand::LinkFinish { link: 11 },
            BarCommand::LinkFinish { link: 12 },
        ]
    );
    assert!(inner.take_commands().is_empty());
}

#[test]
fn transactions_do_not_share_places() {
    let mut inner = CombinedInstallReporterInner::new();
    let (first, second) = (TransactionId::new(0), TransactionId::new(1));
    inner.on_transaction_start(first, &operations(), &vec![10, 20, 11, 12, 21]);
    inner.on_transaction_start(second, &operations(), &vec![30, 40, 31, 32, 41]);
    inner.on_transaction_operation_complete(first, 0);
    assert_eq!(inner.on_populate_cache_start(first, 0), 20);
    assert_eq!(inner.on_populate_cache_start(second, 0), 40);
    inner.on_link_start(first, 0);
    inner.on_link_start(second, 0);
    assert_eq!(
        inner.take_commands(),
        [
            BarCommand::LinkFinish { link: 10 },
            BarCommand::LinkStart { link: 30 },
        ]
    );
}

#[test]
fn callbacks_reach_the_bar() {
    let mut inner = CombinedInstallReporterInner::new();
    let id = TransactionId::new(0);
    inner.on_transaction_operation_start(id, 0);
    assert_eq!(inner.on_validate_start(id, 5), 5);
    inner.on_validate_complete(id, 5);
    assert_eq!(inner.on_download_start(id, 5), 5);
    inner.on_download_progress(id, 5, 10, Some(20));
    inner.on_download_completed(id, 5);
    inner.on_populate_cache_complete(id, 5);
    inner.on_unlink_complete(id, 0);
    inner.on_link_complete(id, 0);
    inner.on_transaction_complete(id);
    assert_eq!(
        inner.take_commands(),
        [
            BarCommand::ValidationStart { entry: 5 },
            BarCommand::ValidationComplete { entry: 5 },
            BarCommand::DownloadStart { entry: 5 },
            BarCommand::DownloadProgress {
                entry: 5,
                progress: 10,
                total: Some(20),
            },
            BarCommand::DownloadComplete { entry: 5 },
            BarCommand::EntryFinished { entry: 5 },
        ]
    );
}

#[test]
fn large_packages_come_first() {
    let package = |size: u64| PackageWithSize {
        name: "a".to_string(),
        size,
    };
    assert_eq!(package(2).cmp(&package(1)), Ordering::Less);
    assert_eq!(package(1).cmp(&package(1)), Ordering::Equal);
    assert_eq!(package(1).cmp(&package(2)), Ordering::Greater);
    assert!(package(2) < package(1));
    assert_eq!(package(3).name(), "a");
    assert_eq!(package(3).size(), 3);
}

#[test]
fn reporters_are_numbered() {
    let mut reporter = SyncReporter::new(None);
    assert_eq!(reporter.create_reporter().id, TransactionId(0));
    assert_eq!(reporter.create_reporter().id, TransactionId(1));
    assert_eq!(reporter.create_reporter().id, TransactionId(2));
    reporter.clear();
    assert_eq!(
        reporter.combined().take_commands(),
        [BarCommand::ClearPreparing, BarCommand::ClearInstalling]
    );
}

fn failed(package: &str, shown: bool) -> FailedBuild<String> {
    FailedBuild {
        package: package.to_string(),
        shown,
    }
}

#[test]
fn the_failure_of_a_build_is_told_once() {
    let mut reporter = SyncReporter::new(Some("/logs".to_string()));
    reporter.on_queued(9, "pkg", 3);
    assert_eq!(reporter.on_started(9, false), Some(OutputPlan::Buffer));
    assert_eq!(reporter.on_finished(9, true), Some(failed("pkg", false)));
    assert_eq!(reporter.on_finished(9, true), None);
    assert_eq!(reporter.on_started(9, false), None);
    assert_eq!(
        reporter.combined().take_commands(),
        [
            BarCommand::BuildStart { bar: 3 },
            BarCommand::BuildFinished { bar: 3 },
        ]
    );
}

#[test]
fn failed_builds_are_logged_whether_streamed_or_not() {
    let log = |streamed: bool, dir: Option<&str>| {
        let mut reporter = SyncReporter::new(dir.map(str::to_string));
        reporter.on_queued(1, "pkg", 0);
        let plan = reporter.on_started(1, streamed).unwrap();
        assert_eq!(matches!(plan, OutputPlan::Stream { .. }), streamed);
        let build = reporter.on_finished(1, true).unwrap();
        assert_eq!(build, failed("pkg", streamed));
        reporter.build_log(&build, &lines(2))
    };
    let written = Some(LogFile {
        dir: "/logs".to_string(),
        name: "pkg.log".to_string(),
        contents: "line 0\nline 1\n".to_string(),
    });
    assert_eq!(log(true, Some("/logs")), written);
    assert_eq!(log(false, Some("/logs")), written);
    assert_eq!(log(true, None), None);
}

#[test]
fn other_builds_have_no_failure() {
    let mut reporter = SyncReporter::new(None);
    reporter.on_queued(1, "streamed", 0);
    reporter.on_queued(2, "good", 1);
    reporter.on_queued(3, "unstarted", 2);
    assert_eq!(
        reporter.on_started(1, true),
        Some(OutputPlan::Stream {
            package: "streamed".to_string()
        })
    );
    assert_eq!(reporter.on_started(2, false), Some(OutputPlan::Buffer));
    assert_eq!(reporter.on_finished(1, false), None);
    assert_eq!(reporter.on_finished(2, false), None);
    assert_eq!(reporter.on_finished(3, true), None);
}

#[test]
fn streamed_lines_are_printed_and_kept() {
    let mut kept = Vec::new();
    assert_eq!(stream_line(&mut kept, "pkg", "a".to_string()), "[pkg] a");
    assert_eq!(stream_line(&mut kept, "pkg", "b".to_string()), "[pkg] b");
    assert_eq!(kept, ["a", "b"]);
}

#[test]
fn only_ready_lines_are_drained() {
    let mut drained = Vec::new();
    let looks = vec![
        Some(Some("a".to_string())),
        Some(Some("b".to_string())),
        None,
        Some(Some("c".to_string())),
    ];
    for look in looks {
        if !drain_ready(&mut drained, look) {
            break;
        }
    }
    assert_eq!(drained, ["a", "b"]);
    assert!(!drain_ready(&mut drained, Some(None)));
    assert_eq!(drained, ["a", "b"]);
}

#[test]
fn a_log_ends_each_line() {
    assert_eq!(build_log_name("pkg"), "pkg.log");
    assert_eq!(build_log_contents(&lines(2)), "line 0\nline 1\n");
    assert_eq!(build_log_contents(&lines(0)), "\n");
}

#[test]
fn a_report_shows_the_end_of_the_log() {
    assert_eq!(
        failure_report(&failed("pkg", false), &lines(2), None),
        ["build of pkg failed:", "  line 0", "  line 1"]
    );
    let path = || Some("/logs/pkg.log".to_string());
    assert!(failure_report(&failed("pkg", true), &lines(31), path()).is_empty());
    let report = failure_report(&failed("pkg", false), &lines(31), path());
    assert_eq!(report.len(), 32);
    assert_eq!(report[1], "  line 1");
    assert_eq!(report[30], "  line 30");
    assert_eq!(report[31], "full log: /logs/pkg.log");
    assert_eq!(failure_report(&failed("pkg", false), &lines(30), None)[1], "  line 0");
}
