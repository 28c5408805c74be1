//! What holds of reports on installations and builds.

use std::cmp::Ordering;

use vstd::prelude::*;

use crate::install_reporter;
use crate::install_reporter::{BarCommand, InnerModel, OperationModel, Request};
use crate::sync_reporter;
use crate::sync_reporter::{BuildOutput, FailedBuild, LogFile, Look, OutputPlan, ReporterModel};
use crate::text;
use crate::text_laws;
use crate::transactions::TransactionId;

verus! {

proof fn requests_stay(operations: Seq<OperationModel>, i: int, j: int)
    requires
        0 <= i <= j <= operations.len(),
    ensures
        install_reporter::slot(operations, i) <= install_reporter::slot(operations, j),
        install_reporter::requests_of(operations.take(j)).take(
            install_reporter::slot(operations, i),
        ) == install_reporter::requests_of(operations.take(i)),
    decreases j - i,
{
    let before = install_reporter::requests_of(operations.take(i));
    if i < j {
        requests_stay(operations, i, j - 1);
        assert(operations.take(j).drop_last() =~= operations.take(j - 1));
        let shorter = install_reporter::requests_of(operations.take(j - 1));
        let longer = install_reporter::requests_of(operations.take(j));
        assert(longer.take(before.len() as int) =~= shorter.take(before.len() as int));
    } else {
        assert(before.take(before.len() as int) =~= before);
    }
}

/// The places of an operation are those that were asked for on its account:
/// the first for its package, and the next, where it installs, for its record.
/// That is what is looked up when the operation is carried out.
pub proof fn an_operation_has_its_own_places(
    inner: InnerModel,
    id: TransactionId,
    operations: Seq<OperationModel>,
    replies: Seq<usize>,
    operation: usize,
)
    requires
        operation < operations.len(),
        operations.len() <= usize::MAX,
        replies.len() == install_reporter::requests_of(operations).len(),
    ensures
        ({
            let requests = install_reporter::requests_of(operations);
            let after = install_reporter::transaction_started(inner, id, operations, replies);
            let at = install_reporter::slot(operations, operation as int);
            let given = operations[operation as int];
            &&& install_reporter::subject(given) matches Some(package) ==> {
                &&& 0 <= at < requests.len()
                &&& requests[at] == Request::Queue { package }
                &&& after.links.contains_key((id, operation))
                &&& after.links[(id, operation)] == replies[at]
            }
            &&& given.install is Some ==> {
                &&& 0 <= at + 1 < requests.len()
                &&& requests[at + 1] == Request::<install_reporter::PackageModel>::StartEntry {
                    operation,
                }
                &&& after.entries.contains_key((id, operation))
                &&& after.entries[(id, operation)] == replies[at + 1]
            }
        }),
{
    let i = operation as int;
    requests_stay(operations, i + 1, operations.len() as int);
    assert(operations.take(operations.len() as int) =~= operations);
    assert(operations.take(i + 1).drop_last() =~= operations.take(i));
    let requests = install_reporter::requests_of(operations);
    let until = install_reporter::requests_of(operations.take(i + 1));
    let own = install_reporter::operation_requests(operations[i], operation);
    assert(until == install_reporter::requests_of(operations.take(i)) + own);
    let at = install_reporter::slot(operations, i);
    assert forall|k: int| 0 <= k < own.len() implies requests[at + k] == #[trigger] own[k] by {
        assert(requests.take(until.len() as int)[at + k] == until[at + k]);
    }
    let given = operations[i];
    if install_reporter::subject(given) is Some {
        assert(own[0] == requests[at + 0]);
    }
    if given.install is Some {
        assert(own[1] == requests[at + 1]);
    }
}

/// What is done for one transaction leaves the places of the others as they
/// are.
pub proof fn other_transactions_keep_their_places(
    inner: InnerModel,
    id: TransactionId,
    operations: Seq<OperationModel>,
    replies: Seq<usize>,
    operation: usize,
    other: (TransactionId, usize),
)
    requires
        other.0 != id,
    ensures
        ({
            let started = install_reporter::transaction_started(inner, id, operations, replies);
            let completed = install_reporter::operation_completed(inner, id, operation);
            &&& started.links.contains_key(other) == inner.links.contains_key(other)
            &&& inner.links.contains_key(other) ==> started.links[other] == inner.links[other]
            &&& started.entries.contains_key(other) == inner.entries.contains_key(other)
            &&& inner.entries.contains_key(other) ==> started.entries[other]
                == inner.entries[other]
            &&& completed.links.contains_key(other) == inner.links.contains_key(other)
            &&& inner.links.contains_key(other) ==> completed.links[other] == inner.links[other]
        }),
{
}

/// An operation that is over takes only its own place off the bar, and tells
/// the bar so once: to complete it again changes nothing.
pub proof fn an_operation_completes_once(
    inner: InnerModel,
    id: TransactionId,
    operation: usize,
    other: (TransactionId, usize),
)
    ensures
        ({
            let once = install_reporter::operation_completed(inner, id, operation);
            &&& install_reporter::operation_completed(once, id, operation) == once
            &&& install_reporter::link_started(once, id, operation) == once
            &&& !once.links.contains_key((id, operation))
            &&& other != (id, operation) ==> once.links.contains_key(other)
                == inner.links.contains_key(other)
            &&& once.entries == inner.entries
        }),
{
}

/// A larger package comes before a smaller one, and the order agrees with
/// itself: it is reversed where the packages are exchanged, and goes on over a
/// third package.
pub proof fn larger_packages_come_first(a: u64, b: u64, c: u64)
    ensures
        install_reporter::larger_first(a, b) == Ordering::Less <==> a > b,
        install_reporter::larger_first(a, b) == Ordering::Equal <==> a == b,
        install_reporter::larger_first(a, b) == Ordering::Less
            <==> install_reporter::larger_first(b, a) == Ordering::Greater,
        install_reporter::larger_first(a, b) == Ordering::Less && install_reporter::larger_first(
            b,
            c,
        ) == Ordering::Less ==> install_reporter::larger_first(a, c) == Ordering::Less,
{
}

/// What is known after `count` more reporters were made.
pub open spec fn with_reporters(reporter: ReporterModel, count: nat) -> ReporterModel
    decreases count,
{
    if count == 0 {
        reporter
    } else {
        sync_reporter::with_reporter(with_reporters(reporter, (count - 1) as nat))
    }
}

proof fn numbers_go_round(reporter: ReporterModel, count: nat)
    ensures
        with_reporters(reporter, count).inner.next_id == (reporter.inner.next_id + count) % (
        usize::MAX + 1),
    decreases count,
{
    let all = usize::MAX + 1;
    let start = reporter.inner.next_id as int;
    if count == 0 {
        vstd::arithmetic::div_mod::lemma_small_mod(start as nat, all as nat);
    } else {
        numbers_go_round(reporter, (count - 1) as nat);
        let last = start + count - 1;
        vstd::arithmetic::div_mod::lemma_add_mod_noop(last, 1, all);
        vstd::arithmetic::div_mod::lemma_small_mod(1, all as nat);
        if last % all == usize::MAX {
            vstd::arithmetic::div_mod::lemma_mod_self_0(all);
        } else {
            vstd::arithmetic::div_mod::lemma_small_mod((last % all + 1) as nat, all as nat);
        }
    }
}

/// No two reporters have the same transaction, until all numbers were used.
pub proof fn reporters_have_their_own_transactions(reporter: ReporterModel, i: nat, j: nat)
    requires
        i < j,
        j - i <= usize::MAX,
    ensures
        with_reporters(reporter, i).inner.next_id != with_reporters(reporter, j).inner.next_id,
{
    numbers_go_round(reporter, i);
    numbers_go_round(reporter, j);
    let all = usize::MAX + 1;
    let a = reporter.inner.next_id + i;
    let b = reporter.inner.next_id + j;
    if a % all == b % all {
        vstd::arithmetic::div_mod::lemma_mod_equivalence(b, a, all);
        vstd::arithmetic::div_mod::lemma_small_mod((b - a) as nat, all as nat);
    }
}

/// A build is known from when it is queued until it is over, and its failure is
/// told at most once: when it is over for the first time.
pub proof fn a_build_is_reported_once(
    reporter: ReporterModel,
    operation: u64,
    package: Seq<char>,
    bar: usize,
    failed: bool,
    streamed: bool,
)
    ensures
        sync_reporter::build_queued(reporter, operation, package, bar).builds.contains_key(
            operation,
        ),
        sync_reporter::build_started(reporter, operation, streamed).builds.contains_key(operation)
            == reporter.builds.contains_key(operation),
        ({
            let over = sync_reporter::build_finished(reporter, operation);
            &&& !over.builds.contains_key(operation)
            &&& sync_reporter::failure_of(over, operation, failed) is None
            &&& sync_reporter::build_finished(over, operation) == over
        }),
{
}

/// A build that has started and failed has its full log written, whether its
/// output was streamed or held, as long as there is a directory for logs. Only
/// what is printed of the failure depends on that: nothing where the output was
/// on the screen already. A build that did not fail, or never started, leaves
/// neither.
pub proof fn every_failed_build_is_logged(
    reporter: ReporterModel,
    operation: u64,
    package: Seq<char>,
    bar: usize,
    streamed: bool,
    failed: bool,
    lines: Seq<Seq<char>>,
    log_path: Option<Seq<char>>,
)
    ensures
        ({
            let queued = sync_reporter::build_queued(reporter, operation, package, bar);
            let started = sync_reporter::build_started(queued, operation, streamed);
            let over = sync_reporter::build_finished(started, operation);
            let failure = sync_reporter::failure_of(started, operation, failed);
            &&& sync_reporter::failure_of(queued, operation, failed) is None
            &&& failure is Some <==> failed
            &&& failure matches Some(build) ==> {
                &&& build.package == package
                &&& sync_reporter::log_of(over, build, lines) == match reporter.build_log_dir {
                    Some(dir) => Some(
                        LogFile {
                            dir,
                            name: package + ".log"@,
                            contents: text::joined(lines, "\n"@) + "\n"@,
                        },
                    ),
                    None => None,
                }
                &&& sync_reporter::failure_lines(build, lines, log_path).len() == 0 <==> streamed
            }
        }),
{
}

/// What is done with one build leaves the others as they are.
pub proof fn other_builds_are_left_alone(
    reporter: ReporterModel,
    operation: u64,
    package: Seq<char>,
    bar: usize,
    streamed: bool,
    other: u64,
)
    requires
        other != operation,
    ensures
        ({
            let queued = sync_reporter::build_queued(reporter, operation, package, bar).builds;
            let started = sync_reporter::build_started(reporter, operation, streamed).builds;
            let over = sync_reporter::build_finished(reporter, operation).builds;
            &&& queued.contains_key(other) == reporter.builds.contains_key(other)
            &&& started.contains_key(other) == reporter.builds.contains_key(other)
            &&& over.contains_key(other) == reporter.builds.contains_key(other)
            &&& reporter.builds.contains_key(other) ==> {
                &&& queued[other] == reporter.builds[other]
                &&& started[other] == reporter.builds[other]
                &&& over[other] == reporter.builds[other]
            }
        }),
{
}

/// Whether each of `looks` gave a line.
pub open spec fn all_ready(looks: Seq<Look<Seq<char>>>) -> bool {
    forall|i: int| 0 <= i < looks.len() ==> (#[trigger] looks[i] matches Some(Some(_)))
}

/// To look at a stream once more adds what the look gave, as long as each look
/// before gave a line: nothing behind a gap is taken.
pub proof fn draining_stops_at_the_first_gap(looks: Seq<Look<Seq<char>>>, look: Look<Seq<char>>)
    ensures
        sync_reporter::ready_lines(looks.push(look)) == if all_ready(looks) {
            sync_reporter::ready_lines(looks) + sync_reporter::ready_lines(seq![look])
        } else {
            sync_reporter::ready_lines(looks)
        },
    decreases looks.len(),
{
    if looks.len() == 0 {
        assert(looks.push(look) =~= seq![look]);
        assert(sync_reporter::ready_lines(looks) + sync_reporter::ready_lines(seq![look])
            =~= sync_reporter::ready_lines(seq![look]));
    } else {
        assert(looks.push(look).skip(1) =~= looks.skip(1).push(look));
        draining_stops_at_the_first_gap(looks.skip(1), look);
        match looks[0] {
            Some(Some(line)) => {
                let rest = sync_reporter::ready_lines(looks.skip(1));
                let more = sync_reporter::ready_lines(seq![look]);
                assert(seq![line] + (rest + more) =~= (seq![line] + rest) + more);
                if all_ready(looks.skip(1)) {
                    assert forall|i: int| 0 <= i < looks.len() implies (
                    #[trigger] looks[i] matches Some(Some(_))) by {
                        if i > 0 {
                            assert(looks.skip(1)[i - 1] == looks[i]);
                        }
                    }
                } else if all_ready(looks) {
                    assert forall|i: int| 0 <= i < looks.skip(1).len() implies (
                    #[trigger] looks.skip(1)[i] matches Some(Some(_))) by {
                        assert(looks[i + 1] == looks.skip(1)[i]);
                    }
                }
            },
            _ => {
                assert(!all_ready(looks));
            },
        }
    }
}

/// The report on a failed build shows the last lines of its log, as they are
/// and in their order: all of them, or as many as are shown at most.
pub proof fn the_end_of_the_log_is_shown(lines: Seq<Seq<char>>)
    ensures
        sync_reporter::tail_of(lines).len() <= lines.len(),
        sync_reporter::tail_of(lines).len() == if lines.len()
            <= sync_reporter::FAILED_BUILD_TAIL_LINES {
            lines.len()
        } else {
            sync_reporter::FAILED_BUILD_TAIL_LINES as nat
        },
        lines.take(lines.len() - sync_reporter::tail_of(lines).len())
            + sync_reporter::tail_of(lines) == lines,
{
    let tail = sync_reporter::tail_of(lines);
    assert(lines.take(lines.len() - tail.len()) + tail =~= lines);
}

/// How many places are asked for on account of the operations before the one
/// with the number `index`: two where one installs, one where it only removes.
pub open spec fn asked_before(operations: Seq<OperationModel>, index: int) -> int
    decreases index,
{
    if index <= 0 {
        0
    } else {
        let last = operations[index - 1];
        asked_before(operations, index - 1) + (if last.install is Some {
            2int
        } else if last.remove is Some {
            1
        } else {
            0
        })
    }
}

proof fn slots_are_counted(operations: Seq<OperationModel>, index: int)
    requires
        0 <= index <= operations.len(),
    ensures
        install_reporter::slot(operations, index) == asked_before(operations, index),
    decreases index,
{
    if index > 0 {
        slots_are_counted(operations, index - 1);
        assert(operations.take(index).drop_last() =~= operations.take(index - 1));
        assert(operations.take(index).last() == operations[index - 1]);
    } else {
        assert(operations.take(0) =~= Seq::empty());
    }
}

/// The package that is queued on account of an operation that installs has the
/// name and the size of the record that is installed, whatever the operation
/// removes. Where nothing is installed, they are those of the record that is
/// removed. A record without a size counts as one. An operation that installs
/// asks for an entry next, and nothing is asked for but that.
pub proof fn the_installed_record_is_queued(operations: Seq<OperationModel>, operation: usize)
    requires
        operation < operations.len() <= usize::MAX,
    ensures
        ({
            let requests = install_reporter::requests_of(operations);
            let at = asked_before(operations, operation as int);
            let given = operations[operation as int];
            &&& requests.len() == asked_before(operations, operations.len() as int)
            &&& given.install matches Some(record) ==> {
                &&& 0 <= at
                &&& at + 1 < requests.len()
                &&& requests[at] matches Request::Queue { package } && ({
                    &&& package.name == record.name
                    &&& record.size matches Some(size) ==> package.size == size
                    &&& record.size is None ==> package.size == 1
                })
                &&& requests[at + 1] matches Request::StartEntry { operation: started }
                    && started == operation
            }
            &&& given.install is None ==> (given.remove matches Some(record) ==> {
                &&& 0 <= at < requests.len()
                &&& requests[at] matches Request::Queue { package } && ({
                    &&& package.name == record.name
                    &&& record.size matches Some(size) ==> package.size == size
                    &&& record.size is None ==> package.size == 1
                })
            })
        }),
{
    let i = operation as int;
    slots_are_counted(operations, i);
    slots_are_counted(operations, operations.len() as int);
    assert(operations.take(operations.len() as int) =~= operations);
    let replies = Seq::new(install_reporter::requests_of(operations).len(), |k: int| 0usize);
    let inner = InnerModel {
        next_id: 0,
        links: Map::empty(),
        entries: Map::empty(),
        commands: Seq::empty(),
    };
    an_operation_has_its_own_places(inner, TransactionId(0), operations, replies, operation);
}

/// An operation that installs is queued alike whatever it removes.
pub proof fn what_is_removed_does_not_count(
    operations: Seq<OperationModel>,
    operation: usize,
    other: OperationModel,
)
    requires
        operation < operations.len() <= usize::MAX,
        operations[operation as int].install is Some,
        other.install == operations[operation as int].install,
    ensures
        install_reporter::requests_of(operations.update(operation as int, other))
            == install_reporter::requests_of(operations),
    decreases operations.len(),
{
    let changed = operations.update(operation as int, other);
    if operation == operations.len() - 1 {
        assert(changed.drop_last() =~= operations.drop_last());
        the_installed_record_is_queued(seq![other], 0);
        the_installed_record_is_queued(seq![operations.last()], 0);
    } else {
        what_is_removed_does_not_count(operations.drop_last(), operation, other);
        assert(changed.drop_last() =~= operations.drop_last().update(operation as int, other));
    }
}

/// When a transaction starts, an operation has a place on the bar of installed
/// packages if it installs or removes, and one on the bar of prepared packages
/// if it installs: those that answer what was asked for on its account.
/// Operations of the transaction that are not part of it keep what they have,
/// and neither the commands nor the number of the next transaction change.
pub proof fn places_answer_requests(
    inner: InnerModel,
    id: TransactionId,
    operations: Seq<OperationModel>,
    replies: Seq<usize>,
    operation: usize,
)
    requires
        operations.len() <= usize::MAX,
        replies.len() == install_reporter::requests_of(operations).len(),
    ensures
        ({
            let after = install_reporter::transaction_started(inner, id, operations, replies);
            let key = (id, operation);
            let at = asked_before(operations, operation as int);
            let given = operations[operation as int];
            let known = operation < operations.len();
            &&& after.next_id == inner.next_id
            &&& after.commands == inner.commands
            &&& if known && (given.install is Some || given.remove is Some) {
                after.links.contains_key(key) && after.links[key] == replies[at]
            } else {
                &&& after.links.contains_key(key) == inner.links.contains_key(key)
                &&& inner.links.contains_key(key) ==> after.links[key] == inner.links[key]
            }
            &&& if known && given.install is Some {
                after.entries.contains_key(key) && after.entries[key] == replies[at + 1]
            } else {
                &&& after.entries.contains_key(key) == inner.entries.contains_key(key)
                &&& inner.entries.contains_key(key) ==> after.entries[key] == inner.entries[key]
            }
        }),
{
    if operation < operations.len() {
        slots_are_counted(operations, operation as int);
        an_operation_has_its_own_places(inner, id, operations, replies, operation);
    }
}

/// Linking and the end of an operation are each shown by one command, for the
/// place that the operation was given; nothing is shown of an operation without
/// a place. Places on the other bar stay.
pub proof fn an_operation_is_shown_at_its_place(
    inner: InnerModel,
    id: TransactionId,
    operation: usize,
)
    ensures
        ({
            let linking = install_reporter::link_started(inner, id, operation);
            let over = install_reporter::operation_completed(inner, id, operation);
            let known = inner.links.contains_key((id, operation));
            let link = inner.links[(id, operation)];
            &&& linking.links == inner.links
            &&& linking.entries == inner.entries
            &&& linking.next_id == inner.next_id
            &&& over.entries == inner.entries
            &&& over.next_id == inner.next_id
            &&& known ==> {
                &&& linking.commands == inner.commands + seq![BarCommand::LinkStart { link }]
                &&& over.commands == inner.commands + seq![BarCommand::LinkFinish { link }]
            }
            &&& !known ==> {
                &&& linking.commands == inner.commands
                &&& over.commands == inner.commands
            }
        }),
{
    let link = inner.links[(id, operation)];
    assert(inner.commands.push(BarCommand::LinkStart { link }) =~= inner.commands
        + seq![BarCommand::LinkStart { link }]);
    assert(inner.commands.push(BarCommand::LinkFinish { link }) =~= inner.commands
        + seq![BarCommand::LinkFinish { link }]);
}

/// Whatever is shown, what is to be shown before it stays before it, and the
/// last command is the new one.
pub proof fn commands_keep_their_order(inner: InnerModel, command: BarCommand)
    ensures
        ({
            let after = install_reporter::commanded(inner, command);
            &&& after.commands.last() == command
            &&& after.commands.drop_last() == inner.commands
            &&& after.links == inner.links
            &&& after.entries == inner.entries
            &&& after.next_id == inner.next_id
        }),
{
    assert(install_reporter::commanded(inner, command).commands.drop_last() =~= inner.commands);
}

/// A build that is queued, started and over is shown by two commands, both for
/// the place that it was given when it was queued. Its output is streamed under
/// the name of its package, or held. Nothing else is touched.
pub proof fn a_build_is_shown_at_its_place(
    reporter: ReporterModel,
    operation: u64,
    package: Seq<char>,
    bar: usize,
    streamed: bool,
)
    ensures
        ({
            let queued = sync_reporter::build_queued(reporter, operation, package, bar);
            let started = sync_reporter::build_started(queued, operation, streamed);
            let over = sync_reporter::build_finished(started, operation);
            let plan = sync_reporter::output_plan(queued, operation, streamed);
            &&& queued.inner == reporter.inner
            &&& started.inner.commands == reporter.inner.commands + seq![
                BarCommand::BuildStart { bar },
            ]
            &&& over.inner.commands == reporter.inner.commands + seq![
                BarCommand::BuildStart { bar },
                BarCommand::BuildFinished { bar },
            ]
            &&& over.inner.links == reporter.inner.links
            &&& over.inner.entries == reporter.inner.entries
            &&& over.inner.next_id == reporter.inner.next_id
            &&& over.build_log_dir == reporter.build_log_dir
            &&& over.builds == reporter.builds.remove(operation)
            &&& streamed <==> plan == Some(OutputPlan::Stream { package })
            &&& !streamed <==> plan == Some(OutputPlan::<Seq<char>>::Buffer)
        }),
{
    let queued = sync_reporter::build_queued(reporter, operation, package, bar);
    let started = sync_reporter::build_started(queued, operation, streamed);
    let over = sync_reporter::build_finished(started, operation);
    assert(started.inner.commands =~= reporter.inner.commands + seq![
        BarCommand::BuildStart { bar },
    ]);
    assert(over.inner.commands =~= reporter.inner.commands + seq![
        BarCommand::BuildStart { bar },
        BarCommand::BuildFinished { bar },
    ]);
    assert(over.builds =~= reporter.builds.remove(operation));
}

/// A build that was never queued, or is over, is neither started nor finished:
/// nothing is shown, planned or told of it.
pub proof fn unknown_builds_are_passed_over(
    reporter: ReporterModel,
    operation: u64,
    streamed: bool,
    failed: bool,
)
    requires
        !reporter.builds.contains_key(operation),
    ensures
        sync_reporter::build_started(reporter, operation, streamed) == reporter,
        sync_reporter::build_finished(reporter, operation) == reporter,
        sync_reporter::output_plan(reporter, operation, streamed) is None,
        sync_reporter::failure_of(reporter, operation, failed) is None,
{
}

/// A failure names the package that was queued, and says whether its output was
/// on the screen.
pub proof fn a_failure_is_that_of_the_queued_package(
    reporter: ReporterModel,
    operation: u64,
    package: Seq<char>,
    bar: usize,
    streamed: bool,
)
    ensures
        ({
            let queued = sync_reporter::build_queued(reporter, operation, package, bar);
            let started = sync_reporter::build_started(queued, operation, streamed);
            &&& sync_reporter::failure_of(started, operation, true) == Some(
                FailedBuild { package, shown: streamed },
            )
            &&& sync_reporter::failure_of(started, operation, false) is None
        }),
{
}

/// To start over is told to both bars, and changes nothing else. A further
/// reporter changes the number of the next transaction alone.
pub proof fn starting_over_reaches_both_bars(reporter: ReporterModel)
    ensures
        sync_reporter::cleared(reporter).inner.commands == reporter.inner.commands + seq![
            BarCommand::ClearPreparing,
            BarCommand::ClearInstalling,
        ],
        sync_reporter::cleared(reporter).inner.links == reporter.inner.links,
        sync_reporter::cleared(reporter).inner.entries == reporter.inner.entries,
        sync_reporter::cleared(reporter).inner.next_id == reporter.inner.next_id,
        sync_reporter::cleared(reporter).builds == reporter.builds,
        sync_reporter::cleared(reporter).build_log_dir == reporter.build_log_dir,
        sync_reporter::with_reporter(reporter).inner.commands == reporter.inner.commands,
        sync_reporter::with_reporter(reporter).inner.links == reporter.inner.links,
        sync_reporter::with_reporter(reporter).inner.entries == reporter.inner.entries,
        sync_reporter::with_reporter(reporter).builds == reporter.builds,
        sync_reporter::with_reporter(reporter).build_log_dir == reporter.build_log_dir,
{
    assert(sync_reporter::cleared(reporter).inner.commands =~= reporter.inner.commands + seq![
        BarCommand::ClearPreparing,
        BarCommand::ClearInstalling,
    ]);
}

/// The report on a failed build that was not streamed names the package, then
/// has the last lines of its log, at most thirty, each indented, and ends with
/// the path of the full log wherever there is one, however many lines there
/// are. A streamed build has no report.
pub proof fn the_report_leads_to_the_log(
    build: FailedBuild<Seq<char>>,
    lines: Seq<Seq<char>>,
    log_path: Option<Seq<char>>,
)
    ensures
        ({
            let report = sync_reporter::failure_lines(build, lines, log_path);
            let count = if lines.len() < 30 {
                lines.len() as int
            } else {
                30
            };
            &&& build.shown ==> report.len() == 0
            &&& !build.shown ==> {
                &&& report.len() == 1 + count + (if log_path is Some {
                    1int
                } else {
                    0
                })
                &&& report[0] == "build of "@ + build.package + " failed:"@
                &&& forall|i: int|
                    0 <= i < count ==> #[trigger] report[1 + i] == "  "@ + lines[lines.len() - count
                        + i]
                &&& log_path matches Some(path) ==> report.last() == "full log: "@ + path
            }
        }),
{
}

/// The lines that are taken from a stream are those before the first look that
/// gave none.
pub proof fn lines_are_taken_until_the_first_gap(looks: Seq<Look<Seq<char>>>)
    ensures
        ({
            let lines = sync_reporter::ready_lines(looks);
            &&& lines.len() <= looks.len()
            &&& forall|i: int|
                0 <= i < lines.len() ==> looks[i] == Some(Some(#[trigger] lines[i]))
            &&& lines.len() < looks.len() ==> !(looks[lines.len() as int] matches Some(Some(_)))
        }),
    decreases looks.len(),
{
    if looks.len() > 0 {
        if let Some(Some(line)) = looks[0] {
            lines_are_taken_until_the_first_gap(looks.skip(1));
            let rest = sync_reporter::ready_lines(looks.skip(1));
            let lines = sync_reporter::ready_lines(looks);
            assert forall|i: int| 0 <= i < lines.len() implies looks[i] == Some(
                Some(#[trigger] lines[i]),
            ) by {
                if i > 0 {
                    assert(looks.skip(1)[i - 1] == Some(Some(rest[i - 1])));
                }
            }
        }
    }
}

/// The log of a failed build is named after its package, stands in the
/// directory for logs, and holds every line in its place, each followed by its
/// end, and nothing else.
pub proof fn the_log_holds_every_line(
    reporter: ReporterModel,
    build: FailedBuild<Seq<char>>,
    lines: Seq<Seq<char>>,
    i: int,
)
    requires
        0 <= i < lines.len(),
    ensures
        sync_reporter::log_of(reporter, build, lines) is Some <==> reporter.build_log_dir is Some,
        sync_reporter::log_of(reporter, build, lines) matches Some(log) ==> {
            &&& Some(log.dir) == reporter.build_log_dir
            &&& log.name == build.package + ".log"@
            &&& text::occurs_at(
                log.contents,
                lines[i] + "\n"@,
                text_laws::offset(lines, 1, i),
            )
            &&& log.contents.len() == text_laws::offset(lines, 1, lines.len() as int)
        },
{
    reveal_strlit("\n");
    if let Some(log) = sync_reporter::log_of(reporter, build, lines) {
        text_laws::joining_keeps_each_part(lines, "\n"@, i);
        let whole = text::joined(lines, "\n"@);
        let at = text_laws::offset(lines, 1, i);
        let end = at + lines[i].len();
        assert(lines[i] =~= whole.subrange(at, end));
        if i < lines.len() - 1 {
            assert(whole.subrange(end, end + 1) =~= "\n"@);
            assert(log.contents[end] == whole.subrange(end, end + 1)[0]);
        } else {
            assert(text_laws::offset(lines, 1, i + 1) == at + lines[i].len() + 1);
        }
        assert forall|k: int| 0 <= k < lines[i].len() implies log.contents[at + k]
            == #[trigger] lines[i][k] by {
            assert(whole.subrange(at, end)[k] == whole[at + k]);
        }
        assert(log.contents.subrange(at, at + (lines[i] + "\n"@).len()) =~= lines[i] + "\n"@);
    }
}

/// A build that is known keeps its package and its place when it starts, however
/// often it does: what becomes of its output is what was said last. Its start and
/// its end are shown at its place, and its failure is told if it has started.
pub proof fn a_known_build_goes_its_way(
    reporter: ReporterModel,
    operation: u64,
    streamed: bool,
    failed: bool,
)
    requires
        reporter.builds.contains_key(operation),
    ensures
        ({
            let build = reporter.builds[operation];
            let started = sync_reporter::build_started(reporter, operation, streamed);
            let over = sync_reporter::build_finished(reporter, operation);
            let failure = sync_reporter::failure_of(reporter, operation, failed);
            let plan = sync_reporter::output_plan(reporter, operation, streamed);
            &&& started.builds[operation].package == build.package
            &&& started.builds[operation].bar == build.bar
            &&& started.builds[operation].output == if streamed {
                Some(BuildOutput::Streamed)
            } else {
                Some(BuildOutput::Buffered)
            }
            &&& started.inner.commands == reporter.inner.commands + seq![
                BarCommand::BuildStart { bar: build.bar },
            ]
            &&& over.inner.commands == reporter.inner.commands + seq![
                BarCommand::BuildFinished { bar: build.bar },
            ]
            &&& plan == if streamed {
                Some(OutputPlan::Stream { package: build.package })
            } else {
                Some(OutputPlan::Buffer)
            }
            &&& failure is Some <==> failed && build.output is Some
            &&& failure matches Some(told) ==> {
                &&& told.package == build.package
                &&& told.shown <==> build.output == Some(BuildOutput::Streamed)
            }
            &&& started.build_log_dir == reporter.build_log_dir
            &&& over.build_log_dir == reporter.build_log_dir
        }),
{
    let build = reporter.builds[operation];
    assert(sync_reporter::build_started(reporter, operation, streamed).inner.commands
        =~= reporter.inner.commands + seq![BarCommand::BuildStart { bar: build.bar }]);
    assert(sync_reporter::build_finished(reporter, operation).inner.commands
        =~= reporter.inner.commands + seq![BarCommand::BuildFinished { bar: build.bar }]);
}

} // verus!
