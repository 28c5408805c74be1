//! What users see of packages that are installed and built.
//!
//! Streams, files and the screen belong to the caller, who is told what to do
//! with them.

use std::collections::HashMap;

use vstd::prelude::*;
use vstd::string::*;

use crate::install_reporter;
use crate::install_reporter::{BarCommand, CombinedInstallReporterInner, InnerModel};
use crate::text;
use crate::transactions::TransactionId;

verus! {

broadcast use vstd::std_specs::hash::group_hash_axioms;

/// Number of trailing log lines shown on stderr when a build fails. The full
/// log is always written to disk.
pub const FAILED_BUILD_TAIL_LINES: usize = 30;

/// Where a build's backend output goes while the build runs. Either way it is
/// kept until the build is over, for the log.
#[derive(Debug, Clone, Copy, PartialEq, Eq, Structural)]
pub enum BuildOutput {
    /// Printed to stderr as it arrives by a task owning the stream.
    Streamed,
    /// Held until the build finishes, then discarded or reported.
    Buffered,
}

/// What is known of a build.
#[derive(Debug)]
pub struct BuildProgress<T> {
    /// The place of the build on the bar of prepared packages.
    pub bar: usize,
    pub package: T,
    pub output: Option<BuildOutput>,
}

impl DeepView for BuildProgress<String> {
    type V = BuildProgress<Seq<char>>;

    open spec fn deep_view(&self) -> BuildProgress<Seq<char>> {
        BuildProgress { bar: self.bar, package: self.package@, output: self.output }
    }
}

/// What is to be done with the output of a build that has started.
#[derive(Debug, PartialEq, Eq)]
pub enum OutputPlan<T> {
    /// Print each line as it arrives, with the package before it, and keep it.
    Stream { package: T },
    /// Keep the lines until the build is over.
    Buffer,
}

impl DeepView for OutputPlan<String> {
    type V = OutputPlan<Seq<char>>;

    open spec fn deep_view(&self) -> OutputPlan<Seq<char>> {
        match self {
            OutputPlan::Stream { package } => OutputPlan::Stream { package: package@ },
            OutputPlan::Buffer => OutputPlan::Buffer,
        }
    }
}

/// A build that has failed.
#[derive(Debug, Clone, PartialEq, Eq)]
pub struct FailedBuild<T> {
    pub package: T,
    /// Whether its output was printed while it ran.
    pub shown: bool,
}

impl DeepView for FailedBuild<String> {
    type V = FailedBuild<Seq<char>>;

    open spec fn deep_view(&self) -> FailedBuild<Seq<char>> {
        FailedBuild { package: self.package@, shown: self.shown }
    }
}

/// A log, and where it is to be written.
#[derive(Debug, Clone, PartialEq, Eq)]
pub struct LogFile<T> {
    /// The directory.
    pub dir: T,
    /// The name of the file in it.
    pub name: T,
    pub contents: T,
}

impl DeepView for LogFile<String> {
    type V = LogFile<Seq<char>>;

    open spec fn deep_view(&self) -> LogFile<Seq<char>> {
        LogFile { dir: self.dir@, name: self.name@, contents: self.contents@ }
    }
}

/// What is known of all builds and installations under way.
#[derive(Debug)]
pub struct SyncReporter {
    combined_inner: CombinedInstallReporterInner,
    builds: HashMap<u64, BuildProgress<String>>,
    /// Directory that failed builds' full logs are written to. `None` when the
    /// cache directory could not be resolved.
    build_log_dir: Option<String>,
}

/// What is known of all builds and installations under way, in terms of
/// characters.
pub struct ReporterModel {
    pub inner: InnerModel,
    /// The builds under way, by the number of their operation.
    pub builds: Map<u64, BuildProgress<Seq<char>>>,
    pub build_log_dir: Option<Seq<char>>,
}

impl View for SyncReporter {
    type V = ReporterModel;

    closed spec fn view(&self) -> ReporterModel {
        ReporterModel {
            inner: self.combined_inner@,
            builds: self.builds@.map_values(|build: BuildProgress<String>| build.deep_view()),
            build_log_dir: self.build_log_dir.deep_view(),
        }
    }
}

/// The reporter of one transaction.
#[derive(Debug, Clone, Copy, PartialEq, Eq, Structural)]
pub struct InstallReporter {
    /// The transaction.
    pub id: TransactionId,
}

/// What is known after the bars were told to start over.
pub open spec fn cleared(reporter: ReporterModel) -> ReporterModel {
    ReporterModel {
        inner: install_reporter::commanded(
            install_reporter::commanded(reporter.inner, BarCommand::ClearPreparing),
            BarCommand::ClearInstalling,
        ),
        ..reporter
    }
}

/// What is known after a reporter for one more transaction was made. After the
/// largest number comes zero.
pub open spec fn with_reporter(reporter: ReporterModel) -> ReporterModel {
    let id = reporter.inner.next_id;
    let next_id = if id == usize::MAX {
        0
    } else {
        (id + 1) as usize
    };
    ReporterModel { inner: InnerModel { next_id, ..reporter.inner }, ..reporter }
}

/// What is known after the build `operation` of `package` was queued and given
/// the place `bar`.
pub open spec fn build_queued(
    reporter: ReporterModel,
    operation: u64,
    package: Seq<char>,
    bar: usize,
) -> ReporterModel {
    ReporterModel {
        builds: reporter.builds.insert(operation, BuildProgress { bar, package, output: None }),
        ..reporter
    }
}

/// What is known after the build `operation` has started.
pub open spec fn build_started(
    reporter: ReporterModel,
    operation: u64,
    stream_to_screen: bool,
) -> ReporterModel {
    if reporter.builds.contains_key(operation) {
        let build = reporter.builds[operation];
        let output = if stream_to_screen {
            BuildOutput::Streamed
        } else {
            BuildOutput::Buffered
        };
        ReporterModel {
            inner: install_reporter::commanded(
                reporter.inner,
                BarCommand::BuildStart { bar: build.bar },
            ),
            builds: reporter.builds.insert(
                operation,
                BuildProgress { output: Some(output), ..build },
            ),
            ..reporter
        }
    } else {
        reporter
    }
}

/// What is to be done with the output of the build `operation` when it starts.
pub open spec fn output_plan(
    reporter: ReporterModel,
    operation: u64,
    stream_to_screen: bool,
) -> Option<OutputPlan<Seq<char>>> {
    if !reporter.builds.contains_key(operation) {
        None
    } else if stream_to_screen {
        Some(OutputPlan::Stream { package: reporter.builds[operation].package })
    } else {
        Some(OutputPlan::Buffer)
    }
}

/// What is known after the build `operation` is over.
pub open spec fn build_finished(reporter: ReporterModel, operation: u64) -> ReporterModel {
    if reporter.builds.contains_key(operation) {
        ReporterModel {
            inner: install_reporter::commanded(
                reporter.inner,
                BarCommand::BuildFinished { bar: reporter.builds[operation].bar },
            ),
            builds: reporter.builds.remove(operation),
            ..reporter
        }
    } else {
        reporter
    }
}

/// The failure of the build `operation` when it is over: that of a build that
/// has started and failed.
pub open spec fn failure_of(
    reporter: ReporterModel,
    operation: u64,
    failed: bool,
) -> Option<FailedBuild<Seq<char>>> {
    if reporter.builds.contains_key(operation) && failed {
        let build = reporter.builds[operation];
        match build.output {
            Some(output) => Some(
                FailedBuild { package: build.package, shown: output == BuildOutput::Streamed },
            ),
            None => None,
        }
    } else {
        None
    }
}

/// The log of a failed build that put out `lines`: all of them, each with its
/// end, in the directory for logs.
pub open spec fn log_of(
    reporter: ReporterModel,
    build: FailedBuild<Seq<char>>,
    lines: Seq<Seq<char>>,
) -> Option<LogFile<Seq<char>>> {
    match reporter.build_log_dir {
        Some(dir) => Some(
            LogFile {
                dir,
                name: build.package + ".log"@,
                contents: text::joined(lines, "\n"@) + "\n"@,
            },
        ),
        None => None,
    }
}

impl SyncReporter {
    /// A reporter that knows of no build and no transaction.
    pub fn new(build_log_dir: Option<String>) -> (r: Self)
        ensures
            r@ == (ReporterModel {
                inner: (InnerModel {
                    next_id: 0,
                    links: Map::empty(),
                    entries: Map::empty(),
                    commands: Seq::empty(),
                }),
                builds: Map::empty(),
                build_log_dir: build_log_dir.deep_view(),
            }),
    {
        let r = SyncReporter {
            combined_inner: CombinedInstallReporterInner::new(),
            builds: HashMap::new(),
            build_log_dir,
        };
        assert(r@.builds =~= Map::empty());
        r
    }

    /// Tells both bars to start over.
    pub fn clear(&mut self)
        ensures
            final(self)@ == cleared(old(self)@),
    {
        self.combined_inner.command(BarCommand::ClearPreparing);
        self.combined_inner.command(BarCommand::ClearInstalling);
    }

    /// Creates a new InstallReporter that shares this SyncReporter instance
    pub fn create_reporter(&mut self) -> (r: InstallReporter)
        ensures
            r.id == TransactionId(old(self)@.inner.next_id),
            final(self)@ == with_reporter(old(self)@),
    {
        let id: usize = self.combined_inner.allocate();
        InstallReporter { id: TransactionId::new(id) }
    }

    /// What is known of the transactions under way.
    pub fn combined(&mut self) -> (r: &mut CombinedInstallReporterInner)
        ensures
            r@ == old(self)@.inner,
            final(self)@ == (ReporterModel { inner: final(r)@, ..old(self)@ }),
    {
        &mut self.combined_inner
    }

    /// The log that is to be written of a failed build that put out `lines`, if
    /// there is a directory for logs.
    pub fn build_log(&self, build: &FailedBuild<String>, lines: &Vec<String>) -> (r: Option<
        LogFile<String>,
    >)
        ensures
            r.deep_view() == log_of(self@, build.deep_view(), text::views(lines@)),
    {
        match &self.build_log_dir {
            Some(dir) => Some(
                LogFile {
                    dir: dir.clone(),
                    name: build_log_name(build.package.as_str()),
                    contents: build_log_contents(lines),
                },
            ),
            None => None,
        }
    }

    /// The build `operation` of `package` was queued and given the place `bar`
    /// on the bar of prepared packages.
    pub fn on_queued(&mut self, operation: u64, package: &str, bar: usize)
        ensures
            final(self)@ == build_queued(old(self)@, operation, package@, bar),
    {
        let ghost before = self@.builds;
        let build = BuildProgress { bar, package: package.to_owned(), output: None };
        let ghost seen = build.deep_view();
        self.builds.insert(operation, build);
        assert(self@.builds =~= before.insert(operation, seen));
    }

    /// The build `operation` has started. Returns what is to be done with its
    /// output, and `None` for a build that is not known.
    pub fn on_started(&mut self, operation: u64, stream_to_screen: bool) -> (r: Option<
        OutputPlan<String>,
    >)
        ensures
            r.deep_view() == output_plan(old(self)@, operation, stream_to_screen),
            final(self)@ == build_started(old(self)@, operation, stream_to_screen),
    {
        let ghost before = self@.builds;
        let mut build = match self.builds.remove(&operation) {
            Some(build) => build,
            None => {
                assert(self@.builds =~= before);
                return None;
            },
        };
        self.combined_inner.command(BarCommand::BuildStart { bar: build.bar });
        let plan = if stream_to_screen {
            build.output = Some(BuildOutput::Streamed);
            OutputPlan::Stream { package: build.package.clone() }
        } else {
            build.output = Some(BuildOutput::Buffered);
            OutputPlan::Buffer
        };
        let ghost seen = build.deep_view();
        self.builds.insert(operation, build);
        assert(self@.builds =~= before.insert(operation, seen));
        Some(plan)
    }

    /// The build `operation` is over. Returns its failure, if it has started and
    /// failed: then its log is to be written and its failure to be reported.
    pub fn on_finished(&mut self, operation: u64, failed: bool) -> (r: Option<FailedBuild<String>>)
        ensures
            r.deep_view() == failure_of(old(self)@, operation, failed),
            final(self)@ == build_finished(old(self)@, operation),
    {
        let ghost before = self@.builds;
        let build = match self.builds.remove(&operation) {
            Some(build) => build,
            None => {
                assert(self@.builds =~= before);
                return None;
            },
        };
        assert(self@.builds =~= before.remove(operation));
        self.combined_inner.command(BarCommand::BuildFinished { bar: build.bar });
        if !failed {
            return None;
        }
        match build.output {
            Some(BuildOutput::Streamed) => Some(
                FailedBuild { package: build.package, shown: true },
            ),
            Some(BuildOutput::Buffered) => Some(
                FailedBuild { package: build.package, shown: false },
            ),
            None => None,
        }
    }
}

/// One look at a stream of lines: `None` where the stream was not ready,
/// `Some(None)` where it was over, else the next line.
pub type Look<T> = Option<Option<T>>;

/// The lines before the first of `looks` that did not give one.
pub open spec fn ready_lines(looks: Seq<Look<Seq<char>>>) -> Seq<Seq<char>>
    decreases looks.len(),
{
    if looks.len() == 0 {
        Seq::empty()
    } else {
        match looks[0] {
            Some(Some(line)) => seq![line] + ready_lines(looks.skip(1)),
            _ => Seq::empty(),
        }
    }
}

/// Takes up what one look at a stream gave, and returns whether to look again:
/// only as long as there are lines.
pub fn drain_ready(lines: &mut Vec<String>, look: Look<String>) -> (again: bool)
    ensures
        again == (look matches Some(Some(_))),
        text::views(final(lines)@) == text::views(old(lines)@) + ready_lines(
            seq![look.deep_view()],
        ),
{
    let ghost before = lines@;
    let ghost seen = look.deep_view();
    proof {
        reveal_with_fuel(ready_lines, 2);
        assert(seq![seen].skip(1) =~= Seq::empty());
    }
    match look {
        Some(Some(line)) => {
            let ghost added = line@;
            lines.push(line);
            assert(text::views(lines@) =~= text::views(before) + seq![added]);
            assert(ready_lines(seq![seen]) =~= seq![added]);
            true
        },
        _ => {
            assert(text::views(before) =~= text::views(before) + Seq::empty());
            false
        },
    }
}

/// Keeps a line of the output of `package` that has arrived, and returns how it
/// is printed.
pub fn stream_line(lines: &mut Vec<String>, package: &str, line: String) -> (r: String)
    ensures
        r@ == "["@ + package@ + "] "@ + line@,
        text::views(final(lines)@) == text::views(old(lines)@).push(line@),
{
    let ghost before = lines@;
    let ghost added = line@;
    let mut printed = "[".to_owned();
    printed.append(package);
    printed.append("] ");
    printed.append(line.as_str());
    lines.push(line);
    assert(text::views(lines@) =~= text::views(before).push(added));
    printed
}

/// The name of the file that the log of a build of `package` is written to.
pub fn build_log_name(package: &str) -> (r: String)
    ensures
        r@ == package@ + ".log"@,
{
    let mut name = package.to_owned();
    name.append(".log");
    name
}

/// What the log of a build holds: its lines, each with its end.
pub fn build_log_contents(lines: &Vec<String>) -> (r: String)
    ensures
        r@ == text::joined(text::views(lines@), "\n"@) + "\n"@,
{
    let mut contents = text::join(lines, "\n");
    contents.append("\n");
    contents
}

/// The lines at the end of a log that are shown.
pub open spec fn tail_of(lines: Seq<Seq<char>>) -> Seq<Seq<char>> {
    if lines.len() <= FAILED_BUILD_TAIL_LINES {
        lines
    } else {
        lines.skip(lines.len() - FAILED_BUILD_TAIL_LINES)
    }
}

/// What is shown of a failed build: nothing more where its output was printed
/// while it ran.
pub open spec fn failure_lines(
    build: FailedBuild<Seq<char>>,
    lines: Seq<Seq<char>>,
    log_path: Option<Seq<char>>,
) -> Seq<Seq<char>> {
    let head = seq!["build of "@ + build.package + " failed:"@] + tail_of(lines).map_values(
        |line: Seq<char>| "  "@ + line,
    );
    if build.shown {
        Seq::empty()
    } else {
        match log_path {
            Some(path) => head.push("full log: "@ + path),
            None => head,
        }
    }
}

/// What is shown of a failed build whose output was `lines`, unless it was
/// printed already: where there are many, the last ones, and where the log could
/// be written, its path.
pub fn failure_report(
    build: &FailedBuild<String>,
    lines: &Vec<String>,
    log_path: Option<String>,
) -> (r: Vec<String>)
    ensures
        text::views(r@) == failure_lines(
            build.deep_view(),
            text::views(lines@),
            log_path.deep_view(),
        ),
        build.shown <==> r@.len() == 0,
        !build.shown ==> (log_path matches Some(path) ==> r@.last()@ == "full log: "@ + path@),
{
    if build.shown {
        let none: Vec<String> = Vec::new();
        assert(text::views(none@) =~= Seq::empty());
        return none;
    }
    let package = build.package.as_str();
    let mut first = "build of ".to_owned();
    first.append(package);
    first.append(" failed:");
    let mut report: Vec<String> = vec![first];
    let tail: usize = if lines.len() <= FAILED_BUILD_TAIL_LINES {
        0
    } else {
        lines.len() - FAILED_BUILD_TAIL_LINES
    };
    let mut i: usize = tail;
    let ghost head = "build of "@ + package@ + " failed:"@;
    let ghost shown = tail_of(text::views(lines@)).map_values(|line: Seq<char>| "  "@ + line);
    assert(shown.len() == lines.len() - tail);
    assert(text::views(report@) =~= seq![head] + shown.take(0));
    while i < lines.len()
        invariant
            tail <= i <= lines.len(),
            shown.len() == lines.len() - tail,
            forall|j: int| 0 <= j < shown.len() ==> #[trigger] shown[j] == "  "@ + lines@[j + tail]@,
            text::views(report@) == seq![head] + shown.take(i - tail),
        decreases lines.len() - i,
    {
        let mut line = "  ".to_owned();
        line.append(lines[i].as_str());
        assert(line@ == shown[i - tail]);
        let ghost before = report@;
        let ghost added = line@;
        report.push(line);
        assert(text::views(report@) =~= text::views(before).push(added));
        assert(text::views(report@) =~= seq![head] + shown.take(i + 1 - tail));
        i += 1;
    }
    assert(shown.take(i - tail) =~= shown);
    match log_path {
        Some(path) => {
            let mut line = "full log: ".to_owned();
            line.append(path.as_str());
            let ghost before = report@;
            let ghost added = line@;
            report.push(line);
            assert(text::views(report@) =~= text::views(before).push(added));
        },
        None => {},
    }
    assert(text::views(report@).len() == report@.len());
    report
}

} // verus!
