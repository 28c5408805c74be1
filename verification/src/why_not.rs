//! `pixi why-not`: why the solver does not give a version of a package. The
//! work itself (finding the workspace, reading the lock file, solving) is left
//! to the caller, who hands back what came of it.

use vstd::prelude::*;
use vstd::string::*;

use crate::lock_file;
use crate::lock_file::{locked_version, LockFile};
use crate::match_spec;
use crate::match_spec::{read_spec, NewerThan, Reading, Spec};
use crate::package::{NameModel, PackageName};

verus! {

/// The arguments of `pixi why-not`.
#[derive(Debug)]
pub struct Args<T> {
    /// The match spec to probe for. Without a version constraint the currently
    /// locked version is used as a lower bound.
    pub spec: T,
    /// The platform to solve for. Defaults to the platform best matching this
    /// machine.
    pub platform: Option<T>,
    /// The environment to solve. Defaults to the default environment.
    pub environment: Option<T>,
}

impl DeepView for Args<String> {
    type V = Args<Seq<char>>;

    open spec fn deep_view(&self) -> Args<Seq<char>> {
        Args {
            spec: self.spec@,
            platform: self.platform.deep_view(),
            environment: self.environment.deep_view(),
        }
    }
}

/// An environment of the workspace.
#[derive(Debug)]
pub struct Environment<T> {
    pub name: T,
    /// Its name as it is shown to users.
    pub shown: T,
}

impl DeepView for Environment<String> {
    type V = Environment<Seq<char>>;

    open spec fn deep_view(&self) -> Environment<Seq<char>> {
        Environment { name: self.name@, shown: self.shown@ }
    }
}

/// What a query waits for.
#[derive(Debug)]
#[allow(inconsistent_fields)]
pub enum Stage<T, N> {
    /// The environment.
    Environment,
    /// The platform.
    Platform { environment: Environment<T> },
    /// The lock file, to find a version to compare against.
    LockFile { environment: Environment<T>, platform: T, name: N },
    /// The outcome of the solve.
    Probe { environment: Environment<T>, platform: T, name: N, printed: T },
    /// Nothing: the query is over.
    Finished,
}

impl DeepView for Stage<String, PackageName> {
    type V = Stage<Seq<char>, NameModel>;

    open spec fn deep_view(&self) -> Stage<Seq<char>, NameModel> {
        match self {
            Stage::Environment => Stage::Environment,
            Stage::Platform { environment } => Stage::Platform {
                environment: environment.deep_view(),
            },
            Stage::LockFile { environment, platform, name } => Stage::LockFile {
                environment: environment.deep_view(),
                platform: platform@,
                name: name.deep_view(),
            },
            Stage::Probe { environment, platform, name, printed } => Stage::Probe {
                environment: environment.deep_view(),
                platform: platform@,
                name: name.deep_view(),
                printed: printed@,
            },
            Stage::Finished => Stage::Finished,
        }
    }
}

/// Why a query ends without an answer.
#[derive(Debug)]
pub struct Failure<T> {
    pub message: T,
    /// The error behind it.
    pub cause: Option<T>,
    /// What the user can do.
    pub help: Option<T>,
}

/// A failure, in terms of characters.
pub open spec fn outcome_view(r: Result<(), Failure<String>>) -> Result<(), Failure<Seq<char>>> {
    match r {
        Ok(done) => Ok(done),
        Err(failure) => Err(
            Failure {
                message: failure.message@,
                cause: failure.cause.deep_view(),
                help: failure.help.deep_view(),
            },
        ),
    }
}

/// The work that a query asks for.
#[derive(Debug)]
#[allow(inconsistent_fields)]
pub enum Action<T, N> {
    /// Find the environment with this name, or the one that is meant where no
    /// name is given.
    FindEnvironment { name: Option<T> },
    /// Find the platform of the workspace that this name stands for.
    ResolvePlatform { name: T },
    /// Find the platform of the environment that suits this machine best.
    BestPlatform,
    /// Read the lock file, and find what it calls the platform.
    LoadLockFile,
    /// Solve the environment with one more requirement: the package `name`, as
    /// `spec` matches it, with `bound` as what is said of its version where
    /// there is one.
    Probe { name: N, spec: T, bound: Option<NewerThan<T>> },
    /// End with this outcome.
    Finish(Result<(), Failure<T>>),
}

impl DeepView for Action<String, PackageName> {
    type V = Action<Seq<char>, NameModel>;

    open spec fn deep_view(&self) -> Action<Seq<char>, NameModel> {
        match self {
            Action::FindEnvironment { name } => Action::FindEnvironment { name: name.deep_view() },
            Action::ResolvePlatform { name } => Action::ResolvePlatform { name: name@ },
            Action::BestPlatform => Action::BestPlatform,
            Action::LoadLockFile => Action::LoadLockFile,
            Action::Probe { name, spec, bound } => Action::Probe {
                name: name.deep_view(),
                spec: spec@,
                bound: bound.deep_view(),
            },
            Action::Finish(outcome) => Action::Finish(outcome_view(*outcome)),
        }
    }
}

/// What came of the work that a query asked for.
#[derive(Debug)]
#[allow(inconsistent_fields)]
pub enum Event<T> {
    Environment { environment: Environment<T> },
    NoEnvironment { error: T },
    Platform { name: T },
    /// The name does not stand for a platform of the workspace.
    NotResolved { error: T },
    /// No platform of the environment suits this machine.
    NoPlatform,
    /// The lock file, and what it calls the platform.
    LockFile { lock_file: LockFile, platform: Option<T> },
    NoLockFile { error: T },
    /// The environment cannot be solved, as explained.
    Unsolvable { explanation: T },
    Solvable,
    NotProbed { error: T },
}

impl DeepView for Event<String> {
    type V = Event<Seq<char>>;

    open spec fn deep_view(&self) -> Event<Seq<char>> {
        match self {
            Event::Environment { environment } => Event::Environment {
                environment: environment.deep_view(),
            },
            Event::NoEnvironment { error } => Event::NoEnvironment { error: error@ },
            Event::Platform { name } => Event::Platform { name: name@ },
            Event::NotResolved { error } => Event::NotResolved { error: error@ },
            Event::NoPlatform => Event::NoPlatform,
            Event::LockFile { lock_file, platform } => Event::LockFile {
                lock_file: *lock_file,
                platform: platform.deep_view(),
            },
            Event::NoLockFile { error } => Event::NoLockFile { error: error@ },
            Event::Unsolvable { explanation } => Event::Unsolvable { explanation: explanation@ },
            Event::Solvable => Event::Solvable,
            Event::NotProbed { error } => Event::NotProbed { error: error@ },
        }
    }
}

/// A query under way.
#[derive(Debug)]
pub struct WhyNot<T, N> {
    pub args: Args<T>,
    pub stage: Stage<T, N>,
}

impl DeepView for WhyNot<String, PackageName> {
    type V = WhyNot<Seq<char>, NameModel>;

    open spec fn deep_view(&self) -> WhyNot<Seq<char>, NameModel> {
        WhyNot { args: self.args.deep_view(), stage: self.stage.deep_view() }
    }
}

/// One step of a query: lines to print, in order, then work to do.
#[derive(Debug)]
pub struct Step {
    pub state: WhyNot<String, PackageName>,
    pub lines: Vec<String>,
    pub action: Action<String, PackageName>,
}

/// A step, in terms of characters.
pub struct StepModel {
    pub state: WhyNot<Seq<char>, NameModel>,
    pub lines: Seq<Seq<char>>,
    pub action: Action<Seq<char>, NameModel>,
}

impl DeepView for Step {
    type V = StepModel;

    open spec fn deep_view(&self) -> StepModel {
        StepModel {
            state: self.state.deep_view(),
            lines: self.lines.deep_view(),
            action: self.action.deep_view(),
        }
    }
}

/// A query under way, in terms of characters.
pub type StateModel = WhyNot<Seq<char>, NameModel>;

/// The step that asks for `action` and waits at `stage`.
pub open spec fn waiting(
    args: Args<Seq<char>>,
    stage: Stage<Seq<char>, NameModel>,
    action: Action<Seq<char>, NameModel>,
) -> StepModel {
    StepModel { state: WhyNot { args, stage }, lines: Seq::empty(), action }
}

/// The step that prints `lines` and ends with success.
pub open spec fn answered(args: Args<Seq<char>>, lines: Seq<Seq<char>>) -> StepModel {
    StepModel {
        state: WhyNot { args, stage: Stage::Finished },
        lines,
        action: Action::Finish(Ok(())),
    }
}

/// The step that ends with `failure`.
pub open spec fn failing(args: Args<Seq<char>>, failure: Failure<Seq<char>>) -> StepModel {
    waiting(args, Stage::Finished, Action::Finish(Err(failure)))
}

/// The failure that only has a message.
pub open spec fn plain_failure(message: Seq<char>) -> Failure<Seq<char>> {
    Failure { message, cause: None, help: None }
}

/// The first step of a query.
pub open spec fn started(args: Args<Seq<char>>) -> StepModel {
    waiting(args, Stage::Environment, Action::FindEnvironment { name: args.environment })
}

/// The step after the environment is found.
pub open spec fn environment_found(
    args: Args<Seq<char>>,
    environment: Environment<Seq<char>>,
) -> StepModel {
    waiting(
        args,
        Stage::Platform { environment },
        match args.platform {
            Some(name) => Action::ResolvePlatform { name },
            None => Action::BestPlatform,
        },
    )
}

/// The step after the platform is found and the spec was read.
pub open spec fn spec_known(
    args: Args<Seq<char>>,
    environment: Environment<Seq<char>>,
    platform: Seq<char>,
    reading: Reading,
) -> StepModel {
    match reading {
        Err(message) => failing(args, plain_failure(message)),
        Ok(spec) => match spec.name {
            None => failing(
                args,
                plain_failure("`pixi why-not` needs a match spec that names one package"@),
            ),
            Some(name) => if spec.has_version {
                waiting(
                    args,
                    Stage::Probe { environment, platform, name, printed: spec.printed },
                    Action::Probe { name, spec: args.spec, bound: None },
                )
            } else {
                waiting(
                    args,
                    Stage::LockFile { environment, platform, name },
                    Action::LoadLockFile,
                )
            },
        },
    }
}

/// The failure of a query for a package that is not locked.
pub open spec fn not_locked(
    environment: Environment<Seq<char>>,
    platform: Seq<char>,
    name: NameModel,
) -> Failure<Seq<char>> {
    Failure {
        message: "'"@ + name.source + "' is not locked for environment '"@ + environment.name
            + "' on '"@ + platform + "', so there is no version to compare against"@,
        cause: None,
        help: Some("try `pixi why-not '"@ + name.source + ">=<version>'`"@),
    }
}

/// The step after the locked version is known and the spec was read with a
/// lower bound.
pub open spec fn bound_known(
    args: Args<Seq<char>>,
    environment: Environment<Seq<char>>,
    platform: Seq<char>,
    name: NameModel,
    bound: NewerThan<Seq<char>>,
    reading: Reading,
) -> StepModel {
    match reading {
        Err(message) => failing(args, plain_failure(message)),
        Ok(spec) => waiting(
            args,
            Stage::Probe { environment, platform, name, printed: spec.printed },
            Action::Probe { name, spec: args.spec, bound: Some(bound) },
        ),
    }
}

/// The answer where the environment cannot be solved.
pub open spec fn unsolvable_lines(
    environment: Environment<Seq<char>>,
    platform: Seq<char>,
    printed: Seq<char>,
    explanation: Seq<char>,
) -> Seq<Seq<char>> {
    seq![
        "Cannot solve "@ + environment.shown + " for "@ + platform + " with "@ + printed + ":"@,
        explanation,
    ]
}

/// The answer where the environment can be solved.
pub open spec fn solvable_lines(
    environment: Environment<Seq<char>>,
    platform: Seq<char>,
    name: NameModel,
    printed: Seq<char>,
) -> Seq<Seq<char>> {
    seq![
        "Nothing prevents "@ + printed + " in "@ + environment.shown + " ("@ + platform
            + "); the lock is just stale. Run: pixi update "@ + name.source,
    ]
}

/// Whether `event` answers what a query at `stage` asks for.
pub open spec fn fits(stage: Stage<Seq<char>, NameModel>, event: Event<Seq<char>>) -> bool {
    match stage {
        Stage::Environment => event is Environment || event is NoEnvironment,
        Stage::Platform { .. } => event is Platform || event is NotResolved || event is NoPlatform,
        Stage::LockFile { .. } => event is LockFile || event is NoLockFile,
        Stage::Probe { .. } => event is Unsolvable || event is Solvable || event is NotProbed,
        Stage::Finished => false,
    }
}

/// The lower bound with which the spec is read when `event` arrives at `stage`:
/// only what is newer than the locked version will do.
pub open spec fn bound_at(
    stage: Stage<Seq<char>, NameModel>,
    event: Event<Seq<char>>,
) -> Option<NewerThan<Seq<char>>> {
    match (stage, event) {
        (
            Stage::LockFile { environment, platform, name },
            Event::LockFile { lock_file, platform: locked },
        ) => match lock_file::version_locked(
            lock_file,
            environment.name,
            locked,
            name.normalized,
        ) {
            Some(version) => Some(NewerThan { version }),
            None => None,
        },
        _ => None,
    }
}

/// Whether the spec is read when `event` arrives at `stage`.
pub open spec fn reads_at(stage: Stage<Seq<char>, NameModel>, event: Event<Seq<char>>) -> bool {
    ||| stage is Platform && event is Platform
    ||| bound_at(stage, event) is Some
}

/// The step that follows when `event` arrives, where `reading` is what reading
/// the spec gives if it is read.
pub open spec fn next_step(
    state: StateModel,
    event: Event<Seq<char>>,
    reading: Reading,
) -> StepModel {
    let args = state.args;
    match (state.stage, event) {
        (Stage::Environment, Event::Environment { environment }) => environment_found(
            args,
            environment,
        ),
        (Stage::Environment, Event::NoEnvironment { error }) => failing(
            args,
            Failure { message: "Environment not found"@, cause: Some(error), help: None },
        ),
        (Stage::Platform { environment }, Event::Platform { name }) => spec_known(
            args,
            environment,
            name,
            reading,
        ),
        (Stage::Platform { environment }, Event::NoPlatform) => failing(
            args,
            plain_failure(
                "no platform supported by environment '"@ + environment.name
                    + "' matches the current system"@,
            ),
        ),
        (Stage::Platform { .. }, Event::NotResolved { error }) => failing(
            args,
            plain_failure(error),
        ),
        (Stage::LockFile { environment, platform, name }, Event::LockFile { .. }) => match bound_at(
            state.stage,
            event,
        ) {
            Some(bound) => bound_known(args, environment, platform, name, bound, reading),
            None => failing(args, not_locked(environment, platform, name)),
        },
        (Stage::LockFile { .. }, Event::NoLockFile { error }) => failing(
            args,
            plain_failure(error),
        ),
        (
            Stage::Probe { environment, platform, name, printed },
            Event::Unsolvable { explanation },
        ) => answered(args, unsolvable_lines(environment, platform, printed, explanation)),
        (Stage::Probe { environment, platform, name, printed }, Event::Solvable) => answered(
            args,
            solvable_lines(environment, platform, name, printed),
        ),
        (Stage::Probe { .. }, Event::NotProbed { error }) => failing(args, plain_failure(error)),
        _ => failing(args, plain_failure(Seq::empty())),
    }
}

/// Starts a query.
pub fn execute(args: Args<String>) -> (r: Step)
    ensures
        r.deep_view() == started(args.deep_view()),
{
    let name = match &args.environment {
        Some(name) => Some(name.clone()),
        None => None,
    };
    let ghost wanted = args.deep_view();
    let r = wait(args, Stage::Environment, Action::FindEnvironment { name });
    assert(r.deep_view() == started(wanted));
    r
}

/// Asks for `action` and waits at `stage`.
fn wait(
    args: Args<String>,
    stage: Stage<String, PackageName>,
    action: Action<String, PackageName>,
) -> (r: Step)
    ensures
        r.deep_view() == waiting(args.deep_view(), stage.deep_view(), action.deep_view()),
{
    let r = Step { state: WhyNot { args, stage }, lines: Vec::new(), action };
    assert(r.lines.deep_view() =~= Seq::empty());
    r
}

/// Ends with `message` as the failure.
fn fail(args: Args<String>, message: String) -> (r: Step)
    ensures
        r.deep_view() == failing(args.deep_view(), plain_failure(message@)),
{
    wait(
        args,
        Stage::Finished,
        Action::Finish(Err(Failure { message, cause: None, help: None })),
    )
}

/// Prints `lines` and ends with success.
fn answer(args: Args<String>, lines: Vec<String>) -> (r: Step)
    ensures
        r.deep_view() == answered(args.deep_view(), lines.deep_view()),
{
    Step {
        state: WhyNot { args, stage: Stage::Finished },
        lines,
        action: Action::Finish(Ok(())),
    }
}

/// Goes on after the platform is found and the spec was read: a spec that does
/// not name one package is refused, and one that says nothing of the version
/// waits for the locked version.
pub fn know_spec(
    args: Args<String>,
    environment: Environment<String>,
    platform: String,
    reading: Result<Spec, String>,
) -> (r: Step)
    ensures
        r.deep_view() == spec_known(
            args.deep_view(),
            environment.deep_view(),
            platform@,
            match_spec::reading_view(reading),
        ),
{
    let spec = match reading {
        Err(message) => return fail(args, message),
        Ok(spec) => spec,
    };
    let name = match spec.name {
        None => {
            return fail(
                args,
                "`pixi why-not` needs a match spec that names one package".to_owned(),
            );
        },
        Some(name) => name,
    };
    if spec.has_version {
        let action = Action::Probe { name: name.clone(), spec: args.spec.clone(), bound: None };
        wait(args, Stage::Probe { environment, platform, name, printed: spec.printed }, action)
    } else {
        wait(args, Stage::LockFile { environment, platform, name }, Action::LoadLockFile)
    }
}

/// Goes on after the locked version is known and the spec was read with a lower
/// bound.
pub fn know_bound(
    args: Args<String>,
    environment: Environment<String>,
    platform: String,
    name: PackageName,
    bound: NewerThan<String>,
    reading: Result<Spec, String>,
) -> (r: Step)
    ensures
        r.deep_view() == bound_known(
            args.deep_view(),
            environment.deep_view(),
            platform@,
            name.deep_view(),
            bound.deep_view(),
            match_spec::reading_view(reading),
        ),
{
    match reading {
        Err(message) => fail(args, message),
        Ok(spec) => {
            let action = Action::Probe {
                name: name.clone(),
                spec: args.spec.clone(),
                bound: Some(bound),
            };
            wait(args, Stage::Probe { environment, platform, name, printed: spec.printed }, action)
        },
    }
}

/// Ends a query for a package that is not locked.
fn refuse_unlocked(
    args: Args<String>,
    environment: Environment<String>,
    platform: String,
    name: PackageName,
) -> (r: Step)
    ensures
        r.deep_view() == failing(
            args.deep_view(),
            not_locked(environment.deep_view(), platform@, name.deep_view()),
        ),
{
    let mut message = "'".to_owned();
    message.append(name.as_source());
    message.append("' is not locked for environment '");
    message.append(environment.name.as_str());
    message.append("' on '");
    message.append(platform.as_str());
    message.append("', so there is no version to compare against");
    let mut help = "try `pixi why-not '".to_owned();
    help.append(name.as_source());
    help.append(">=<version>'`");
    wait(
        args,
        Stage::Finished,
        Action::Finish(Err(Failure { message, cause: None, help: Some(help) })),
    )
}

/// Tells that the environment cannot be solved.
fn tell_unsolvable(
    args: Args<String>,
    environment: Environment<String>,
    platform: String,
    printed: String,
    explanation: String,
) -> (r: Step)
    ensures
        r.deep_view() == answered(
            args.deep_view(),
            unsolvable_lines(environment.deep_view(), platform@, printed@, explanation@),
        ),
{
    let mut head = "Cannot solve ".to_owned();
    head.append(environment.shown.as_str());
    head.append(" for ");
    head.append(platform.as_str());
    head.append(" with ");
    head.append(printed.as_str());
    head.append(":");
    let lines: Vec<String> = vec![head, explanation];
    assert(lines.deep_view() =~= unsolvable_lines(
        environment.deep_view(),
        platform@,
        printed@,
        explanation@,
    ));
    answer(args, lines)
}

/// Tells that the environment can be solved.
fn tell_solvable(
    args: Args<String>,
    environment: Environment<String>,
    platform: String,
    name: PackageName,
    printed: String,
) -> (r: Step)
    ensures
        r.deep_view() == answered(
            args.deep_view(),
            solvable_lines(environment.deep_view(), platform@, name.deep_view(), printed@),
        ),
{
    let mut line = "Nothing prevents ".to_owned();
    line.append(printed.as_str());
    line.append(" in ");
    line.append(environment.shown.as_str());
    line.append(" (");
    line.append(platform.as_str());
    line.append("); the lock is just stale. Run: pixi update ");
    line.append(name.as_source());
    let lines: Vec<String> = vec![line];
    assert(lines.deep_view() =~= solvable_lines(
        environment.deep_view(),
        platform@,
        name.deep_view(),
        printed@,
    ));
    answer(args, lines)
}

/// Takes a query on by one step, with what came of the work it asked for.
///
/// The spec is read where the platform has become known, and once more, with a
/// lower bound, where the locked version has. A channel in it that is a relative
/// path reads differently from one directory to another, so that of such a spec
/// only this is known: the step is the one that follows from what it reads as
/// in some directory. Any other spec that could be read without the bound can be
/// read with it, and is probed.
pub fn resume(state: WhyNot<String, PackageName>, event: Event<String>) -> (r: Step)
    requires
        fits(state.deep_view().stage, event.deep_view()),
    ensures
        exists|reading: Reading|
            {
                &&& r.deep_view() == #[trigger] next_step(
                    state.deep_view(),
                    event.deep_view(),
                    reading,
                )
                &&& reads_at(state.deep_view().stage, event.deep_view())
                    ==> match_spec::is_reading(
                    state.args.spec@,
                    bound_at(state.deep_view().stage, event.deep_view()),
                    reading,
                )
            },
        match_spec::is_plain(state.args.spec@) && match_spec::spec_reading(
            state.args.spec@,
            None,
            None,
            None,
        ) is Ok && bound_at(state.deep_view().stage, event.deep_view()) is Some
            ==> r.deep_view().action == (Action::Probe {
            name: state.deep_view().stage->LockFile_name,
            spec: state.args.spec@,
            bound: bound_at(state.deep_view().stage, event.deep_view()),
        }),
{
    let ghost before = state.deep_view();
    let ghost told = event.deep_view();
    let ghost mut used: Reading = Err(Seq::empty());
    let args = state.args;
    let r = match (state.stage, event) {
        (Stage::Environment, Event::Environment { environment }) => {
            let action = match &args.platform {
                Some(name) => Action::ResolvePlatform { name: name.clone() },
                None => Action::BestPlatform,
            };
            wait(args, Stage::Platform { environment }, action)
        },
        (Stage::Environment, Event::NoEnvironment { error }) => wait(
            args,
            Stage::Finished,
            Action::Finish(
                Err(
                    Failure {
                        message: "Environment not found".to_owned(),
                        cause: Some(error),
                        help: None,
                    },
                ),
            ),
        ),
        (Stage::Platform { environment }, Event::Platform { name }) => {
            let reading = read_spec(args.spec.as_str(), None);
            proof {
                used = match_spec::reading_view(reading);
            }
            know_spec(args, environment, name, reading)
        },
        (Stage::Platform { environment }, Event::NoPlatform) => {
            let mut message = "no platform supported by environment '".to_owned();
            message.append(environment.name.as_str());
            message.append("' matches the current system");
            fail(args, message)
        },
        (Stage::Platform { .. }, Event::NotResolved { error }) => fail(args, error),
        (
            Stage::LockFile { environment, platform, name },
            Event::LockFile { lock_file, platform: locked },
        ) => {
            match locked_version(&lock_file, environment.name.as_str(), &locked, &name) {
                Some(version) => {
                    let locked = version.as_text();
                    let reading = read_spec(args.spec.as_str(), Some(NewerThan { version: locked }));
                    proof {
                        used = match_spec::reading_view(reading);
                    }
                    let bound = NewerThan { version: locked.to_owned() };
                    know_bound(args, environment, platform, name, bound, reading)
                },
                None => refuse_unlocked(args, environment, platform, name),
            }
        },
        (Stage::LockFile { .. }, Event::NoLockFile { error }) => fail(args, error),
        (
            Stage::Probe { environment, platform, name, printed },
            Event::Unsolvable { explanation },
        ) => tell_unsolvable(args, environment, platform, printed, explanation),
        (Stage::Probe { environment, platform, name, printed }, Event::Solvable) => tell_solvable(
            args,
            environment,
            platform,
            name,
            printed,
        ),
        (Stage::Probe { .. }, Event::NotProbed { error }) => fail(args, error),
        _ => fail(args, String::new()),
    };
    assert(r.deep_view() == next_step(before, told, used));
    assert(reads_at(before.stage, told) ==> match_spec::is_reading(
        before.args.spec,
        bound_at(before.stage, told),
        used,
    ));
    proof {
        if match_spec::is_plain(before.args.spec) && bound_at(before.stage, told) is Some {
            assert(match_spec::is_reading_at(
                before.args.spec,
                bound_at(before.stage, told),
                used,
                None,
                None,
            ));
        }
    }
    r
}

} // verus!
