//! What holds of every query, whatever is answered to its requests.

use vstd::prelude::*;

use crate::lock_file;
use crate::match_spec;
use crate::match_spec::{NewerThan, Reading};
use crate::package::NameModel;
use crate::text;
use crate::text_laws;
use crate::why_not;
use crate::why_not::{Action, Args, Environment, Event, Stage, StateModel, StepModel};

verus! {

/// An event, with what reading the spec gives when it arrives.
pub type Reply = (Event<Seq<char>>, Reading);

/// The step that a query has reached after `replies`.
pub open spec fn run(args: Args<Seq<char>>, replies: Seq<Reply>) -> StepModel
    decreases replies.len(),
{
    if replies.len() == 0 {
        why_not::started(args)
    } else {
        let (event, reading) = replies.last();
        why_not::next_step(run(args, replies.drop_last()).state, event, reading)
    }
}

/// Whether each of `replies` answers the request that was made before it.
pub open spec fn is_run(args: Args<Seq<char>>, replies: Seq<Reply>) -> bool
    decreases replies.len(),
{
    replies.len() > 0 ==> {
        &&& is_run(args, replies.drop_last())
        &&& why_not::fits(run(args, replies.drop_last()).state.stage, replies.last().0)
    }
}

/// How many more replies a query can ask for at `stage`, at most.
pub open spec fn replies_left(stage: Stage<Seq<char>, NameModel>) -> nat {
    match stage {
        Stage::Environment => 4,
        Stage::Platform { .. } => 3,
        Stage::LockFile { .. } => 2,
        Stage::Probe { .. } => 1,
        Stage::Finished => 0,
    }
}

/// A query asks for at most four replies, keeps its arguments, and is over
/// exactly if it asks for nothing more.
pub proof fn a_query_ends(args: Args<Seq<char>>, replies: Seq<Reply>)
    requires
        is_run(args, replies),
    ensures
        replies.len() + replies_left(run(args, replies).state.stage) <= 4,
        run(args, replies).state.args == args,
        run(args, replies).state.stage is Finished <==> run(args, replies).action is Finish,
    decreases replies.len(),
{
    if replies.len() > 0 {
        a_query_ends(args, replies.drop_last());
    }
}

/// A query prints something exactly if it ends with success: what it prints is
/// its answer.
pub proof fn only_an_answer_is_printed(args: Args<Seq<char>>, replies: Seq<Reply>)
    requires
        is_run(args, replies),
    ensures
        run(args, replies).lines.len() > 0 <==> run(args, replies).action == Action::<
            Seq<char>,
            NameModel,
        >::Finish(Ok(())),
{
    if replies.len() > 0 {
        a_query_ends(args, replies.drop_last());
    }
}

/// A spec that cannot be read, or that does not name one package, ends a query
/// with a failure before anything is read or solved.
pub proof fn a_vague_spec_is_refused(state: StateModel, event: Event<Seq<char>>, reading: Reading)
    requires
        state.stage is Platform,
        event is Platform,
        reading is Err || reading->Ok_0.name is None,
    ensures
        why_not::next_step(state, event, reading).action matches Action::Finish(Err(failure))
            && failure.message == match reading {
            Err(message) => message,
            Ok(_) => "`pixi why-not` needs a match spec that names one package"@,
        },
{
}

/// Whether a query that got `reply` while it waited at `before` is about this
/// environment and this platform.
pub open spec fn is_about(
    before: Stage<Seq<char>, NameModel>,
    reply: Reply,
    environment: Environment<Seq<char>>,
    platform: Seq<char>,
) -> bool {
    match before {
        Stage::Platform { environment: found } => {
            &&& environment == found
            &&& reply.0 matches Event::Platform { name }
            &&& platform == name
        },
        Stage::LockFile { environment: found, platform: chosen, .. } => {
            &&& environment == found
            &&& platform == chosen
        },
        _ => false,
    }
}

/// What is known of a query that waits for the lock file or for the outcome of
/// a solve, when `reply` is what it got last: it is about the environment and
/// the platform that were found, and about the package that its spec names. A
/// spec without a version is probed for what is newer than the version that is
/// locked for that package, and a spec with a version is probed as it is.
pub open spec fn probe_is_sound(before: StateModel, reply: Reply, step: StepModel) -> bool {
    match step.action {
        Action::LoadLockFile => {
            &&& before.stage is Platform
            &&& reply.1 matches Ok(spec)
            &&& !spec.has_version
            &&& step.state.stage matches Stage::LockFile { environment, platform, name }
            &&& is_about(before.stage, reply, environment, platform)
            &&& spec.name == Some(name)
        },
        Action::Probe { name, spec: given, bound } => {
            &&& given == before.args.spec
            &&& step.state.stage matches Stage::Probe {
                environment,
                platform,
                name: waiting,
                printed,
            }
            &&& is_about(before.stage, reply, environment, platform)
            &&& name == waiting
            &&& reply.1 matches Ok(spec)
            &&& printed == spec.printed
            &&& match bound {
                None => before.stage is Platform && spec.has_version && spec.name == Some(name),
                Some(NewerThan { version }) => match (before.stage, reply.0) {
                    (
                        Stage::LockFile { name: asked, .. },
                        Event::LockFile { lock_file, platform: locked },
                    ) => {
                        &&& asked == name
                        &&& lock_file::version_locked(
                            lock_file,
                            environment.name,
                            locked,
                            name.normalized,
                        ) == Some(version)
                    },
                    _ => false,
                },
            }
        },
        _ => true,
    }
}

/// Every solve that a query asks for is about the package that its spec names,
/// and is bounded by the locked version exactly if the spec says nothing of the
/// version.
pub proof fn every_probe_is_sound(args: Args<Seq<char>>, replies: Seq<Reply>)
    requires
        is_run(args, replies),
        replies.len() > 0,
    ensures
        probe_is_sound(
            run(args, replies.drop_last()).state,
            replies.last(),
            run(args, replies),
        ),
{
    a_query_ends(args, replies.drop_last());
}

/// Whether each of `replies` comes with what the spec of `args` reads as, where
/// the spec is read when it arrives.
pub open spec fn are_true_readings(args: Args<Seq<char>>, replies: Seq<Reply>) -> bool
    decreases replies.len(),
{
    replies.len() > 0 ==> {
        let stage = run(args, replies.drop_last()).state.stage;
        let (event, reading) = replies.last();
        &&& are_true_readings(args, replies.drop_last())
        &&& why_not::reads_at(stage, event) ==> match_spec::is_reading(
            args.spec,
            why_not::bound_at(stage, event),
            reading,
        )
    }
}

/// A spec that names one package, reads the same everywhere and says nothing of
/// the version is probed for what is newer than the version that is locked for
/// that package: once the locked version is known, nothing comes in between.
pub proof fn a_locked_package_is_probed(
    args: Args<Seq<char>>,
    replies: Seq<Reply>,
    name: NameModel,
    version: Seq<char>,
)
    requires
        is_run(args, replies),
        are_true_readings(args, replies),
        match_spec::is_plain(args.spec),
        replies.len() > 0,
        run(args, replies.drop_last()).state.stage matches Stage::LockFile { name: asked, .. }
            && asked == name,
        why_not::bound_at(
            run(args, replies.drop_last()).state.stage,
            replies.last().0,
        ) == Some(NewerThan { version }),
    ensures
        run(args, replies).action == (Action::Probe {
            name,
            spec: args.spec,
            bound: Some(NewerThan { version }),
        }),
        match_spec::spec_reading(args.spec, None, None, None) matches Ok(spec) && spec.name
            == Some(name) && !spec.has_version,
        ({
            let bound = Some(NewerThan { version });
            &&& match_spec::spec_reading(args.spec, bound, None, None) matches Ok(spec)
            &&& spec.name == Some(name)
            &&& run(args, replies).state.stage matches Stage::Probe { printed, .. }
            &&& printed == spec.printed
        }),
{
    reveal_with_fuel(is_run, 2);
    reveal_with_fuel(are_true_readings, 2);
    let before = replies.drop_last();
    a_query_ends(args, before);
    assert(before.len() > 0);
    a_query_ends(args, before.drop_last());
    let earlier = run(args, before.drop_last()).state.stage;
    let first = before.last().1;
    assert(earlier is Platform && before.last().0 is Platform);
    assert(match_spec::is_reading(args.spec, None, first));
    assert(match_spec::is_reading_at(args.spec, None, first, None, None));
    let second = replies.last().1;
    let bound = Some(NewerThan { version });
    assert(match_spec::is_reading(args.spec, bound, second));
    assert(match_spec::is_reading_at(args.spec, bound, second, None, None));
}

/// A query whose solve came to an end is answered, whether the environment can
/// be solved or not.
pub proof fn a_solve_is_answered(state: StateModel, event: Event<Seq<char>>, reading: Reading)
    requires
        state.stage is Probe,
        event is Solvable || event is Unsolvable,
    ensures
        why_not::next_step(state, event, reading).action == Action::<Seq<char>, NameModel>::Finish(
            Ok(()),
        ),
{
}

/// A spec that names one package is never refused once the platform is found:
/// with a version it is probed as it is, and without one the lock file is read.
pub proof fn a_named_package_is_looked_into(
    state: StateModel,
    event: Event<Seq<char>>,
    reading: Reading,
    name: NameModel,
)
    requires
        state.stage is Platform,
        event is Platform,
        reading matches Ok(spec) && spec.name == Some(name),
    ensures
        why_not::next_step(state, event, reading).action == if reading->Ok_0.has_version {
            Action::Probe { name, spec: state.args.spec, bound: None }
        } else {
            Action::LoadLockFile
        },
{
}

/// A package that is not locked ends a query with a failure that names it, the
/// environment and the platform, and with a hint to give a version.
pub proof fn an_unlocked_package_is_refused(
    state: StateModel,
    event: Event<Seq<char>>,
    reading: Reading,
)
    requires
        state.stage is LockFile,
        event is LockFile,
        why_not::bound_at(state.stage, event) is None,
    ensures
        ({
            &&& state.stage matches Stage::LockFile { environment, platform, name }
            &&& why_not::next_step(state, event, reading).action matches Action::Finish(
                Err(failure),
            )
            &&& failure.message == "'"@ + name.source + "' is not locked for environment '"@
                + environment.name + "' on '"@ + platform
                + "', so there is no version to compare against"@
            &&& failure.help == Some("try `pixi why-not '"@ + name.source + ">=<version>'`"@)
        }),
{
}

/// The environment and the platform that are asked for are those of the
/// arguments; what suits best is asked for only where they are silent.
pub proof fn requests_follow_the_arguments(args: Args<Seq<char>>, replies: Seq<Reply>)
    requires
        is_run(args, replies),
    ensures
        ({
            let step = run(args, replies);
            &&& step.action matches Action::FindEnvironment { name } ==> name == args.environment
            &&& step.action matches Action::ResolvePlatform { name } ==> args.platform == Some(
                name,
            )
            &&& step.action is BestPlatform ==> args.platform is None
            &&& step.action is FindEnvironment <==> step.state.stage is Environment
            &&& step.action is ResolvePlatform || step.action is BestPlatform
                <==> step.state.stage is Platform
            &&& step.action is LoadLockFile <==> step.state.stage is LockFile
            &&& step.action is Probe <==> step.state.stage is Probe
            &&& replies.len() == 0 <==> step.action is FindEnvironment
        }),
{
    if replies.len() > 0 {
        a_query_ends(args, replies.drop_last());
    }
}

/// The environment that a query at `stage` is about, where it has found one.
pub open spec fn environment_at(stage: Stage<Seq<char>, NameModel>) -> Option<
    Environment<Seq<char>>,
> {
    match stage {
        Stage::Platform { environment } => Some(environment),
        Stage::LockFile { environment, .. } => Some(environment),
        Stage::Probe { environment, .. } => Some(environment),
        _ => None,
    }
}

/// The platform that a query at `stage` is about, where it has found one.
pub open spec fn platform_at(stage: Stage<Seq<char>, NameModel>) -> Option<Seq<char>> {
    match stage {
        Stage::LockFile { platform, .. } => Some(platform),
        Stage::Probe { platform, .. } => Some(platform),
        _ => None,
    }
}

/// A query stays with the environment that was found for it first, and with the
/// platform that was found for it next.
pub proof fn a_query_stays_with_what_was_found(args: Args<Seq<char>>, replies: Seq<Reply>)
    requires
        is_run(args, replies),
    ensures
        environment_at(run(args, replies).state.stage) matches Some(environment) ==> {
            &&& replies.len() > 0
            &&& replies[0].0 == Event::Environment { environment }
        },
        platform_at(run(args, replies).state.stage) matches Some(platform) ==> {
            &&& replies.len() > 1
            &&& replies[1].0 == Event::Platform { name: platform }
        },
        run(args, replies).state.stage is Platform ==> replies.len() == 1,
    decreases replies.len(),
{
    if replies.len() > 0 {
        let fewer = replies.drop_last();
        a_query_stays_with_what_was_found(args, fewer);
        a_query_ends(args, fewer);
        requests_follow_the_arguments(args, fewer);
        assert(fewer.len() == 0 ==> replies.last() == replies[0]);
        if fewer.len() > 0 {
            assert(fewer[0] == replies[0]);
        }
        if fewer.len() > 1 {
            assert(fewer[1] == replies[1]);
        }
    }
}

/// The answer names the environment, the platform and the spec as it was probed.
/// Where nothing solves, the explanation follows; where something does, the
/// answer ends with the command that updates the package.
pub proof fn the_answer_tells_what_was_probed(
    state: StateModel,
    reading: Reading,
    explanation: Seq<char>,
)
    requires
        state.stage is Probe,
    ensures
        ({
            let no = why_not::next_step(state, Event::Unsolvable { explanation }, reading).lines;
            let yes = why_not::next_step(state, Event::Solvable, reading).lines;
            state.stage matches Stage::Probe { environment, platform, name, printed } && ({
                &&& no.len() == 2
                &&& no[1] == explanation
                &&& "Cannot solve "@.is_prefix_of(no[0])
                &&& text::contains_text(no[0], environment.shown + " for "@ + platform)
                &&& text::contains_text(no[0], " with "@ + printed)
                &&& yes.len() == 1
                &&& ("Nothing prevents "@ + printed).is_prefix_of(yes[0])
                &&& text::contains_text(yes[0], environment.shown + " ("@ + platform + ")"@)
                &&& ("pixi update "@ + name.source).is_suffix_of(yes[0])
            })
        }),
{
    if let Stage::Probe { environment, platform, name, printed } = state.stage {
        let no = why_not::next_step(state, Event::Unsolvable { explanation }, reading).lines;
        let place = environment.shown + " for "@ + platform;
        let rest = " with "@ + printed + ":"@;
        assert(no[0] =~= "Cannot solve "@ + place + rest);
        text_laws::ends_stand_in_the_text("Cannot solve "@, place, rest);
        assert(no[0].subrange(0, "Cannot solve "@.len() as int) =~= "Cannot solve "@);
        let head = "Cannot solve "@ + place;
        let with = " with "@ + printed;
        assert(no[0] =~= head + with + ":"@);
        text_laws::ends_stand_in_the_text(head, with, ":"@);
        let yes = why_not::next_step(state, Event::Solvable, reading).lines;
        reveal_strlit("); the lock is just stale. Run: pixi update ");
        reveal_strlit("pixi update ");
        reveal_strlit(")");
        let middle = "); the lock is just stale. Run: pixi update "@;
        let start = "Nothing prevents "@ + printed;
        assert(yes[0].subrange(0, start.len() as int) =~= start);
        let shown = environment.shown + " ("@ + platform + ")"@;
        let end = middle.skip(1) + name.source;
        assert(yes[0] =~= (start + " in "@) + shown + end);
        text_laws::ends_stand_in_the_text(start + " in "@, shown, end);
        let command = "pixi update "@ + name.source;
        assert(yes[0].subrange(yes[0].len() - command.len(), yes[0].len() as int) =~= command);
    }
}

/// What went wrong is passed on as it was told: as the reason behind the failure
/// where there is no environment, and as the failure otherwise. Where no platform
/// suits, the failure names the environment.
pub proof fn failures_are_passed_on(
    state: StateModel,
    event: Event<Seq<char>>,
    reading: Reading,
)
    requires
        why_not::fits(state.stage, event),
    ensures
        ({
            let step = why_not::next_step(state, event, reading);
            &&& event matches Event::NoEnvironment { error } ==> (
            step.action matches Action::Finish(Err(failure)) && failure.cause == Some(error)
                && failure.message == "Environment not found"@ && failure.help is None)
            &&& event matches Event::NotResolved { error } ==> (
            step.action matches Action::Finish(Err(failure)) && failure.message == error
                && failure.cause is None && failure.help is None)
            &&& event matches Event::NoLockFile { error } ==> (
            step.action matches Action::Finish(Err(failure)) && failure.message == error
                && failure.cause is None && failure.help is None)
            &&& event matches Event::NotProbed { error } ==> (
            step.action matches Action::Finish(Err(failure)) && failure.message == error
                && failure.cause is None && failure.help is None)
            &&& event is NoPlatform ==> (step.action matches Action::Finish(Err(failure))
                && text::contains_text(
                failure.message,
                "'"@ + environment_at(state.stage)->0.name + "'"@,
            ))
        }),
{
    if let Stage::Platform { environment } = state.stage {
        if event is NoPlatform {
            reveal_strlit("no platform supported by environment '");
            reveal_strlit("' matches the current system");
            reveal_strlit("'");
            let head = "no platform supported by environment '"@;
            let tail = "' matches the current system"@;
            let quoted = "'"@ + environment.name + "'"@;
            assert(head + environment.name + tail =~= head.drop_last() + quoted + tail.skip(1));
            text_laws::ends_stand_in_the_text(head.drop_last(), quoted, tail.skip(1));
        }
    }
}

/// Where a version is locked for the package in that environment, on what the
/// lock file calls the platform, it is the bound of the solve; where none is,
/// nothing is solved.
pub proof fn the_locked_version_is_the_bound(
    state: StateModel,
    environment: Environment<Seq<char>>,
    platform: Seq<char>,
    name: NameModel,
    lock_file: lock_file::LockFile,
    locked: Option<Seq<char>>,
    reading: Reading,
)
    requires
        state.stage == (Stage::LockFile { environment, platform, name }),
    ensures
        ({
            let step = why_not::next_step(
                state,
                Event::LockFile { lock_file, platform: locked },
                reading,
            );
            let found = lock_file::version_locked(
                lock_file,
                environment.name,
                locked,
                name.normalized,
            );
            &&& found is None ==> (step.action matches Action::Finish(Err(_)))
            &&& found is Some && reading is Ok ==> step.action == Action::Probe {
                name,
                spec: state.args.spec,
                bound: Some(NewerThan { version: found->0 }),
            }
            &&& found is Some ==> (reading matches Err(message) ==> (
            step.action matches Action::Finish(Err(failure)) && failure.message == message))
        }),
{
}

/// What the spec reads as counts only when the platform is found, and when a
/// version is locked.
pub proof fn readings_count_where_the_spec_is_read(
    state: StateModel,
    event: Event<Seq<char>>,
    one: Reading,
    other: Reading,
)
    requires
        !(state.stage is Platform && event is Platform),
        !(state.stage is LockFile && event is LockFile),
    ensures
        why_not::next_step(state, event, one) == why_not::next_step(state, event, other),
        !why_not::reads_at(state.stage, event),
{
}

/// An event fits where it answers what was asked for.
pub proof fn replies_fit_their_requests(
    args: Args<Seq<char>>,
    replies: Seq<Reply>,
    event: Event<Seq<char>>,
)
    requires
        is_run(args, replies),
    ensures
        why_not::fits(run(args, replies).state.stage, event) <==> match run(
            args,
            replies,
        ).action {
            Action::FindEnvironment { .. } => event is Environment || event is NoEnvironment,
            Action::ResolvePlatform { .. } => event is Platform || event is NotResolved
                || event is NoPlatform,
            Action::BestPlatform => event is Platform || event is NotResolved
                || event is NoPlatform,
            Action::LoadLockFile => event is LockFile || event is NoLockFile,
            Action::Probe { .. } => event is Unsolvable || event is Solvable || event is NotProbed,
            Action::Finish(_) => false,
        },
{
    requests_follow_the_arguments(args, replies);
    a_query_ends(args, replies);
}

} // verus!
