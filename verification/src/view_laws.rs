//! What contracts see of a value is what the value holds: nothing is left out,
//! and nothing is mixed up.

use vstd::prelude::*;

use crate::azure::{AzureOptions, TomlError};
use crate::install_reporter;
use crate::install_reporter::{Operation, PackageWithSize, Record};
use crate::match_spec::{NewerThan, Spec};
use crate::package::PackageName;
use crate::release::{LatestReply, Message, NotesReply, Release};
use crate::self_update;
use crate::self_update::{ArchiveReply, SelfUpdate, Setting};
use crate::sync_reporter::{BuildProgress, FailedBuild, LogFile, OutputPlan};
use crate::text;
use crate::version::Version;
use crate::why_not;
use crate::why_not::WhyNot;

verus! {

/// Each string of a list is seen in its place.
pub proof fn lists_of_strings_are_seen(parts: Seq<String>, i: int)
    requires
        0 <= i < parts.len(),
    ensures
        text::views(parts).len() == parts.len(),
        text::views(parts)[i] == parts[i]@,
{
}

/// A text and a refusal are told apart.
pub proof fn results_are_seen(result: Result<String, String>, text: Seq<char>)
    ensures
        text::result_view(result) == Ok::<Seq<char>, Seq<char>>(text) <==> (
        result matches Ok(inner) && inner@ == text),
        text::result_view(result) == Err::<Seq<char>, Seq<char>>(text) <==> (
        result matches Err(inner) && inner@ == text),
{
}

/// Operations, their records and the packages that are queued for them.
pub proof fn operations_are_seen(
    operation: Operation<String>,
    record: Record<String>,
    package: PackageWithSize,
)
    ensures
        record.deep_view().name == record.name@,
        record.deep_view().size == record.size,
        operation.install is Some <==> operation.deep_view().install is Some,
        operation.remove is Some <==> operation.deep_view().remove is Some,
        operation.install matches Some(installed) ==> operation.deep_view().install == Some(
            installed.deep_view(),
        ),
        operation.remove matches Some(removed) ==> operation.deep_view().remove == Some(
            removed.deep_view(),
        ),
        package.deep_view().name == package.name@,
        package.deep_view().size == package.size,
{
}

/// Requests for places.
pub proof fn requests_are_seen(request: install_reporter::Request<PackageWithSize>)
    ensures
        request matches install_reporter::Request::Queue { package } ==> (
        request.deep_view() matches install_reporter::Request::Queue { package: seen } && seen
            == package.deep_view()),
        request matches install_reporter::Request::StartEntry { operation } ==> (
        request.deep_view() matches install_reporter::Request::StartEntry { operation: seen }
            && seen == operation),
{
}

/// Builds, their output, failures and logs.
pub proof fn builds_are_seen(
    build: BuildProgress<String>,
    plan: OutputPlan<String>,
    failure: FailedBuild<String>,
    log: LogFile<String>,
)
    ensures
        build.deep_view().bar == build.bar,
        build.deep_view().package == build.package@,
        build.deep_view().output == build.output,
        plan matches OutputPlan::Stream { package } ==> (
        plan.deep_view() matches OutputPlan::Stream { package: seen } && seen == package@),
        plan is Buffer <==> plan.deep_view() is Buffer,
        failure.deep_view().package == failure.package@,
        failure.deep_view().shown == failure.shown,
        log.deep_view().dir == log.dir@,
        log.deep_view().name == log.name@,
        log.deep_view().contents == log.contents@,
{
}

/// Where releases are published, and what came back from there.
pub proof fn releases_are_seen(
    release: Release<String>,
    latest: LatestReply<String>,
    notes: NotesReply<String>,
)
    ensures
        release.deep_view().pixi_version == release.pixi_version@,
        release.deep_view().releases_url == release.releases_url@,
        release.deep_view().releases_api_by_tag == release.releases_api_by_tag@,
        release.deep_view().releases_api_latest == release.releases_api_latest@,
        release.deep_view().release_tag_prefix == release.release_tag_prefix@,
        latest matches LatestReply::Failed { error } ==> (
        latest.deep_view() matches LatestReply::Failed { error: seen } && seen == error@),
        latest matches LatestReply::NotRedirected { status } ==> (
        latest.deep_view() matches LatestReply::NotRedirected { status: seen } && seen == status@),
        latest is NoLocation <==> latest.deep_view() is NoLocation,
        latest matches LatestReply::UnreadableLocation { error } ==> (
        latest.deep_view() matches LatestReply::UnreadableLocation { error: seen } && seen
            == error@),
        latest matches LatestReply::Redirected { location } ==> (
        latest.deep_view() matches LatestReply::Redirected { location: seen } && seen
            == location@),
        notes matches NotesReply::Failed { error } ==> (
        notes.deep_view() matches NotesReply::Failed { error: seen } && seen == error@),
        notes matches NotesReply::Refused { status } ==> (
        notes.deep_view() matches NotesReply::Refused { status: seen } && seen == status@),
        notes matches NotesReply::Described { body, published_at, tag_name } ==> (
        notes.deep_view() matches NotesReply::Described {
            body: text,
            published_at: date,
            tag_name: tag,
        } && text == body@ && date == published_at@ && tag == tag_name@),
{
}

/// What is shown to users.
pub proof fn messages_are_seen(message: Message<String>)
    ensures
        message matches Message::Status { icon, text } ==> (
        message.deep_view() matches Message::Status { icon: mark, text: seen } && mark == icon
            && seen == text@),
        message matches Message::ReleaseNotes { text } ==> (
        message.deep_view() matches Message::ReleaseNotes { text: seen } && seen == text@),
        message matches Message::Logged { icon, text } ==> (
        message.deep_view() matches Message::Logged { icon: mark, text: seen } && mark == icon
            && seen == text@),
{
}

/// What an update is told to do.
pub proof fn settings_are_seen(
    setting: Setting<String, Version>,
    state: SelfUpdate<String, Version>,
)
    ensures
        ({
            let args = setting.args;
            let seen = setting.deep_view().args;
            &&& seen.offline == args.offline
            &&& seen.dry_run == args.dry_run
            &&& seen.force == args.force
            &&& seen.no_release_note == args.no_release_note
            &&& seen.version is Some <==> args.version is Some
            &&& args.version matches Some(version) ==> seen.version == Some(version@)
            &&& seen.from_url is Some <==> args.from_url is Some
            &&& args.from_url matches Some(url) ==> seen.from_url == Some(url@)
        }),
        setting.deep_view().quiet == setting.quiet,
        setting.deep_view().asset == text::result_view(setting.asset),
        setting.deep_view().release == setting.release.deep_view(),
        state.deep_view().setting == state.setting.deep_view(),
        state.deep_view().stage == state.stage.deep_view(),
{
}

/// What an update waits for.
pub proof fn update_stages_are_seen(stage: self_update::Stage<String, Version>)
    ensures
        stage is Offline <==> stage.deep_view() is Offline,
        stage is Latest <==> stage.deep_view() is Latest,
        stage is Finished <==> stage.deep_view() is Finished,
        stage matches self_update::Stage::Notes { target, current } ==> (
        stage.deep_view() matches self_update::Stage::Notes { target: aim, current: now } && aim
            == target.deep_view() && now == current@),
        stage matches self_update::Stage::DryRunLatest { current } ==> (
        stage.deep_view() matches self_update::Stage::DryRunLatest { current: now } && now
            == current@),
        stage matches self_update::Stage::Consent { target, current, warning } ==> (
        stage.deep_view() matches self_update::Stage::Consent {
            target: aim,
            current: now,
            warning: told,
        } && aim == target@ && now == current@ && told == warning.deep_view()),
        stage matches self_update::Stage::Archive { target, warning, url } ==> (
        stage.deep_view() matches self_update::Stage::Archive {
            target: aim,
            warning: told,
            url: address,
        } && aim == target.deep_view() && told == warning.deep_view() && address == url@),
        stage matches self_update::Stage::Replacement { target, warning } ==> (
        stage.deep_view() matches self_update::Stage::Replacement { target: aim, warning: told }
            && aim == target.deep_view() && told == warning.deep_view()),
{
}

/// What an update asks for.
pub proof fn update_actions_are_seen(action: self_update::Action<String, Vec<u8>>)
    ensures
        action is LoadOfflineSetting <==> action.deep_view() is LoadOfflineSetting,
        action matches self_update::Action::FetchLatest { url } ==> (
        action.deep_view() matches self_update::Action::FetchLatest { url: seen } && seen == url@),
        action matches self_update::Action::FetchReleaseNotes { url } ==> (
        action.deep_view() matches self_update::Action::FetchReleaseNotes { url: seen } && seen
            == url@),
        action matches self_update::Action::Confirm { prompt } ==> (
        action.deep_view() matches self_update::Action::Confirm { prompt: seen } && seen
            == prompt@),
        action matches self_update::Action::Download { url } ==> (
        action.deep_view() matches self_update::Action::Download { url: seen } && seen == url@),
        action matches self_update::Action::ReplaceBinary { binary } ==> (
        action.deep_view() matches self_update::Action::ReplaceBinary { binary: seen } && seen
            == binary@),
        action matches self_update::Action::Finish(Ok(_)) <==> (
        action.deep_view() matches self_update::Action::Finish(Ok(_))),
        action matches self_update::Action::Finish(
            Err(self_update::UpdateError::Failed { message }),
        ) ==> (action.deep_view() matches self_update::Action::Finish(
            Err(self_update::UpdateError::Failed { message: seen }),
        ) && seen == message@),
        action matches self_update::Action::Finish(
            Err(self_update::UpdateError::NetworkRequired { command }),
        ) ==> (action.deep_view() matches self_update::Action::Finish(
            Err(self_update::UpdateError::NetworkRequired { command: seen }),
        ) && seen == command@),
{
}

/// What an update is answered.
pub proof fn update_events_are_seen(event: self_update::Event<String, Vec<u8>>)
    ensures
        event matches self_update::Event::OfflineSetting { offline } ==> (
        event.deep_view() matches self_update::Event::OfflineSetting { offline: seen } && seen
            == offline),
        event matches self_update::Event::Latest { reply } ==> (
        event.deep_view() matches self_update::Event::Latest { reply: seen } && seen
            == reply.deep_view()),
        event matches self_update::Event::Notes { reply } ==> (
        event.deep_view() matches self_update::Event::Notes { reply: seen } && seen
            == reply.deep_view()),
        event matches self_update::Event::Answered { consent } ==> (
        event.deep_view() matches self_update::Event::Answered { consent: seen } && seen
            == consent),
        event matches self_update::Event::NotAnswered { error } ==> (
        event.deep_view() matches self_update::Event::NotAnswered { error: seen } && seen
            == error@),
        event is Replaced <==> event.deep_view() is Replaced,
        event matches self_update::Event::NotReplaced { error } ==> (
        event.deep_view() matches self_update::Event::NotReplaced { error: seen } && seen
            == error@),
        event matches self_update::Event::Archive { reply: ArchiveReply::Refused { status } } ==> (
        event.deep_view() matches self_update::Event::Archive {
            reply: ArchiveReply::Refused { status: seen },
        } && seen == status@),
        event matches self_update::Event::Archive { reply: ArchiveReply::Failed { error } } ==> (
        event.deep_view() matches self_update::Event::Archive {
            reply: ArchiveReply::Failed { error: seen },
        } && seen == error@),
        event matches self_update::Event::Archive { reply: ArchiveReply::Received { data } } ==> (
        event.deep_view() matches self_update::Event::Archive {
            reply: ArchiveReply::Received { data: seen },
        } && seen == data@),
{
}

/// Steps of updates and queries: their state, what they show, and what they ask
/// for.
pub proof fn steps_are_seen(update: self_update::Step, query: why_not::Step, i: int)
    ensures
        update.deep_view().state == update.state.deep_view(),
        update.deep_view().action == update.action.deep_view(),
        update.deep_view().messages.len() == update.messages@.len(),
        0 <= i < update.messages@.len() ==> update.deep_view().messages[i]
            == update.messages@[i].deep_view(),
        query.deep_view().state == query.state.deep_view(),
        query.deep_view().action == query.action.deep_view(),
        query.deep_view().lines.len() == query.lines@.len(),
        0 <= i < query.lines@.len() ==> query.deep_view().lines[i] == query.lines@[i]@,
{
}

/// Queries and the environments that they are about.
pub proof fn queries_are_seen(
    query: WhyNot<String, PackageName>,
    environment: why_not::Environment<String>,
)
    ensures
        query.deep_view().args.spec == query.args.spec@,
        query.deep_view().args.platform is Some <==> query.args.platform is Some,
        query.args.platform matches Some(platform) ==> query.deep_view().args.platform == Some(
            platform@,
        ),
        query.deep_view().args.environment is Some <==> query.args.environment is Some,
        query.args.environment matches Some(name) ==> query.deep_view().args.environment == Some(
            name@,
        ),
        query.deep_view().stage == query.stage.deep_view(),
        environment.deep_view().name == environment.name@,
        environment.deep_view().shown == environment.shown@,
{
}

/// What a query waits for.
pub proof fn query_stages_are_seen(stage: why_not::Stage<String, PackageName>)
    ensures
        stage is Environment <==> stage.deep_view() is Environment,
        stage is Finished <==> stage.deep_view() is Finished,
        stage matches why_not::Stage::Platform { environment } ==> (
        stage.deep_view() matches why_not::Stage::Platform { environment: place } && place
            == environment.deep_view()),
        stage matches why_not::Stage::LockFile { environment, platform, name } ==> (
        stage.deep_view() matches why_not::Stage::LockFile {
            environment: place,
            platform: system,
            name: package,
        } && place == environment.deep_view() && system == platform@ && package
            == name.deep_view()),
        stage matches why_not::Stage::Probe { environment, platform, name, printed } ==> (
        stage.deep_view() matches why_not::Stage::Probe {
            environment: place,
            platform: system,
            name: package,
            printed: spec,
        } && place == environment.deep_view() && system == platform@ && package == name.deep_view()
            && spec == printed@),
{
}

/// What a query asks for.
pub proof fn query_actions_are_seen(action: why_not::Action<String, PackageName>)
    ensures
        action matches why_not::Action::FindEnvironment { name } ==> (
        action.deep_view() matches why_not::Action::FindEnvironment { name: seen } && seen
            == name.deep_view()),
        action matches why_not::Action::ResolvePlatform { name } ==> (
        action.deep_view() matches why_not::Action::ResolvePlatform { name: seen } && seen
            == name@),
        action is BestPlatform <==> action.deep_view() is BestPlatform,
        action is LoadLockFile <==> action.deep_view() is LoadLockFile,
        action matches why_not::Action::Probe { name, spec, bound } ==> (
        action.deep_view() matches why_not::Action::Probe {
            name: package,
            spec: text,
            bound: demand,
        } && package == name.deep_view() && text == spec@ && demand == bound.deep_view()),
        action matches why_not::Action::Finish(Ok(_)) <==> (
        action.deep_view() matches why_not::Action::Finish(Ok(_))),
        action matches why_not::Action::Finish(Err(failure)) ==> (
        action.deep_view() matches why_not::Action::Finish(Err(seen)) && seen.message
            == failure.message@ && seen.cause == failure.cause.deep_view() && seen.help
            == failure.help.deep_view()),
{
}

/// What a query is answered.
pub proof fn query_events_are_seen(event: why_not::Event<String>)
    ensures
        event matches why_not::Event::Environment { environment } ==> (
        event.deep_view() matches why_not::Event::Environment { environment: seen } && seen
            == environment.deep_view()),
        event matches why_not::Event::NoEnvironment { error } ==> (
        event.deep_view() matches why_not::Event::NoEnvironment { error: seen } && seen == error@),
        event matches why_not::Event::Platform { name } ==> (
        event.deep_view() matches why_not::Event::Platform { name: seen } && seen == name@),
        event matches why_not::Event::NotResolved { error } ==> (
        event.deep_view() matches why_not::Event::NotResolved { error: seen } && seen == error@),
        event is NoPlatform <==> event.deep_view() is NoPlatform,
        event matches why_not::Event::LockFile { lock_file, platform } ==> (
        event.deep_view() matches why_not::Event::LockFile { lock_file: file, platform: system }
            && file == lock_file && system == platform.deep_view()),
        event matches why_not::Event::NoLockFile { error } ==> (
        event.deep_view() matches why_not::Event::NoLockFile { error: seen } && seen == error@),
        event matches why_not::Event::Unsolvable { explanation } ==> (
        event.deep_view() matches why_not::Event::Unsolvable { explanation: seen } && seen
            == explanation@),
        event is Solvable <==> event.deep_view() is Solvable,
        event matches why_not::Event::NotProbed { error } ==> (
        event.deep_view() matches why_not::Event::NotProbed { error: seen } && seen == error@),
{
}

/// Names, specs and what is demanded of a version.
pub proof fn specs_are_seen(
    name: PackageName,
    spec: Spec,
    bound: NewerThan<String>,
    version: Version,
)
    ensures
        name.deep_view().source == name.source@,
        name.deep_view().normalized == name.normalized@,
        spec.deep_view().has_version == spec.has_version,
        spec.deep_view().printed == spec.printed@,
        spec.deep_view().name is Some <==> spec.name is Some,
        spec.name matches Some(named) ==> spec.deep_view().name == Some(named.deep_view()),
        bound.deep_view().version == bound.version@,
        version.deep_view() == version@,
{
}

/// Azure options, and why they are refused.
pub proof fn options_are_seen(options: AzureOptions, error: TomlError<String, Vec<String>>)
    ensures
        options.deep_view().account == options.account@,
        options.deep_view().endpoint_url is Some <==> options.endpoint_url is Some,
        options.endpoint_url matches Some(url) ==> options.deep_view().endpoint_url == Some(url@),
        error matches TomlError::Wanted { key, expected, found } ==> (
        error.deep_view() matches TomlError::Wanted { key: place, expected: wanted, found: given }
            && place == key.deep_view() && wanted == expected@ && given == found@),
        error matches TomlError::MissingField { key } ==> (
        error.deep_view() matches TomlError::MissingField { key: place } && place == key@),
        error matches TomlError::Custom { key, message } ==> (
        error.deep_view() matches TomlError::Custom { key: place, message: told } && place == key@
            && told == message@),
        error matches TomlError::UnexpectedKeys { keys, expected } ==> (
        error.deep_view() matches TomlError::UnexpectedKeys { keys: given, expected: wanted }
            && given == text::views(keys@) && wanted == text::views(expected@)),
{
}

} // verus!
