//! `pixi self-update`: which work it asks for, in which order, and what it tells
//! the user meanwhile. The work itself (requests, questions, writing the binary)
//! is left to the caller, who hands back what came of it.

use vstd::prelude::*;
use vstd::string::*;

use crate::release;
use crate::release::{Icon, LatestReply, Message, NotesReply, Release};
use crate::text;
use crate::urls;
use crate::version;
use crate::version::{Version, VersionOrder};

verus! {

/// The arguments of `pixi self-update`.
#[derive(Debug)]
pub struct Args<T, V> {
    /// Run without network access. Updating always requires the network.
    pub offline: Option<bool>,
    /// The desired version (to downgrade or upgrade to).
    pub version: Option<V>,
    /// Only show release notes, do not modify the binary.
    pub dry_run: bool,
    /// Download the desired version unless it is the current one; without a
    /// desired version, always replace with the latest.
    pub force: bool,
    /// Skip the release notes.
    pub no_release_note: bool,
    /// The release page to download from.
    pub from_url: Option<T>,
}

impl DeepView for Args<String, Version> {
    type V = Args<Seq<char>, Seq<char>>;

    open spec fn deep_view(&self) -> Args<Seq<char>, Seq<char>> {
        Args {
            offline: self.offline,
            version: self.version.deep_view(),
            dry_run: self.dry_run,
            force: self.force,
            no_release_note: self.no_release_note,
            from_url: self.from_url.deep_view(),
        }
    }
}

/// The options that every command takes.
#[derive(Debug, Clone, Copy)]
pub struct GlobalOptions {
    /// How often `--quiet` was given.
    pub quiet: u8,
}

/// What stays the same during an update.
#[derive(Debug)]
pub struct Setting<T, V> {
    pub args: Args<T, V>,
    /// Nothing is shown to the user.
    pub quiet: bool,
    /// The release asset for this machine, or why there is none.
    pub asset: Result<T, T>,
    pub release: Release<T>,
}

impl DeepView for Setting<String, Version> {
    type V = Setting<Seq<char>, Seq<char>>;

    open spec fn deep_view(&self) -> Setting<Seq<char>, Seq<char>> {
        Setting {
            args: self.args.deep_view(),
            quiet: self.quiet,
            asset: text::result_view(self.asset),
            release: self.release.deep_view(),
        }
    }
}

/// What an update waits for.
#[derive(Debug)]
#[allow(inconsistent_fields)]
pub enum Stage<T, V> {
    /// The configured offline setting.
    Offline,
    /// The latest version, as the target.
    Latest,
    /// The release notes of the target.
    Notes { target: Option<V>, current: V },
    /// The latest version, to tell the user of it.
    DryRunLatest { current: V },
    /// The user's consent to a downgrade.
    Consent { target: V, current: V, warning: Option<T> },
    /// The archive.
    Archive { target: Option<V>, warning: Option<T>, url: T },
    /// The replacement of the binary.
    Replacement { target: Option<V>, warning: Option<T> },
    /// Nothing: the update is over.
    Finished,
}

impl DeepView for Stage<String, Version> {
    type V = Stage<Seq<char>, Seq<char>>;

    open spec fn deep_view(&self) -> Stage<Seq<char>, Seq<char>> {
        match self {
            Stage::Offline => Stage::Offline,
            Stage::Latest => Stage::Latest,
            Stage::Notes { target, current } => Stage::Notes {
                target: target.deep_view(),
                current: current@,
            },
            Stage::DryRunLatest { current } => Stage::DryRunLatest { current: current@ },
            Stage::Consent { target, current, warning } => Stage::Consent {
                target: target@,
                current: current@,
                warning: warning.deep_view(),
            },
            Stage::Archive { target, warning, url } => Stage::Archive {
                target: target.deep_view(),
                warning: warning.deep_view(),
                url: url@,
            },
            Stage::Replacement { target, warning } => Stage::Replacement {
                target: target.deep_view(),
                warning: warning.deep_view(),
            },
            Stage::Finished => Stage::Finished,
        }
    }
}

/// Why an update ends without success.
#[derive(Debug)]
pub enum UpdateError<T> {
    /// The command cannot do its work offline.
    NetworkRequired { command: T },
    /// Any other reason.
    Failed { message: T },
}

/// The characters of the error that `r` holds, if any.
pub open spec fn outcome_view(r: Result<(), UpdateError<String>>) -> Result<
    (),
    UpdateError<Seq<char>>,
> {
    match r {
        Ok(done) => Ok(done),
        Err(UpdateError::NetworkRequired { command }) => Err(
            UpdateError::NetworkRequired { command: command@ },
        ),
        Err(UpdateError::Failed { message }) => Err(UpdateError::Failed { message: message@ }),
    }
}

/// The work that an update asks for.
#[derive(Debug)]
pub enum Action<T, B> {
    /// Look up whether the configuration says to stay offline.
    LoadOfflineSetting,
    /// Ask the release page for the latest release, without following the
    /// redirection.
    FetchLatest { url: T },
    /// Ask the API to describe a release.
    FetchReleaseNotes { url: T },
    /// Ask the user; the default answer is no.
    Confirm { prompt: T },
    /// Download the archive.
    Download { url: T },
    /// Put `binary` in the place of the running program.
    ReplaceBinary { binary: B },
    /// End with this outcome.
    Finish(Result<(), UpdateError<T>>),
}

impl DeepView for Action<String, Vec<u8>> {
    type V = Action<Seq<char>, Seq<u8>>;

    open spec fn deep_view(&self) -> Action<Seq<char>, Seq<u8>> {
        match self {
            Action::LoadOfflineSetting => Action::LoadOfflineSetting,
            Action::FetchLatest { url } => Action::FetchLatest { url: url@ },
            Action::FetchReleaseNotes { url } => Action::FetchReleaseNotes { url: url@ },
            Action::Confirm { prompt } => Action::Confirm { prompt: prompt@ },
            Action::Download { url } => Action::Download { url: url@ },
            Action::ReplaceBinary { binary } => Action::ReplaceBinary { binary: binary@ },
            Action::Finish(outcome) => Action::Finish(outcome_view(*outcome)),
        }
    }
}

/// What came back when the archive was downloaded.
#[derive(Debug)]
pub enum ArchiveReply<T, B> {
    /// The status is not OK.
    Refused { status: T },
    /// The archive could not be received.
    Failed { error: T },
    /// The archive.
    Received { data: B },
}

/// What came of the work that an update asked for.
#[derive(Debug)]
#[allow(inconsistent_fields)]
pub enum Event<T, B> {
    OfflineSetting { offline: bool },
    Latest { reply: LatestReply<T> },
    Notes { reply: NotesReply<T> },
    Answered { consent: bool },
    NotAnswered { error: T },
    Archive { reply: ArchiveReply<T, B> },
    Replaced,
    NotReplaced { error: T },
}

impl DeepView for Event<String, Vec<u8>> {
    type V = Event<Seq<char>, Seq<u8>>;

    open spec fn deep_view(&self) -> Event<Seq<char>, Seq<u8>> {
        match self {
            Event::OfflineSetting { offline } => Event::OfflineSetting { offline: *offline },
            Event::Latest { reply } => Event::Latest { reply: reply.deep_view() },
            Event::Notes { reply } => Event::Notes { reply: reply.deep_view() },
            Event::Answered { consent } => Event::Answered { consent: *consent },
            Event::NotAnswered { error } => Event::NotAnswered { error: error@ },
            Event::Archive { reply } => Event::Archive {
                reply: match reply {
                    ArchiveReply::Refused { status } => ArchiveReply::Refused { status: status@ },
                    ArchiveReply::Failed { error } => ArchiveReply::Failed { error: error@ },
                    ArchiveReply::Received { data } => ArchiveReply::Received { data: data@ },
                },
            },
            Event::Replaced => Event::Replaced,
            Event::NotReplaced { error } => Event::NotReplaced { error: error@ },
        }
    }
}

/// An update under way.
#[derive(Debug)]
pub struct SelfUpdate<T, V> {
    pub setting: Setting<T, V>,
    pub stage: Stage<T, V>,
}

impl DeepView for SelfUpdate<String, Version> {
    type V = SelfUpdate<Seq<char>, Seq<char>>;

    open spec fn deep_view(&self) -> SelfUpdate<Seq<char>, Seq<char>> {
        SelfUpdate { setting: self.setting.deep_view(), stage: self.stage.deep_view() }
    }
}

/// One step of an update: messages to show, in order, then work to do.
#[derive(Debug)]
pub struct Step {
    pub state: SelfUpdate<String, Version>,
    pub messages: Vec<Message<String>>,
    pub action: Action<String, Vec<u8>>,
}

/// A step, in terms of characters and bytes.
pub struct StepModel {
    pub state: SelfUpdate<Seq<char>, Seq<char>>,
    pub messages: Seq<Message<Seq<char>>>,
    pub action: Action<Seq<char>, Seq<u8>>,
}

impl DeepView for Step {
    type V = StepModel;

    open spec fn deep_view(&self) -> StepModel {
        StepModel {
            state: self.state.deep_view(),
            messages: self.messages.deep_view(),
            action: self.action.deep_view(),
        }
    }
}

/// A setting, in terms of characters.
pub type SettingModel = Setting<Seq<char>, Seq<char>>;

/// An update under way, in terms of characters.
pub type StateModel = SelfUpdate<Seq<char>, Seq<char>>;

/// What an update does once the notes are dealt with.
#[derive(Debug, Clone, Copy, PartialEq, Eq, Structural)]
pub enum Plan {
    /// Tell what would be done.
    DryRun,
    /// Nothing: the target is the current version.
    UpToDate,
    /// Ask before going back to an older version.
    AskToDowngrade,
    /// Go back to an older version.
    Downgrade,
    /// Install the target.
    Update,
}

/// A dry run only tells. The current version is never installed again. The user
/// is asked before a downgrade that neither `--version` nor `--force` requests.
pub open spec fn plan_of(
    dry_run: bool,
    up_to_date: bool,
    force: bool,
    older: bool,
    version_given: bool,
) -> Plan {
    if dry_run {
        Plan::DryRun
    } else if up_to_date {
        Plan::UpToDate
    } else if force || !older {
        Plan::Update
    } else if version_given {
        Plan::Downgrade
    } else {
        Plan::AskToDowngrade
    }
}

/// Chooses what an update does once the notes are dealt with.
pub fn plan(
    dry_run: bool,
    up_to_date: bool,
    force: bool,
    older: bool,
    version_given: bool,
) -> (r: Plan)
    ensures
        r == plan_of(dry_run, up_to_date, force, older, version_given),
{
    if dry_run {
        return Plan::DryRun;
    }
    if up_to_date {
        return Plan::UpToDate;
    }
    if !force && older {
        if version_given {
            Plan::Downgrade
        } else {
            Plan::AskToDowngrade
        }
    } else {
        Plan::Update
    }
}

/// Whether the target is the current version.
pub open spec fn is_up_to_date(target: Option<Seq<char>>, current: Seq<char>) -> bool {
    target matches Some(target) && version::versions_equal(target, current)
}

/// Whether the target ranks below the current version.
pub open spec fn is_older(target: Option<Seq<char>>, current: Seq<char>) -> bool {
    target matches Some(target) && version::version_order(target, current) < 0
}

/// The step that shows `messages`, asks for `action` and waits at `stage`.
pub open spec fn waiting(
    setting: SettingModel,
    messages: Seq<Message<Seq<char>>>,
    stage: Stage<Seq<char>, Seq<char>>,
    action: Action<Seq<char>, Seq<u8>>,
) -> StepModel {
    StepModel { state: SelfUpdate { setting, stage }, messages, action }
}

/// The step that shows `messages` and ends with `outcome`.
pub open spec fn ended(
    setting: SettingModel,
    messages: Seq<Message<Seq<char>>>,
    outcome: Result<(), UpdateError<Seq<char>>>,
) -> StepModel {
    waiting(setting, messages, Stage::Finished, Action::Finish(outcome))
}

/// The step that shows `messages` and ends with the error `message`.
pub open spec fn failing(
    setting: SettingModel,
    messages: Seq<Message<Seq<char>>>,
    message: Seq<char>,
) -> StepModel {
    ended(setting, messages, Err(UpdateError::Failed { message }))
}

/// `messages` and one more line, which is left out where the user wants quiet.
pub open spec fn told(
    setting: SettingModel,
    messages: Seq<Message<Seq<char>>>,
    icon: Icon,
    line: Seq<char>,
) -> Seq<Message<Seq<char>>> {
    if setting.quiet {
        messages
    } else {
        messages.push(Message::Status { icon, text: line })
    }
}

/// The first step of an update.
pub open spec fn started(setting: SettingModel) -> StepModel {
    match setting.args.offline {
        Some(offline) => offline_known(setting, offline),
        None => waiting(setting, Seq::empty(), Stage::Offline, Action::LoadOfflineSetting),
    }
}

/// The step after it is known whether to stay offline.
pub open spec fn offline_known(setting: SettingModel, offline: bool) -> StepModel {
    if offline {
        ended(
            setting,
            Seq::empty(),
            Err(UpdateError::NetworkRequired { command: "pixi self-update"@ }),
        )
    } else {
        match setting.asset {
            Err(message) => failing(setting, Seq::empty(), message),
            Ok(_) => match setting.args.from_url {
                Some(url) => match urls::url_reading(url) {
                    Err(error) => failing(
                        setting,
                        Seq::empty(),
                        "URL: "@ + url + ". Url validation failed: "@ + error,
                    ),
                    Ok(_) => target_sought(setting),
                },
                None => target_sought(setting),
            },
        }
    }
}

/// The step that settles the target: the desired version without a leading `v`,
/// none where the latest release is forced, the latest version otherwise.
pub open spec fn target_sought(setting: SettingModel) -> StepModel {
    match setting.args.version {
        Some(desired) => {
            let shown = version::version_display(desired);
            match text::after_prefix(shown, "v"@) {
                Some(bare) => {
                    let messages = told(
                        setting,
                        Seq::empty(),
                        Icon::Warning,
                        "Warning: Leading 'v' removed from version "@ + shown,
                    );
                    match version::version_error(bare) {
                        Some(message) => failing(setting, messages, message),
                        None => target_known(setting, messages, Some(bare)),
                    }
                },
                None => target_known(setting, Seq::empty(), Some(desired)),
            }
        },
        None => if setting.args.force {
            target_known(setting, Seq::empty(), None)
        } else {
            waiting(
                setting,
                Seq::empty(),
                Stage::Latest,
                Action::FetchLatest { url: release::latest_page(setting.release) },
            )
        },
    }
}

/// The step after the target is settled: the release notes are fetched unless
/// nobody wants to see them.
pub open spec fn target_known(
    setting: SettingModel,
    messages: Seq<Message<Seq<char>>>,
    target: Option<Seq<char>>,
) -> StepModel {
    let current = setting.release.pixi_version;
    match version::version_error(current) {
        Some(message) => failing(setting, messages, message),
        None => if setting.args.no_release_note || is_up_to_date(target, current)
            || setting.quiet {
            notes_settled(setting, messages, target, current, None)
        } else {
            waiting(
                setting,
                messages,
                Stage::Notes { target, current },
                Action::FetchReleaseNotes {
                    url: release::description_url(setting.release, target),
                },
            )
        },
    }
}

/// The step after the release notes were asked for. A failure to have them only
/// leaves a warning for the end.
pub open spec fn notes_received(
    setting: SettingModel,
    target: Option<Seq<char>>,
    current: Seq<char>,
    reply: NotesReply<Seq<char>>,
) -> StepModel {
    match release::notes_of(target, reply) {
        Ok(notes) => notes_settled(
            setting,
            seq![Message::ReleaseNotes { text: notes }],
            target,
            current,
            None,
        ),
        Err(error) => notes_settled(
            setting,
            Seq::empty(),
            target,
            current,
            Some(release::notes_warning_text(setting.release, target, error)),
        ),
    }
}

/// The step after the release notes are dealt with.
pub open spec fn notes_settled(
    setting: SettingModel,
    messages: Seq<Message<Seq<char>>>,
    target: Option<Seq<char>>,
    current: Seq<char>,
    warning: Option<Seq<char>>,
) -> StepModel {
    let args = setting.args;
    let plan = plan_of(
        args.dry_run,
        is_up_to_date(target, current),
        args.force,
        is_older(target, current),
        args.version is Some,
    );
    match plan {
        Plan::DryRun => if setting.quiet {
            ended(setting, messages, Ok(()))
        } else {
            match target {
                Some(target) => ended(
                    setting,
                    messages.push(release::dry_run_outcome(current, target)),
                    Ok(()),
                ),
                None => waiting(
                    setting,
                    messages,
                    Stage::DryRunLatest { current },
                    Action::FetchLatest { url: release::latest_page(setting.release) },
                ),
            }
        },
        Plan::UpToDate => ended(
            setting,
            told(
                setting,
                messages,
                Icon::Done,
                "pixi is already up-to-date (version "@ + version::version_display(current)
                    + ")"@,
            ),
            Ok(()),
        ),
        Plan::AskToDowngrade => waiting(
            setting,
            messages,
            Stage::Consent { target: target->0, current, warning },
            Action::Confirm {
                prompt: "\nCurrent version ("@ + version::version_display(current)
                    + ") is more recent than remote ("@ + version::version_display(target->0)
                    + "). Do you want to downgrade?"@,
            },
        ),
        Plan::Downgrade => proceeding(
            setting,
            messages,
            target,
            current,
            warning,
            "downgraded"@,
        ),
        Plan::Update => proceeding(setting, messages, target, current, warning, "updated"@),
    }
}

/// The step that starts the download of the target.
pub open spec fn proceeding(
    setting: SettingModel,
    messages: Seq<Message<Seq<char>>>,
    target: Option<Seq<char>>,
    current: Seq<char>,
    warning: Option<Seq<char>>,
    change: Seq<char>,
) -> StepModel {
    let messages = match target {
        Some(target) => if setting.args.force {
            messages
        } else {
            told(
                setting,
                messages,
                Icon::Done,
                "Pixi will be "@ + change + " from "@ + version::version_display(current)
                    + " to "@ + version::version_display(target),
            )
        },
        None => messages,
    };
    match setting.asset {
        Err(message) => failing(setting, messages, message),
        Ok(asset) => {
            let url = release::asset_url(
                setting.release,
                setting.args.from_url,
                target,
                asset,
            );
            waiting(
                setting,
                messages,
                Stage::Archive { target, warning, url },
                Action::Download { url },
            )
        },
    }
}

/// The step after the latest version was asked for on a dry run.
pub open spec fn dry_run_told(
    setting: SettingModel,
    current: Seq<char>,
    latest: Result<Seq<char>, Seq<char>>,
) -> StepModel {
    match latest {
        Err(message) => failing(setting, Seq::empty(), message),
        Ok(target) => ended(
            setting,
            seq![release::dry_run_outcome(current, target)],
            Ok(()),
        ),
    }
}

/// The step after the archive was asked for.
pub open spec fn archive_received(
    setting: SettingModel,
    target: Option<Seq<char>>,
    warning: Option<Seq<char>>,
    url: Seq<char>,
    reply: ArchiveReply<Seq<char>, Seq<u8>>,
) -> StepModel {
    match reply {
        ArchiveReply::Refused { status } => failing(
            setting,
            Seq::empty(),
            "URL "@ + url + " returned "@ + status,
        ),
        ArchiveReply::Failed { error } => failing(setting, Seq::empty(), error),
        ArchiveReply::Received { data } => unpacked(
            setting,
            target,
            warning,
            release::gzip_reading(data),
        ),
    }
}

/// The step after the archive was unpacked.
pub open spec fn unpacked(
    setting: SettingModel,
    target: Option<Seq<char>>,
    warning: Option<Seq<char>>,
    unpacking: Result<Seq<u8>, Seq<char>>,
) -> StepModel {
    let messages = told(setting, Seq::empty(), Icon::Done, "Pixi archive downloaded."@);
    match unpacking {
        Err(message) => failing(setting, messages, message),
        Ok(binary) => waiting(
            setting,
            told(setting, messages, Icon::Done, "Pixi archive uncompressed."@),
            Stage::Replacement { target, warning },
            Action::ReplaceBinary { binary },
        ),
    }
}

/// The step after the binary was replaced.
pub open spec fn replaced(
    setting: SettingModel,
    target: Option<Seq<char>>,
    warning: Option<Seq<char>>,
) -> StepModel {
    let messages = told(
        setting,
        Seq::empty(),
        Icon::Done,
        match target {
            Some(target) => "Pixi has been updated to version "@ + version::version_display(
                target,
            ) + "."@,
            None => "Pixi has been updated to latest release."@,
        },
    );
    let messages = match warning {
        Some(warning) => messages.push(Message::Logged { icon: Icon::Warning, text: warning }),
        None => messages,
    };
    ended(setting, messages, Ok(()))
}

/// Whether `event` is what an update at `stage` waits for.
pub open spec fn fits<T, V, B>(stage: Stage<T, V>, event: Event<T, B>) -> bool {
    match stage {
        Stage::Offline => event is OfflineSetting,
        Stage::Latest => event is Latest,
        Stage::Notes { .. } => event is Notes,
        Stage::DryRunLatest { .. } => event is Latest,
        Stage::Consent { .. } => event is Answered || event is NotAnswered,
        Stage::Archive { .. } => event is Archive,
        Stage::Replacement { .. } => event is Replaced || event is NotReplaced,
        Stage::Finished => false,
    }
}

/// The step after `event`.
pub open spec fn next_step(state: StateModel, event: Event<Seq<char>, Seq<u8>>) -> StepModel {
    let setting = state.setting;
    match (state.stage, event) {
        (Stage::Offline, Event::OfflineSetting { offline }) => offline_known(setting, offline),
        (Stage::Latest, Event::Latest { reply }) => match release::latest_of(
            setting.release,
            reply,
        ) {
            Err(message) => failing(setting, Seq::empty(), message),
            Ok(target) => target_known(setting, Seq::empty(), Some(target)),
        },
        (Stage::Notes { target, current }, Event::Notes { reply }) => notes_received(
            setting,
            target,
            current,
            reply,
        ),
        (Stage::DryRunLatest { current }, Event::Latest { reply }) => dry_run_told(
            setting,
            current,
            release::latest_of(setting.release, reply),
        ),
        (Stage::Consent { target, current, warning }, Event::Answered { consent }) => if consent {
            proceeding(
                setting,
                Seq::empty(),
                Some(target),
                current,
                warning,
                "downgraded"@,
            )
        } else {
            ended(setting, Seq::empty(), Ok(()))
        },
        (Stage::Archive { target, warning, url }, Event::Archive { reply }) => archive_received(
            setting,
            target,
            warning,
            url,
            reply,
        ),
        (Stage::Replacement { target, warning }, Event::Replaced) => replaced(
            setting,
            target,
            warning,
        ),
        (_, Event::NotAnswered { error }) => failing(setting, Seq::empty(), error),
        (_, Event::NotReplaced { error }) => failing(setting, Seq::empty(), error),
        _ => ended(setting, Seq::empty(), Ok(())),
    }
}

fn no_messages() -> (r: Vec<Message<String>>)
    ensures
        r.deep_view() == Seq::<Message<Seq<char>>>::empty(),
{
    let r: Vec<Message<String>> = Vec::new();
    assert(r.deep_view() =~= Seq::<Message<Seq<char>>>::empty());
    r
}

fn show(messages: &mut Vec<Message<String>>, message: Message<String>)
    ensures
        final(messages).deep_view() == old(messages).deep_view().push(message.deep_view()),
{
    messages.push(message);
    assert(messages.deep_view() =~= old(messages).deep_view().push(message.deep_view()));
}

fn tell(
    setting: &Setting<String, Version>,
    messages: &mut Vec<Message<String>>,
    icon: Icon,
    line: String,
)
    ensures
        final(messages).deep_view() == told(
            setting.deep_view(),
            old(messages).deep_view(),
            icon,
            line@,
        ),
{
    if !setting.quiet {
        show(messages, Message::Status { icon, text: line });
    }
}

fn wait(
    setting: Setting<String, Version>,
    messages: Vec<Message<String>>,
    stage: Stage<String, Version>,
    action: Action<String, Vec<u8>>,
) -> (r: Step)
    ensures
        r.deep_view() == waiting(
            setting.deep_view(),
            messages.deep_view(),
            stage.deep_view(),
            action.deep_view(),
        ),
{
    Step { state: SelfUpdate { setting, stage }, messages, action }
}

fn end(setting: Setting<String, Version>, messages: Vec<Message<String>>) -> (r: Step)
    ensures
        r.deep_view() == ended(setting.deep_view(), messages.deep_view(), Ok(())),
{
    wait(setting, messages, Stage::Finished, Action::Finish(Ok(())))
}

fn fail(
    setting: Setting<String, Version>,
    messages: Vec<Message<String>>,
    message: String,
) -> (r: Step)
    ensures
        r.deep_view() == failing(setting.deep_view(), messages.deep_view(), message@),
{
    wait(
        setting,
        messages,
        Stage::Finished,
        Action::Finish(Err(UpdateError::Failed { message })),
    )
}

/// Starts an update. `os` and `arch` name the machine it runs on.
pub fn execute(
    args: Args<String, Version>,
    global_options: &GlobalOptions,
    os: &str,
    arch: &str,
    release: Release<String>,
) -> (r: Step)
    ensures
        r.deep_view() == started(
            (Setting {
                args: args.deep_view(),
                quiet: global_options.quiet > 0,
                asset: release::asset_for(os@, arch@),
                release: release.deep_view(),
            }),
        ),
{
    let setting = Setting {
        args,
        quiet: global_options.quiet > 0,
        asset: release::release_asset_name(os, arch),
        release,
    };
    match setting.args.offline {
        Some(offline) => begin(setting, offline),
        None => wait(setting, no_messages(), Stage::Offline, Action::LoadOfflineSetting),
    }
}

/// Goes on once it is known whether to stay offline.
pub fn begin(setting: Setting<String, Version>, offline: bool) -> (r: Step)
    ensures
        r.deep_view() == offline_known(setting.deep_view(), offline),
{
    if offline {
        return wait(
            setting,
            no_messages(),
            Stage::Finished,
            Action::Finish(
                Err(UpdateError::NetworkRequired { command: "pixi self-update".to_owned() }),
            ),
        );
    }
    if let Err(message) = &setting.asset {
        let message = message.clone();
        return fail(setting, no_messages(), message);
    }
    if let Some(url) = &setting.args.from_url {
        if let Err(error) = urls::parse_url(url.as_str()) {
            let mut message = "URL: ".to_owned();
            message.append(url.as_str());
            message.append(". Url validation failed: ");
            message.append(error.as_str());
            return fail(setting, no_messages(), message);
        }
    }
    seek_target(setting)
}

/// Settles the target.
pub fn seek_target(setting: Setting<String, Version>) -> (r: Step)
    ensures
        r.deep_view() == target_sought(setting.deep_view()),
{
    match &setting.args.version {
        Some(desired) => {
            let shown = desired.to_text();
            match text::strip_prefix(shown.as_str(), "v") {
                Some(bare) => {
                    let mut messages = no_messages();
                    let mut line = "Warning: Leading 'v' removed from version ".to_owned();
                    line.append(shown.as_str());
                    tell(&setting, &mut messages, Icon::Warning, line);
                    match Version::parse(bare) {
                        Err(message) => fail(setting, messages, message),
                        Ok(target) => know_target(setting, messages, Some(target)),
                    }
                },
                None => {
                    let target = desired.clone();
                    know_target(setting, no_messages(), Some(target))
                },
            }
        },
        None => {
            if setting.args.force {
                know_target(setting, no_messages(), None)
            } else {
                let url = release::latest_url(&setting.release);
                wait(setting, no_messages(), Stage::Latest, Action::FetchLatest { url })
            }
        },
    }
}

/// Goes on once the target is settled.
pub fn know_target(
    setting: Setting<String, Version>,
    messages: Vec<Message<String>>,
    target: Option<Version>,
) -> (r: Step)
    ensures
        r.deep_view() == target_known(
            setting.deep_view(),
            messages.deep_view(),
            target.deep_view(),
        ),
{
    let current = match Version::parse(setting.release.pixi_version.as_str()) {
        Ok(current) => current,
        Err(message) => return fail(setting, messages, message),
    };
    let up_to_date = match &target {
        Some(target) => target.same_as(&current),
        None => false,
    };
    if setting.args.no_release_note || up_to_date || setting.quiet {
        settle_notes(setting, messages, target, current, None)
    } else {
        let url = release::release_notes_url(&setting.release, &target);
        wait(
            setting,
            messages,
            Stage::Notes { target, current },
            Action::FetchReleaseNotes { url },
        )
    }
}

/// Goes on once the release notes were asked for.
pub fn receive_notes(
    setting: Setting<String, Version>,
    target: Option<Version>,
    current: Version,
    reply: NotesReply<String>,
) -> (r: Step)
    ensures
        r.deep_view() == notes_received(
            setting.deep_view(),
            target.deep_view(),
            current@,
            reply.deep_view(),
        ),
{
    let mut messages = no_messages();
    match release::release_notes(&target, reply) {
        Ok(notes) => {
            show(&mut messages, Message::ReleaseNotes { text: notes });
            proof {
                assert(messages.deep_view() =~= seq![Message::ReleaseNotes { text: notes@ }]);
            }
            settle_notes(setting, messages, target, current, None)
        },
        Err(error) => {
            let warning = release::notes_warning(&setting.release, &target, error.as_str());
            settle_notes(setting, messages, target, current, Some(warning))
        },
    }
}

/// Goes on once the release notes are dealt with.
pub fn settle_notes(
    setting: Setting<String, Version>,
    messages: Vec<Message<String>>,
    target: Option<Version>,
    current: Version,
    warning: Option<String>,
) -> (r: Step)
    ensures
        r.deep_view() == notes_settled(
            setting.deep_view(),
            messages.deep_view(),
            target.deep_view(),
            current@,
            warning.deep_view(),
        ),
{
    let mut messages = messages;
    let (up_to_date, older) = match &target {
        Some(target) => (
            target.same_as(&current),
            target.compare(&current) == VersionOrder::Older,
        ),
        None => (false, false),
    };
    let chosen = plan(
        setting.args.dry_run,
        up_to_date,
        setting.args.force,
        older,
        setting.args.version.is_some(),
    );
    match (chosen, target) {
        (Plan::DryRun, target) => {
            if setting.quiet {
                return end(setting, messages);
            }
            match target {
                Some(target) => {
                    show(&mut messages, release::get_dry_run_message(&current, &target));
                    end(setting, messages)
                },
                None => {
                    let url = release::latest_url(&setting.release);
                    wait(
                        setting,
                        messages,
                        Stage::DryRunLatest { current },
                        Action::FetchLatest { url },
                    )
                },
            }
        },
        (Plan::UpToDate, _) => {
            let mut line = "pixi is already up-to-date (version ".to_owned();
            line.append(current.to_text().as_str());
            line.append(")");
            tell(&setting, &mut messages, Icon::Done, line);
            end(setting, messages)
        },
        (Plan::AskToDowngrade, Some(target)) => {
            let mut prompt = "\nCurrent version (".to_owned();
            prompt.append(current.to_text().as_str());
            prompt.append(") is more recent than remote (");
            prompt.append(target.to_text().as_str());
            prompt.append("). Do you want to downgrade?");
            wait(
                setting,
                messages,
                Stage::Consent { target, current, warning },
                Action::Confirm { prompt },
            )
        },
        (Plan::Downgrade, target) => proceed(
            setting,
            messages,
            target,
            current,
            warning,
            "downgraded",
        ),
        (_, target) => proceed(setting, messages, target, current, warning, "updated"),
    }
}

/// Starts the download of the target.
pub fn proceed(
    setting: Setting<String, Version>,
    messages: Vec<Message<String>>,
    target: Option<Version>,
    current: Version,
    warning: Option<String>,
    change: &str,
) -> (r: Step)
    ensures
        r.deep_view() == proceeding(
            setting.deep_view(),
            messages.deep_view(),
            target.deep_view(),
            current@,
            warning.deep_view(),
            change@,
        ),
{
    let mut messages = messages;
    if let Some(target) = &target {
        if !setting.args.force {
            let mut line = "Pixi will be ".to_owned();
            line.append(change);
            line.append(" from ");
            line.append(current.to_text().as_str());
            line.append(" to ");
            line.append(target.to_text().as_str());
            tell(&setting, &mut messages, Icon::Done, line);
        }
    }
    let asset = match &setting.asset {
        Ok(asset) => asset.clone(),
        Err(message) => {
            let message = message.clone();
            return fail(setting, messages, message);
        },
    };
    let url = release::download_url(
        &setting.release,
        &setting.args.from_url,
        &target,
        asset.as_str(),
    );
    let stage = Stage::Archive { target, warning, url: url.clone() };
    wait(setting, messages, stage, Action::Download { url })
}

/// Goes on once the archive was unpacked.
pub fn install(
    setting: Setting<String, Version>,
    target: Option<Version>,
    warning: Option<String>,
    unpacking: Result<Vec<u8>, String>,
) -> (r: Step)
    ensures
        r.deep_view() == unpacked(
            setting.deep_view(),
            target.deep_view(),
            warning.deep_view(),
            release::bytes_result_view(unpacking),
        ),
{
    let mut messages = no_messages();
    tell(&setting, &mut messages, Icon::Done, "Pixi archive downloaded.".to_owned());
    match unpacking {
        Err(message) => fail(setting, messages, message),
        Ok(binary) => {
            tell(&setting, &mut messages, Icon::Done, "Pixi archive uncompressed.".to_owned());
            wait(
                setting,
                messages,
                Stage::Replacement { target, warning },
                Action::ReplaceBinary { binary },
            )
        },
    }
}

/// Ends an update whose binary is in place.
pub fn conclude(
    setting: Setting<String, Version>,
    target: Option<Version>,
    warning: Option<String>,
) -> (r: Step)
    ensures
        r.deep_view() == replaced(
            setting.deep_view(),
            target.deep_view(),
            warning.deep_view(),
        ),
{
    let mut messages = no_messages();
    let line = match &target {
        Some(target) => {
            let mut line = "Pixi has been updated to version ".to_owned();
            line.append(target.to_text().as_str());
            line.append(".");
            line
        },
        None => "Pixi has been updated to latest release.".to_owned(),
    };
    tell(&setting, &mut messages, Icon::Done, line);
    if let Some(warning) = warning {
        show(&mut messages, Message::Logged { icon: Icon::Warning, text: warning });
    }
    end(setting, messages)
}

/// Goes on with what came of the work that the last step asked for.
pub fn resume(state: SelfUpdate<String, Version>, event: Event<String, Vec<u8>>) -> (r: Step)
    requires
        fits(state.stage, event),
    ensures
        r.deep_view() == next_step(state.deep_view(), event.deep_view()),
{
    let setting = state.setting;
    match (state.stage, event) {
        (Stage::Offline, Event::OfflineSetting { offline }) => begin(setting, offline),
        (Stage::Latest, Event::Latest { reply }) => match release::latest_version(
            &setting.release,
            reply,
        ) {
            Err(message) => fail(setting, no_messages(), message),
            Ok(target) => know_target(setting, no_messages(), Some(target)),
        },
        (Stage::Notes { target, current }, Event::Notes { reply }) => receive_notes(
            setting,
            target,
            current,
            reply,
        ),
        (Stage::DryRunLatest { current }, Event::Latest { reply }) => match release::latest_version(
            &setting.release,
            reply,
        ) {
            Err(message) => fail(setting, no_messages(), message),
            Ok(target) => {
                let mut messages = no_messages();
                show(&mut messages, release::get_dry_run_message(&current, &target));
                proof {
                    assert(messages.deep_view() =~= seq![
                        release::dry_run_outcome(current@, target@),
                    ]);
                }
                end(setting, messages)
            },
        },
        (Stage::Consent { target, current, warning }, Event::Answered { consent }) => {
            if consent {
                proceed(setting, no_messages(), Some(target), current, warning, "downgraded")
            } else {
                end(setting, no_messages())
            }
        },
        (Stage::Archive { target, warning, url }, Event::Archive { reply }) => match reply {
            ArchiveReply::Refused { status } => {
                let mut message = "URL ".to_owned();
                message.append(url.as_str());
                message.append(" returned ");
                message.append(status.as_str());
                fail(setting, no_messages(), message)
            },
            ArchiveReply::Failed { error } => fail(setting, no_messages(), error),
            ArchiveReply::Received { data } => install(
                setting,
                target,
                warning,
                release::gunzip(&data),
            ),
        },
        (Stage::Replacement { target, warning }, Event::Replaced) => conclude(
            setting,
            target,
            warning,
        ),
        (_, Event::NotAnswered { error }) => fail(setting, no_messages(), error),
        (_, Event::NotReplaced { error }) => fail(setting, no_messages(), error),
        _ => end(setting, no_messages()),
    }
}

/// What `pixi self-update` answers in a build without self-update support: the
/// message that the build was given, or a default one.
pub fn execute_stub(message: Option<&str>) -> (r: Result<(), String>)
    ensures
        r matches Err(text) && text@ == match message {
            Some(message) => message@,
            None =>
                "This version of pixi was built without self-update support. Please use your package manager to update pixi."@,
        },
{
    match message {
        Some(message) => Err(message.to_owned()),
        None => Err(
            "This version of pixi was built without self-update support. Please use your package manager to update pixi.".to_owned(),
        ),
    }
}

} // verus!
