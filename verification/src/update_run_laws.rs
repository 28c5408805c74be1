//! What a run of an update asks for and tells, in terms of its setting and of
//! the replies that it got.

use vstd::prelude::*;

use crate::release;
use crate::release::{Icon, LatestReply, Message, NotesReply};
use crate::release_laws;
use crate::self_update;
use crate::self_update::{
    Action, Args, ArchiveReply, Event, Plan, Setting, SettingModel, Stage, StateModel, StepModel,
    UpdateError,
};
use crate::self_update_laws;
use crate::self_update_laws::EventModel;
use crate::text;
use crate::text_laws;
use crate::urls;
use crate::version;

verus! {

/// Whether `target` is the running version.
pub open spec fn is_current(setting: SettingModel, target: Option<Seq<char>>) -> bool {
    target matches Some(target) && version::versions_equal(target, setting.release.pixi_version)
}

/// Whether `target` ranks below the running version.
pub open spec fn is_below(setting: SettingModel, target: Option<Seq<char>>) -> bool {
    target matches Some(target) && version::version_order(target, setting.release.pixi_version) < 0
}

/// The step ends the update well.
pub open spec fn ends_well(step: StepModel) -> bool {
    step.action == Action::<Seq<char>, Seq<u8>>::Finish(Ok(()))
}

/// The step ends the update with `message`.
pub open spec fn ends_with(step: StepModel, message: Seq<char>) -> bool {
    step.action == Action::<Seq<char>, Seq<u8>>::Finish(Err(UpdateError::Failed { message }))
}

/// A dry run only tells. Of the others, one whose target is the running version
/// does nothing, one that goes back to an older version asks first unless it was
/// told to by `--version` or `--force`, and all others go ahead.
pub proof fn the_plan_follows_from_the_arguments(
    dry_run: bool,
    up_to_date: bool,
    force: bool,
    older: bool,
    version_given: bool,
)
    ensures
        ({
            let plan = self_update::plan_of(dry_run, up_to_date, force, older, version_given);
            &&& plan == Plan::DryRun <==> dry_run
            &&& plan == Plan::UpToDate <==> up_to_date && !dry_run
            &&& plan == Plan::AskToDowngrade <==> older && !version_given && !force && !up_to_date
                && !dry_run
            &&& plan == Plan::Downgrade <==> older && version_given && !force && !up_to_date
                && !dry_run
            &&& plan == Plan::Update <==> (force || !older) && !up_to_date && !dry_run
        }),
{
}

/// Whether `step` is what an update with this target does once it need not wait
/// for release notes.
pub open spec fn acts_on(
    setting: SettingModel,
    target: Option<Seq<char>>,
    step: StepModel,
) -> bool {
    let args = setting.args;
    let asks = is_below(setting, target) && args.version is None && !args.force;
    if args.dry_run {
        &&& setting.quiet ==> ends_well(step)
        &&& !setting.quiet && target is Some ==> {
            &&& ends_well(step)
            &&& step.messages.len() > 0
            &&& step.messages.last() == release::dry_run_outcome(
                setting.release.pixi_version,
                target->0,
            )
        }
        &&& !setting.quiet && target is None ==> step.action is FetchLatest
    } else if is_current(setting, target) {
        &&& ends_well(step)
        &&& !setting.quiet ==> {
            &&& step.messages.len() > 0
            &&& step.messages.last() == Message::Status {
                icon: Icon::Done,
                text: "pixi is already up-to-date (version "@ + version::version_display(
                    setting.release.pixi_version,
                ) + ")"@,
            }
        }
    } else if asks {
        step.action is Confirm
    } else {
        &&& setting.asset is Ok ==> step.action is Download
        &&& setting.asset matches Err(message) ==> ends_with(step, message)
    }
}

/// Once the release notes came, or could not be had, an update acts on its
/// target.
pub proof fn after_the_notes_an_update_acts(
    state: StateModel,
    target: Option<Seq<char>>,
    reply: NotesReply<Seq<char>>,
)
    requires
        state.stage == (Stage::<Seq<char>, Seq<char>>::Notes {
            target,
            current: state.setting.release.pixi_version,
        }),
    ensures
        acts_on(state.setting, target, self_update::next_step(state, Event::Notes { reply })),
        release::notes_of(target, reply) matches Ok(notes) ==> {
            let step = self_update::next_step(state, Event::Notes { reply });
            &&& step.messages.len() > 0
            &&& step.messages[0] == Message::ReleaseNotes { text: notes }
        },
{
}

/// Once its target is known, an update fetches the release notes if somebody
/// wants to see them and there is something new to tell, and acts on its target
/// at once otherwise.
pub proof fn notes_are_fetched_where_they_are_wanted(
    setting: SettingModel,
    messages: Seq<Message<Seq<char>>>,
    target: Option<Seq<char>>,
)
    ensures
        ({
            let step = self_update::target_known(setting, messages, target);
            let readable = version::version_error(setting.release.pixi_version);
            let wanted = !setting.args.no_release_note && !setting.quiet && !is_current(
                setting,
                target,
            );
            &&& readable matches Some(message) ==> ends_with(step, message)
            &&& readable is None && !wanted ==> acts_on(setting, target, step)
            &&& step.action is FetchReleaseNotes <==> readable is None && wanted
            &&& step.messages.take(messages.len() as int) == messages
        }),
{
    let step = self_update::target_known(setting, messages, target);
    assert(step.messages.take(messages.len() as int) =~= messages);
}

/// An update that may use the network ends at once where there is no asset for
/// this machine or the address to download from is none. Otherwise it asks for
/// the latest version, unless `--version` or `--force` spare it.
pub proof fn an_update_checks_before_it_asks(setting: SettingModel)
    ensures
        ({
            let step = self_update::offline_known(setting, false);
            &&& setting.asset matches Err(message) ==> ends_with(step, message)
            &&& setting.asset is Ok ==> (setting.args.from_url matches Some(url) ==> (
            urls::url_reading(url) matches Err(error) ==> {
                &&& step.action matches Action::Finish(Err(UpdateError::Failed { message }))
                    && text::contains_text(message, url) && error.is_suffix_of(message)
            }))
            &&& setting.asset is Ok && (setting.args.from_url is Some ==> urls::url_reading(
                setting.args.from_url->0,
            ) is Ok) ==> {
                &&& setting.args.version is None && !setting.args.force
                    <==> step.action is FetchLatest && step.state.stage is Latest
                &&& setting.args.version is None && setting.args.force ==> step
                    == self_update::target_known(setting, Seq::empty(), None)
            }
        }),
{
    if let Some(url) = setting.args.from_url {
        if let Err(error) = urls::url_reading(url) {
            let rest = ". Url validation failed: "@ + error;
            let message = "URL: "@ + url + ". Url validation failed: "@ + error;
            assert(message =~= "URL: "@ + url + rest);
            text_laws::ends_stand_in_the_text("URL: "@, url, rest);
            assert(message.subrange(message.len() - error.len(), message.len() as int) =~= error);
        }
    }
}

/// A desired version that is shown with a leading `v` is taken without it, and
/// the user is told so. What is left must be a version.
pub proof fn a_leading_v_is_dropped(setting: SettingModel, desired: Seq<char>, bare: Seq<char>)
    requires
        setting.args.version == Some(desired),
    ensures
        ({
            let step = self_update::target_sought(setting);
            let shown = version::version_display(desired);
            let warning = Message::Status {
                icon: Icon::Warning,
                text: "Warning: Leading 'v' removed from version "@ + shown,
            };
            let messages = if setting.quiet {
                Seq::<Message<Seq<char>>>::empty()
            } else {
                seq![warning]
            };
            &&& shown == "v"@ + bare ==> if let Some(message) = version::version_error(bare) {
                ends_with(step, message) && step.messages == messages
            } else {
                step == self_update::target_known(setting, messages, Some(bare))
            }
            &&& !"v"@.is_prefix_of(shown) ==> step == self_update::target_known(
                setting,
                Seq::empty(),
                Some(desired),
            )
        }),
{
    let shown = version::version_display(desired);
    text_laws::a_prefix_is_cut_off(shown, "v"@, bare);
    let none = Seq::<Message<Seq<char>>>::empty();
    let warning = Message::Status {
        icon: Icon::Warning,
        text: "Warning: Leading 'v' removed from version "@ + shown,
    };
    assert(none.push(warning) =~= seq![warning]);
}

/// The target that an update at `stage` has settled on, where it has.
pub open spec fn target_of(stage: Stage<Seq<char>, Seq<char>>) -> Option<Option<Seq<char>>> {
    match stage {
        Stage::Notes { target, .. } => Some(target),
        Stage::Consent { target, .. } => Some(Some(target)),
        Stage::Archive { target, .. } => Some(target),
        Stage::Replacement { target, .. } => Some(target),
        _ => None,
    }
}

/// Whether one of `events` tells that `version` is the latest.
pub open spec fn was_told_latest(
    setting: SettingModel,
    events: Seq<EventModel>,
    version: Seq<char>,
) -> bool {
    exists|i: int|
        0 <= i < events.len() && (#[trigger] events[i] matches Event::Latest { reply }
            && release::latest_of(setting.release, reply) == Ok::<Seq<char>, Seq<char>>(version))
}

/// Whether `target` is the version that was desired, without a leading `v`, or
/// none where the latest release is forced, or the version that the release page
/// told to be the latest.
pub open spec fn is_what_was_wanted(
    setting: SettingModel,
    events: Seq<EventModel>,
    target: Option<Seq<char>>,
) -> bool {
    match setting.args.version {
        Some(desired) => {
            let shown = version::version_display(desired);
            target is Some && if "v"@.is_prefix_of(shown) {
                shown == "v"@ + target->0
            } else {
                target->0 == desired
            }
        },
        None => if setting.args.force {
            target is None
        } else {
            target is Some && was_told_latest(setting, events, target->0)
        },
    }
}

proof fn telling_more_keeps_what_was_told(
    setting: SettingModel,
    events: Seq<EventModel>,
    target: Option<Seq<char>>,
)
    requires
        events.len() > 0,
        is_what_was_wanted(setting, events.drop_last(), target),
    ensures
        is_what_was_wanted(setting, events, target),
{
    if setting.args.version is None && !setting.args.force {
        let fewer = events.drop_last();
        let version = target->0;
        let i = choose|i: int|
            0 <= i < fewer.len() && (#[trigger] fewer[i] matches Event::Latest { reply }
                && release::latest_of(setting.release, reply) == Ok::<Seq<char>, Seq<char>>(
                version,
            ));
        assert(events[i] == fewer[i]);
    }
}

proof fn the_beginning_settles_what_was_wanted(
    setting: SettingModel,
    events: Seq<EventModel>,
    offline: bool,
)
    ensures
        target_of(self_update::offline_known(setting, offline).state.stage) matches Some(target)
            ==> is_what_was_wanted(setting, events, target),
{
    if let Some(desired) = setting.args.version {
        let shown = version::version_display(desired);
        match text::after_prefix(shown, "v"@) {
            Some(bare) => {
                text_laws::a_prefix_is_cut_off(shown, "v"@, bare);
            },
            None => {
                text_laws::a_prefix_is_cut_off(shown, "v"@, shown);
            },
        }
    }
}

/// The version that an update fetches notes for, asks about, downloads and puts
/// in place is the one that was wanted, from its start to its end.
pub proof fn an_update_brings_what_was_wanted(setting: SettingModel, events: Seq<EventModel>)
    requires
        self_update_laws::is_run(setting, events),
    ensures
        target_of(self_update_laws::run(setting, events).state.stage) matches Some(target)
            ==> is_what_was_wanted(setting, events, target),
    decreases events.len(),
{
    if events.len() == 0 {
        if let Some(offline) = setting.args.offline {
            the_beginning_settles_what_was_wanted(setting, events, offline);
        }
    } else {
        let fewer = events.drop_last();
        let before = self_update_laws::run(setting, fewer);
        an_update_brings_what_was_wanted(setting, fewer);
        self_update_laws::every_step_is_sound(setting, fewer);
        if let Some(target) = target_of(before.state.stage) {
            telling_more_keeps_what_was_told(setting, events, target);
        }
        match (before.state.stage, events.last()) {
            (Stage::Offline, Event::OfflineSetting { offline }) => {
                the_beginning_settles_what_was_wanted(setting, events, offline);
            },
            (Stage::Latest, Event::Latest { reply }) => {
                if let Ok(version) = release::latest_of(setting.release, reply) {
                    assert(events[events.len() - 1] == events.last());
                    assert(was_told_latest(setting, events, version));
                }
            },
            _ => {},
        }
    }
}

/// The latest version is asked for below the release page.
pub proof fn the_latest_version_is_asked_of_the_release_page(
    setting: SettingModel,
    events: Seq<EventModel>,
)
    requires
        self_update_laws::is_run(setting, events),
    ensures
        self_update_laws::run(setting, events).action matches Action::FetchLatest { url } ==> url
            == setting.release.releases_url + "/latest"@,
{
    if events.len() > 0 {
        self_update_laws::every_step_is_sound(setting, events.drop_last());
    }
}

/// Release notes are asked of the API, under the tag of the target where there is
/// one and at the endpoint for the latest release otherwise, and only where
/// somebody wants to see them and there is something new to tell.
pub proof fn notes_are_asked_of_the_api(
    setting: SettingModel,
    events: Seq<EventModel>,
    url: Seq<char>,
)
    requires
        self_update_laws::is_run(setting, events),
        self_update_laws::run(setting, events).action == (Action::<
            Seq<char>,
            Seq<u8>,
        >::FetchReleaseNotes { url }),
    ensures
        !setting.args.no_release_note,
        !setting.quiet,
        target_of(self_update_laws::run(setting, events).state.stage) matches Some(target) && ({
            &&& !is_current(setting, target)
            &&& target is None ==> url == setting.release.releases_api_latest
            &&& target matches Some(version) ==> {
                &&& (setting.release.releases_api_by_tag + "/"@).is_prefix_of(url)
                &&& ("/"@ + setting.release.release_tag_prefix + version::version_display(
                    version,
                )).is_suffix_of(url)
            }
        }),
{
    notes_are_asked_for_under_the_tag(setting, events);
    self_update_laws::every_step_is_sound(setting, events);
    let target = target_of(self_update_laws::run(setting, events).state.stage)->0;
    release_laws::releases_are_described_under_their_tag(setting.release, target, Seq::empty());
    if let Some(version) = target {
        let shown = version::version_display(version);
        assert("/"@ + (setting.release.release_tag_prefix + shown) =~= "/"@
            + setting.release.release_tag_prefix + shown);
    }
}

/// The archive is downloaded from below the page that was given, wherever one was
/// given, and from below the release page otherwise. It is the asset for this
/// machine, under the tag of the target where there is one and of the latest
/// release otherwise.
pub proof fn the_archive_comes_from_the_given_page(
    setting: SettingModel,
    events: Seq<EventModel>,
    url: Seq<char>,
)
    requires
        self_update_laws::is_run(setting, events),
        self_update_laws::run(setting, events).action == (Action::<Seq<char>, Seq<u8>>::Download {
            url,
        }),
    ensures
        setting.args.from_url matches Some(page) ==> (page + "/"@).is_prefix_of(url),
        setting.args.from_url is None ==> (setting.release.releases_url + "/"@).is_prefix_of(url),
        setting.asset matches Ok(asset) && ({
            &&& ("/"@ + asset).is_suffix_of(url)
            &&& target_of(self_update_laws::run(setting, events).state.stage) matches Some(target)
                && ({
                &&& target matches Some(version) ==> ("/download/"@
                    + setting.release.release_tag_prefix + version::version_display(version) + "/"@
                    + asset).is_suffix_of(url)
                &&& target is None ==> ("/latest/download/"@ + asset).is_suffix_of(url)
            })
        }),
{
    downloads_are_assets(setting, events);
    release_laws::assets_come_from_the_given_page(
        setting.release,
        setting.args.from_url,
        target_of(self_update_laws::run(setting, events).state.stage)->0,
        setting.asset->Ok_0,
    );
}

proof fn notes_are_asked_for_under_the_tag(setting: SettingModel, events: Seq<EventModel>)
    requires
        self_update_laws::is_run(setting, events),
        self_update_laws::run(setting, events).action is FetchReleaseNotes,
    ensures
        ({
            let step = self_update_laws::run(setting, events);
            let target = target_of(step.state.stage);
            &&& target is Some
            &&& step.action == Action::<Seq<char>, Seq<u8>>::FetchReleaseNotes {
                url: release::description_url(setting.release, target->0),
            }
            &&& !setting.args.no_release_note
        }),
{
    if events.len() > 0 {
        self_update_laws::every_step_is_sound(setting, events.drop_last());
    }
}

proof fn downloads_are_assets(setting: SettingModel, events: Seq<EventModel>)
    requires
        self_update_laws::is_run(setting, events),
        self_update_laws::run(setting, events).action is Download,
    ensures
        ({
            let step = self_update_laws::run(setting, events);
            let target = target_of(step.state.stage);
            &&& target is Some
            &&& setting.asset is Ok
            &&& step.action == Action::<Seq<char>, Seq<u8>>::Download {
                url: release::asset_url(
                    setting.release,
                    setting.args.from_url,
                    target->0,
                    setting.asset->Ok_0,
                ),
            }
        }),
{
    if events.len() > 0 {
        self_update_laws::every_step_is_sound(setting, events.drop_last());
    }
}

/// Where a page was given, the release page plays no part in a download, whether
/// or not the target is known.
pub proof fn a_given_page_decides_the_download(
    setting: SettingModel,
    page: Seq<char>,
    releases_url: Seq<char>,
    messages: Seq<Message<Seq<char>>>,
    target: Option<Seq<char>>,
    current: Seq<char>,
    warning: Option<Seq<char>>,
    change: Seq<char>,
)
    requires
        setting.args.from_url == Some(page),
        setting.asset is Ok,
    ensures
        ({
            let elsewhere = Setting {
                release: release::Release { releases_url, ..setting.release },
                ..setting
            };
            let one = self_update::proceeding(
                setting,
                messages,
                target,
                current,
                warning,
                change,
            );
            let other = self_update::proceeding(
                elsewhere,
                messages,
                target,
                current,
                warning,
                change,
            );
            &&& one.action is Download
            &&& one.action == other.action
            &&& one.messages == other.messages
            &&& one.state.stage == other.state.stage
        }),
{
    release_laws::a_given_page_stands_for_the_release_page(
        setting.release,
        releases_url,
        page,
        target,
        setting.asset->Ok_0,
    );
}

/// Before a download that was not forced the user is told of it, last of all:
/// from which version to which, and whether that is an update or a downgrade.
pub proof fn a_download_is_announced(
    setting: SettingModel,
    events: Seq<EventModel>,
    target: Seq<char>,
)
    requires
        self_update_laws::is_run(setting, events),
        self_update_laws::run(setting, events).action is Download,
        target_of(self_update_laws::run(setting, events).state.stage) == Some(Some(target)),
        !setting.quiet,
        !setting.args.force,
    ensures
        ({
            let step = self_update_laws::run(setting, events);
            let change = if is_below(setting, Some(target)) {
                "downgraded"@
            } else {
                "updated"@
            };
            &&& step.messages.len() > 0
            &&& step.messages.last() == Message::Status {
                icon: Icon::Done,
                text: "Pixi will be "@ + change + " from "@ + version::version_display(
                    setting.release.pixi_version,
                ) + " to "@ + version::version_display(target),
            }
        }),
{
    if events.len() > 0 {
        self_update_laws::every_step_is_sound(setting, events.drop_last());
    }
}

/// A forced download is not announced: all that is shown before it are release
/// notes, and the warning about the version that was asked for.
pub proof fn a_forced_download_is_not_announced(
    setting: SettingModel,
    events: Seq<EventModel>,
    i: int,
)
    requires
        self_update_laws::is_run(setting, events),
        self_update_laws::run(setting, events).action is Download,
        setting.args.force,
        0 <= i < self_update_laws::run(setting, events).messages.len(),
    ensures
        ({
            let shown = self_update_laws::run(setting, events).messages[i];
            shown is ReleaseNotes || (shown matches Message::Status { icon, .. } && icon
                == Icon::Warning)
        }),
{
    if events.len() > 0 {
        self_update_laws::every_step_is_sound(setting, events.drop_last());
    }
}

/// The offline setting counts alike whether the arguments or the configuration
/// give it, and the configuration is asked only where the arguments are silent.
pub proof fn arguments_and_configuration_count_alike(setting: SettingModel, offline: bool)
    requires
        setting.args.offline == Some(offline),
    ensures
        ({
            let silent = Setting {
                args: Args { offline: None, ..setting.args },
                ..setting
            };
            let given = self_update::started(setting);
            let asked = self_update::started(silent);
            let told = self_update::next_step(asked.state, Event::OfflineSetting { offline });
            &&& asked.action is LoadOfflineSetting
            &&& !(given.action is LoadOfflineSetting)
            &&& given.action == told.action
            &&& given.messages == told.messages
            &&& given.state.stage == told.state.stage
        }),
{
}

/// A question names both versions, and asks about going back.
pub proof fn a_question_names_both_versions(
    setting: SettingModel,
    events: Seq<EventModel>,
    target: Seq<char>,
    prompt: Seq<char>,
)
    requires
        self_update_laws::is_run(setting, events),
        self_update_laws::run(setting, events).action == (Action::<Seq<char>, Seq<u8>>::Confirm {
            prompt,
        }),
        target_of(self_update_laws::run(setting, events).state.stage) == Some(Some(target)),
    ensures
        is_below(setting, Some(target)),
        text::contains_text(
            prompt,
            "Current version ("@ + version::version_display(setting.release.pixi_version)
                + ") is more recent than remote ("@ + version::version_display(target) + ")"@,
        ),
        "Do you want to downgrade?"@.is_suffix_of(prompt),
{
    questions_are_about_downgrades(setting, events);
    prompts_name_both_versions(
        version::version_display(setting.release.pixi_version),
        version::version_display(target),
    );
}

proof fn questions_are_about_downgrades(setting: SettingModel, events: Seq<EventModel>)
    requires
        self_update_laws::is_run(setting, events),
        self_update_laws::run(setting, events).action is Confirm,
    ensures
        target_of(self_update_laws::run(setting, events).state.stage) matches Some(Some(target))
            && ({
            &&& is_below(setting, Some(target))
            &&& self_update_laws::run(setting, events).action == Action::<
                Seq<char>,
                Seq<u8>,
            >::Confirm {
                prompt: "\nCurrent version ("@ + version::version_display(
                    setting.release.pixi_version,
                ) + ") is more recent than remote ("@ + version::version_display(target)
                    + "). Do you want to downgrade?"@,
            }
        }),
{
    self_update_laws::every_step_is_sound(setting, events);
    if events.len() > 0 {
        self_update_laws::every_step_is_sound(setting, events.drop_last());
    }
}

proof fn prompts_name_both_versions(now: Seq<char>, next: Seq<char>)
    ensures
        ({
            let prompt = "\nCurrent version ("@ + now + ") is more recent than remote ("@ + next
                + "). Do you want to downgrade?"@;
            &&& text::contains_text(
                prompt,
                "Current version ("@ + now + ") is more recent than remote ("@ + next + ")"@,
            )
            &&& "Do you want to downgrade?"@.is_suffix_of(prompt)
        }),
{
    let prompt = "\nCurrent version ("@ + now + ") is more recent than remote ("@ + next
        + "). Do you want to downgrade?"@;
    reveal_strlit("\nCurrent version (");
    reveal_strlit("Current version (");
    reveal_strlit(")");
    reveal_strlit("). Do you want to downgrade?");
    reveal_strlit("Do you want to downgrade?");
    let part = "Current version ("@ + now + ") is more recent than remote ("@ + next + ")"@;
    let head = "\nCurrent version ("@.take(1);
    let tail = "). Do you want to downgrade?"@.skip(1);
    assert(prompt =~= head + part + tail);
    text_laws::ends_stand_in_the_text(head, part, tail);
    let question = "Do you want to downgrade?"@;
    assert(prompt.subrange(prompt.len() - question.len(), prompt.len() as int) =~= question);
}

/// What a reply that puts an end to an update leads to: an answer of no ends it
/// well and says nothing, and a failure ends it with what went wrong. A refused
/// download names the address and the status.
pub proof fn an_update_ends_as_it_was_answered(state: StateModel, event: EventModel)
    requires
        self_update::fits(state.stage, event),
    ensures
        ({
            let setting = state.setting;
            let step = self_update::next_step(state, event);
            &&& event matches Event::OfflineSetting { offline } ==> (offline <==> step.action
                matches Action::Finish(Err(UpdateError::NetworkRequired { .. })))
            &&& event matches Event::Latest { reply } ==> (release::latest_of(
                setting.release,
                reply,
            ) matches Err(message) ==> ends_with(step, message))
            &&& event matches Event::Answered { consent } ==> {
                &&& !consent ==> ends_well(step) && step.messages.len() == 0
                &&& consent ==> (setting.asset is Ok ==> step.action is Download)
                &&& target_of(step.state.stage) is Some ==> target_of(step.state.stage)
                    == target_of(state.stage)
            }
            &&& event matches Event::NotAnswered { error } ==> ends_with(step, error)
            &&& event matches Event::Archive { reply: ArchiveReply::Refused { status } } ==> {
                &&& step.action matches Action::Finish(Err(UpdateError::Failed { message }))
                    && status.is_suffix_of(message) && (state.stage matches Stage::Archive {
                    url,
                    ..
                } && text::contains_text(message, url))
            }
            &&& event matches Event::Archive { reply: ArchiveReply::Failed { error } }
                ==> ends_with(step, error)
            &&& event matches Event::Archive { reply: ArchiveReply::Received { data } } ==> {
                &&& release::gzip_reading(data) matches Ok(binary) ==> step.action == Action::<
                    Seq<char>,
                    Seq<u8>,
                >::ReplaceBinary { binary } && target_of(step.state.stage) == target_of(
                    state.stage,
                )
                &&& release::gzip_reading(data) matches Err(message) ==> ends_with(step, message)
            }
            &&& event is Replaced ==> ends_well(step)
            &&& event matches Event::NotReplaced { error } ==> ends_with(step, error)
        }),
{
    match event {
        Event::Archive { reply: ArchiveReply::Refused { status } } => {
            if let Stage::Archive { url, .. } = state.stage {
                let message = "URL "@ + url + " returned "@ + status;
                assert(message =~= "URL "@ + url + (" returned "@ + status));
                text_laws::ends_stand_in_the_text("URL "@, url, " returned "@ + status);
                assert(message.subrange(message.len() - status.len(), message.len() as int)
                    =~= status);
            }
        },
        _ => {},
    }
}

/// When the latest version was asked for on a dry run, the update ends by telling
/// how it ranks.
pub proof fn a_dry_run_ends_by_telling(
    setting: SettingModel,
    events: Seq<EventModel>,
    reply: LatestReply<Seq<char>>,
    latest: Seq<char>,
)
    requires
        self_update_laws::is_run(setting, events),
        self_update_laws::run(setting, events).state.stage is DryRunLatest,
        release::latest_of(setting.release, reply) == Ok::<Seq<char>, Seq<char>>(latest),
    ensures
        ({
            let step = self_update::next_step(
                self_update_laws::run(setting, events).state,
                Event::Latest { reply },
            );
            &&& ends_well(step)
            &&& step.messages == seq![
                release::dry_run_outcome(setting.release.pixi_version, latest),
            ]
        }),
{
    self_update_laws::every_step_is_sound(setting, events);
}

/// The steps of an update that goes through are told in order: the download, the
/// unpacking, and the version that is in place, or that it is the latest.
pub proof fn success_is_told(before: StateModel, data: Seq<u8>)
    requires
        before.stage is Archive,
        release::gzip_reading(data) is Ok,
        !before.setting.quiet,
    ensures
        ({
            let unpacked = self_update::next_step(
                before,
                Event::Archive { reply: ArchiveReply::Received { data } },
            );
            let over = self_update::next_step(unpacked.state, Event::Replaced);
            let target = target_of(before.stage)->0;
            &&& unpacked.messages == seq![
                Message::Status { icon: Icon::Done, text: "Pixi archive downloaded."@ },
                Message::Status { icon: Icon::Done, text: "Pixi archive uncompressed."@ },
            ]
            &&& over.messages.len() > 0
            &&& over.messages[0] matches Message::Status { icon, text: told } && ({
                &&& icon == Icon::Done
                &&& target matches Some(version) ==> told == "Pixi has been updated to version "@
                    + version::version_display(version) + "."@
                &&& target is None ==> told == "Pixi has been updated to latest release."@
            })
        }),
{
    let unpacked = self_update::next_step(
        before,
        Event::Archive { reply: ArchiveReply::Received { data } },
    );
    assert(unpacked.messages =~= seq![
        Message::Status { icon: Icon::Done, text: "Pixi archive downloaded."@ },
        Message::Status { icon: Icon::Done, text: "Pixi archive uncompressed."@ },
    ]);
}

/// An archive that cannot be unpacked was still downloaded, and that is told.
pub proof fn a_broken_archive_was_downloaded(before: StateModel, data: Seq<u8>)
    requires
        before.stage is Archive,
        release::gzip_reading(data) is Err,
    ensures
        ({
            let step = self_update::next_step(
                before,
                Event::Archive { reply: ArchiveReply::Received { data } },
            );
            &&& ends_with(step, release::gzip_reading(data)->Err_0)
            &&& before.setting.quiet ==> step.messages.len() == 0
            &&& !before.setting.quiet ==> step.messages == seq![
                Message::Status { icon: Icon::Done, text: "Pixi archive downloaded."@ },
            ]
        }),
{
    let step = self_update::next_step(
        before,
        Event::Archive { reply: ArchiveReply::Received { data } },
    );
    if !before.setting.quiet {
        assert(step.messages =~= seq![
            Message::Status { icon: Icon::Done, text: "Pixi archive downloaded."@ },
        ]);
    }
}

/// The warning that an update at `stage` carries to its end.
pub open spec fn warning_of(stage: Stage<Seq<char>, Seq<char>>) -> Option<Seq<char>> {
    match stage {
        Stage::Consent { warning, .. } => warning,
        Stage::Archive { warning, .. } => warning,
        Stage::Replacement { warning, .. } => warning,
        _ => None,
    }
}

/// Whether one of `events` tells that there are no release notes, for the reason
/// `error`.
pub open spec fn notes_were_lost(events: Seq<EventModel>, error: Seq<char>) -> bool {
    exists|i: int|
        0 <= i < events.len() && {
            ||| #[trigger] events[i] == Event::<Seq<char>, Seq<u8>>::Notes {
                reply: NotesReply::Failed { error },
            }
            ||| events[i] matches Event::Notes { reply: NotesReply::Refused { status } } && error
                == "Status code "@ + status
        }
}

/// Whether all release notes that were asked for came.
pub open spec fn notes_came(events: Seq<EventModel>) -> bool {
    forall|i: int|
        0 <= i < events.len() ==> (#[trigger] events[i] matches Event::Notes { reply }
            ==> reply is Described)
}

/// Whether `warning` tells of release notes that were lost, and none does where
/// they came.
pub open spec fn warns_of_lost_notes(
    setting: SettingModel,
    events: Seq<EventModel>,
    target: Option<Seq<char>>,
    warning: Option<Seq<char>>,
) -> bool {
    match warning {
        Some(warning) => exists|error: Seq<char>| #[trigger]
            notes_were_lost(events, error) && warning == release::notes_warning_text(
                setting.release,
                target,
                error,
            ),
        None => notes_came(events),
    }
}

proof fn warnings_are_kept(
    setting: SettingModel,
    events: Seq<EventModel>,
    target: Option<Seq<char>>,
    warning: Option<Seq<char>>,
)
    requires
        events.len() > 0,
        !(events.last() is Notes),
        warns_of_lost_notes(setting, events.drop_last(), target, warning),
    ensures
        warns_of_lost_notes(setting, events, target, warning),
{
    let fewer = events.drop_last();
    match warning {
        Some(text) => {
            let error = choose|error: Seq<char>| #[trigger]
                notes_were_lost(fewer, error) && text == release::notes_warning_text(
                    setting.release,
                    target,
                    error,
                );
            let i = choose|i: int|
                0 <= i < fewer.len() && {
                    ||| #[trigger] fewer[i] == Event::<Seq<char>, Seq<u8>>::Notes {
                        reply: NotesReply::Failed { error },
                    }
                    ||| fewer[i] matches Event::Notes { reply: NotesReply::Refused { status } }
                        && error == "Status code "@ + status
                };
            assert(events[i] == fewer[i]);
            assert(notes_were_lost(events, error));
        },
        None => {
            assert forall|i: int| 0 <= i < events.len() implies (
            #[trigger] events[i] matches Event::Notes { reply } ==> reply is Described) by {
                if i < events.len() - 1 {
                    assert(events[i] == fewer[i]);
                }
            }
        },
    }
}

/// Before the release notes are asked for, none came and none were lost. After
/// that the warning of an update tells what went wrong with them and where to
/// look, and there is none where they came or nobody asked for them.
pub proof fn lost_notes_are_remembered(setting: SettingModel, events: Seq<EventModel>)
    requires
        self_update_laws::is_run(setting, events),
    ensures
        ({
            let stage = self_update_laws::run(setting, events).state.stage;
            &&& stage is Offline || stage is Latest || stage is Notes ==> notes_came(events)
            &&& stage is Consent || stage is Archive || stage is Replacement
                ==> warns_of_lost_notes(setting, events, target_of(stage)->0, warning_of(stage))
        }),
    decreases events.len(),
{
    if events.len() > 0 {
        let fewer = events.drop_last();
        let before = self_update_laws::run(setting, fewer);
        self_update_laws::every_step_is_sound(setting, fewer);
        lost_notes_are_remembered(setting, fewer);
        one_more_reply_is_remembered(setting, before.state, events);
    }
}

proof fn one_more_reply_is_remembered(
    setting: SettingModel,
    before: StateModel,
    events: Seq<EventModel>,
)
    requires
        events.len() > 0,
        before.setting == setting,
        self_update::fits(before.stage, events.last()),
        before.stage is Offline || before.stage is Latest || before.stage is Notes ==> notes_came(
            events.drop_last(),
        ),
        before.stage is Consent || before.stage is Archive || before.stage is Replacement
            ==> warns_of_lost_notes(
            setting,
            events.drop_last(),
            target_of(before.stage)->0,
            warning_of(before.stage),
        ),
    ensures
        ({
            let stage = self_update::next_step(before, events.last()).state.stage;
            &&& stage is Offline || stage is Latest || stage is Notes ==> notes_came(events)
            &&& stage is Consent || stage is Archive || stage is Replacement
                ==> warns_of_lost_notes(setting, events, target_of(stage)->0, warning_of(stage))
        }),
{
    let fewer = events.drop_last();
    let after = self_update::next_step(before, events.last()).state.stage;
    match events.last() {
        Event::Notes { reply } => {
            let target = target_of(before.stage)->0;
            match release::notes_of(target, reply) {
                Ok(_) => {
                    assert forall|i: int| 0 <= i < events.len() implies (
                    #[trigger] events[i] matches Event::Notes { reply }
                        ==> reply is Described) by {
                        if i < events.len() - 1 {
                            assert(events[i] == fewer[i]);
                        }
                    }
                    assert(notes_came(events));
                },
                Err(error) => {
                    assert(events[events.len() - 1] == events.last());
                    assert(notes_were_lost(events, error));
                },
            }
        },
        _ => {
            let target = target_of(after)->0;
            if before.stage is Consent || before.stage is Archive || before.stage is Replacement {
                warnings_are_kept(
                    setting,
                    events,
                    target_of(before.stage)->0,
                    warning_of(before.stage),
                );
            } else if !(before.stage is DryRunLatest) {
                warnings_are_kept(setting, events, target, None);
            }
        },
    }
}

/// Once the binary is in place, the user is warned of release notes that were
/// lost: last of all, and nothing is logged otherwise.
pub proof fn lost_notes_are_told_at_the_end(setting: SettingModel, events: Seq<EventModel>)
    requires
        self_update_laws::is_run(setting, events),
        self_update_laws::run(setting, events).state.stage is Replacement,
    ensures
        ({
            let before = self_update_laws::run(setting, events).state;
            let over = self_update::next_step(before, Event::Replaced);
            let target = target_of(before.stage)->0;
            &&& !notes_came(events) ==> {
                &&& over.messages.len() > 0
                &&& over.messages.last() matches Message::Logged { icon, text: warning } && ({
                    &&& icon == Icon::Warning
                    &&& release::release_page(setting.release, target).is_suffix_of(warning)
                    &&& exists|error: Seq<char>| #[trigger]
                        notes_were_lost(events, error) && text::contains_text(
                            warning,
                            "("@ + error + ")"@,
                        )
                })
            }
            &&& notes_came(events) && warning_of(before.stage) is None ==> forall|i: int|
                0 <= i < over.messages.len() ==> !(#[trigger] over.messages[i] is Logged)
        }),
{
    let before = self_update_laws::run(setting, events).state;
    lost_notes_are_remembered(setting, events);
    let target = target_of(before.stage)->0;
    if let Some(warning) = warning_of(before.stage) {
        let error = choose|error: Seq<char>| #[trigger]
            notes_were_lost(events, error) && warning == release::notes_warning_text(
                setting.release,
                target,
                error,
            );
        release_laws::releases_are_described_under_their_tag(setting.release, target, error);
    }
}

/// A line is added behind the others where the user wants to see it, and
/// nothing is added where they want quiet.
pub proof fn lines_are_shown_unless_quiet(
    setting: SettingModel,
    messages: Seq<Message<Seq<char>>>,
    icon: Icon,
    line: Seq<char>,
)
    ensures
        ({
            let shown = self_update::told(setting, messages, icon, line);
            &&& setting.quiet ==> shown == messages
            &&& !setting.quiet ==> {
                &&& shown.len() == messages.len() + 1
                &&& shown.last() == Message::Status { icon, text: line }
                &&& shown.drop_last() == messages
            }
        }),
{
    let shown = self_update::told(setting, messages, icon, line);
    if !setting.quiet {
        assert(shown.drop_last() =~= messages);
    }
}

/// An event fits where it is the reply to what was asked for.
pub proof fn replies_fit_their_requests(
    setting: SettingModel,
    events: Seq<EventModel>,
    event: EventModel,
)
    requires
        self_update_laws::is_run(setting, events),
    ensures
        ({
            let step = self_update_laws::run(setting, events);
            self_update::fits(step.state.stage, event) <==> match step.action {
                Action::LoadOfflineSetting => event is OfflineSetting,
                Action::FetchLatest { .. } => event is Latest,
                Action::FetchReleaseNotes { .. } => event is Notes,
                Action::Confirm { .. } => event is Answered || event is NotAnswered,
                Action::Download { .. } => event is Archive,
                Action::ReplaceBinary { .. } => event is Replaced || event is NotReplaced,
                Action::Finish(_) => false,
            }
        }),
{
    self_update_laws::every_step_is_sound(setting, events);
}

} // verus!
