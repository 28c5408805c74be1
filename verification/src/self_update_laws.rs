//! What holds of every run of an update, whatever is answered to its requests.

use vstd::prelude::*;

use crate::release;
use crate::release::NotesReply;
use crate::self_update;
use crate::self_update::{
    Action, ArchiveReply, Event, SelfUpdate, SettingModel, Stage, StateModel, StepModel,
    UpdateError,
};

verus! {

/// An event, in terms of characters and bytes.
pub type EventModel = Event<Seq<char>, Seq<u8>>;

/// The step that an update has reached after `events`.
pub open spec fn run(setting: SettingModel, events: Seq<EventModel>) -> StepModel
    decreases events.len(),
{
    if events.len() == 0 {
        self_update::started(setting)
    } else {
        self_update::next_step(run(setting, events.drop_last()).state, events.last())
    }
}

/// Whether each of `events` answers the request that was made before it.
pub open spec fn is_run(setting: SettingModel, events: Seq<EventModel>) -> bool
    decreases events.len(),
{
    events.len() > 0 ==> {
        &&& is_run(setting, events.drop_last())
        &&& self_update::fits(run(setting, events.drop_last()).state.stage, events.last())
    }
}

/// How many more replies an update can ask for at `stage`, at most.
pub open spec fn replies_left(stage: Stage<Seq<char>, Seq<char>>) -> nat {
    match stage {
        Stage::Offline => 6,
        Stage::Latest => 5,
        Stage::Notes { .. } => 4,
        Stage::DryRunLatest { .. } => 3,
        Stage::Consent { .. } => 3,
        Stage::Archive { .. } => 2,
        Stage::Replacement { .. } => 1,
        Stage::Finished => 0,
    }
}

/// Whether a target may be missing: only where the latest release is forced.
pub open spec fn target_allowed(setting: SettingModel, target: Option<Seq<char>>) -> bool {
    target is None ==> setting.args.force && setting.args.version is None
}

/// What is known of an update that waits at `stage` for the reply to `action`.
pub open spec fn stage_is_sound(
    setting: SettingModel,
    stage: Stage<Seq<char>, Seq<char>>,
    action: Action<Seq<char>, Seq<u8>>,
) -> bool {
    let current_version = setting.release.pixi_version;
    match stage {
        Stage::Offline => setting.args.offline is None && action is LoadOfflineSetting,
        Stage::Latest => {
            &&& setting.args.version is None
            &&& !setting.args.force
            &&& action is FetchLatest
        },
        Stage::Notes { target, current } => {
            &&& current == current_version
            &&& target_allowed(setting, target)
            &&& !self_update::is_up_to_date(target, current)
            &&& !setting.quiet
            &&& action is FetchReleaseNotes
        },
        Stage::DryRunLatest { current } => {
            &&& current == current_version
            &&& setting.args.dry_run
            &&& !setting.quiet
            &&& action is FetchLatest
        },
        Stage::Consent { target, current, warning } => {
            &&& current == current_version
            &&& !setting.args.dry_run
            &&& !setting.args.force
            &&& setting.args.version is None
            &&& self_update::is_older(Some(target), current)
            &&& !self_update::is_up_to_date(Some(target), current)
            &&& setting.quiet ==> warning is None
            &&& action is Confirm
        },
        Stage::Archive { target, warning, url } => {
            &&& !setting.args.dry_run
            &&& target_allowed(setting, target)
            &&& !self_update::is_up_to_date(target, current_version)
            &&& setting.quiet ==> warning is None
            &&& action == Action::<Seq<char>, Seq<u8>>::Download { url }
        },
        Stage::Replacement { target, warning } => {
            &&& !setting.args.dry_run
            &&& target_allowed(setting, target)
            &&& !self_update::is_up_to_date(target, current_version)
            &&& setting.quiet ==> warning is None
            &&& action is ReplaceBinary
        },
        Stage::Finished => action is Finish,
    }
}

/// What holds of every step that a run reaches: it keeps its setting, waits for
/// the reply to what it asks for, and shows nothing where the user wants quiet.
pub open spec fn step_is_sound(setting: SettingModel, step: StepModel) -> bool {
    &&& step.state.setting == setting
    &&& stage_is_sound(setting, step.state.stage, step.action)
    &&& setting.quiet ==> step.messages.len() == 0
}

proof fn settled_notes_are_sound(
    setting: SettingModel,
    messages: Seq<release::Message<Seq<char>>>,
    target: Option<Seq<char>>,
    warning: Option<Seq<char>>,
)
    requires
        target_allowed(setting, target),
        setting.quiet ==> messages.len() == 0 && warning is None,
    ensures
        step_is_sound(
            setting,
            self_update::notes_settled(
                setting,
                messages,
                target,
                setting.release.pixi_version,
                warning,
            ),
        ),
        replies_left(
            self_update::notes_settled(
                setting,
                messages,
                target,
                setting.release.pixi_version,
                warning,
            ).state.stage,
        ) <= 3,
{
}

proof fn a_known_target_is_sound(
    setting: SettingModel,
    messages: Seq<release::Message<Seq<char>>>,
    target: Option<Seq<char>>,
)
    requires
        target_allowed(setting, target),
        setting.quiet ==> messages.len() == 0,
    ensures
        step_is_sound(setting, self_update::target_known(setting, messages, target)),
        replies_left(self_update::target_known(setting, messages, target).state.stage) <= 4,
{
    settled_notes_are_sound(setting, messages, target, None);
}

proof fn the_beginning_is_sound(setting: SettingModel, offline: bool)
    ensures
        step_is_sound(setting, self_update::offline_known(setting, offline)),
        replies_left(self_update::offline_known(setting, offline).state.stage) <= 5,
{
    let none = Seq::<release::Message<Seq<char>>>::empty();
    if setting.args.version is Some || setting.args.force {
        a_known_target_is_sound(setting, none, setting.args.version);
    }
    if let Some(desired) = setting.args.version {
        let shown = crate::version::version_display(desired);
        if let Some(bare) = crate::text::after_prefix(shown, "v"@) {
            let messages = self_update::told(
                setting,
                none,
                release::Icon::Warning,
                "Warning: Leading 'v' removed from version "@ + shown,
            );
            a_known_target_is_sound(setting, messages, Some(bare));
        }
    }
}

proof fn the_next_step_is_sound(setting: SettingModel, before: StepModel, event: EventModel)
    requires
        step_is_sound(setting, before),
        self_update::fits(before.state.stage, event),
    ensures
        step_is_sound(setting, self_update::next_step(before.state, event)),
        replies_left(self_update::next_step(before.state, event).state.stage) < replies_left(
            before.state.stage,
        ),
{
    let none = Seq::<release::Message<Seq<char>>>::empty();
    match (before.state.stage, event) {
        (Stage::Offline, Event::OfflineSetting { offline }) => {
            the_beginning_is_sound(setting, offline);
        },
        (Stage::Latest, Event::Latest { reply }) => {
            if let Ok(target) = release::latest_of(setting.release, reply) {
                a_known_target_is_sound(setting, none, Some(target));
            }
        },
        (Stage::Notes { target, current }, Event::Notes { reply }) => {
            match release::notes_of(target, reply) {
                Ok(notes) => {
                    settled_notes_are_sound(
                        setting,
                        seq![release::Message::ReleaseNotes { text: notes }],
                        target,
                        None,
                    );
                },
                Err(error) => {
                    settled_notes_are_sound(
                        setting,
                        none,
                        target,
                        Some(release::notes_warning_text(setting.release, target, error)),
                    );
                },
            }
        },
        _ => {},
    }
}

/// Every step that a run reaches is sound, and fewer replies are left with each.
pub proof fn every_step_is_sound(setting: SettingModel, events: Seq<EventModel>)
    requires
        is_run(setting, events),
    ensures
        step_is_sound(setting, run(setting, events)),
        replies_left(run(setting, events).state.stage) + events.len() <= 6,
    decreases events.len(),
{
    if events.len() > 0 {
        every_step_is_sound(setting, events.drop_last());
        the_next_step_is_sound(setting, run(setting, events.drop_last()), events.last());
    } else {
        if let Some(offline) = setting.args.offline {
            the_beginning_is_sound(setting, offline);
        }
    }
}

/// A run asks for at most six replies.
pub proof fn a_run_ends(setting: SettingModel, events: Seq<EventModel>)
    requires
        is_run(setting, events),
    ensures
        events.len() <= 6,
        events.len() == 6 ==> run(setting, events).action is Finish,
{
    every_step_is_sound(setting, events);
}

/// A dry run neither downloads anything nor touches the binary, and asks no
/// question.
pub proof fn a_dry_run_changes_nothing(setting: SettingModel, events: Seq<EventModel>)
    requires
        is_run(setting, events),
        setting.args.dry_run,
    ensures
        !(run(setting, events).action is Download),
        !(run(setting, events).action is ReplaceBinary),
        !(run(setting, events).action is Confirm),
{
    every_step_is_sound(setting, events);
}

/// Where the user wants quiet, no step shows anything.
pub proof fn quiet_shows_nothing(setting: SettingModel, events: Seq<EventModel>)
    requires
        is_run(setting, events),
        setting.quiet,
    ensures
        run(setting, events).messages == Seq::<release::Message<Seq<char>>>::empty(),
{
    every_step_is_sound(setting, events);
}

/// Offline, an update fails at once: it asks for nothing but, where the
/// arguments are silent, the configured setting.
pub proof fn offline_fails_fast(setting: SettingModel)
    ensures
        setting.args.offline == Some(true) ==> self_update::started(setting).action == Action::<
            Seq<char>,
            Seq<u8>,
        >::Finish(Err(UpdateError::NetworkRequired { command: "pixi self-update"@ })),
        setting.args.offline is None ==> {
            let asked = self_update::started(setting);
            &&& asked.action is LoadOfflineSetting
            &&& self_update::next_step(
                asked.state,
                Event::OfflineSetting { offline: true },
            ).action == Action::<Seq<char>, Seq<u8>>::Finish(
                Err(UpdateError::NetworkRequired { command: "pixi self-update"@ }),
            )
        },
{
}

/// `stage` without the warning that it carries.
pub open spec fn without_warning(stage: Stage<Seq<char>, Seq<char>>) -> Stage<
    Seq<char>,
    Seq<char>,
> {
    match stage {
        Stage::Consent { target, current, warning } => Stage::Consent {
            target,
            current,
            warning: None,
        },
        Stage::Archive { target, warning, url } => Stage::Archive { target, warning: None, url },
        Stage::Replacement { target, warning } => Stage::Replacement { target, warning: None },
        other => other,
    }
}

/// Whether the release notes can be had changes nothing of what an update does:
/// only a warning is left for its end.
pub proof fn notes_do_not_decide(
    state: StateModel,
    one: NotesReply<Seq<char>>,
    other: NotesReply<Seq<char>>,
)
    requires
        state.stage is Notes,
    ensures
        self_update::next_step(state, Event::Notes { reply: one }).action
            == self_update::next_step(state, Event::Notes { reply: other }).action,
        without_warning(
            self_update::next_step(state, Event::Notes { reply: one }).state.stage,
        ) == without_warning(
            self_update::next_step(state, Event::Notes { reply: other }).state.stage,
        ),
{
}

/// Whether two series of events differ in nothing but the replies to requests
/// for release notes.
pub open spec fn differ_in_notes(one: Seq<EventModel>, other: Seq<EventModel>) -> bool {
    &&& one.len() == other.len()
    &&& forall|i: int|
        0 <= i < one.len() ==> #[trigger] one[i] == #[trigger] other[i] || (one[i] is Notes
            && other[i] is Notes)
}

/// Whether two steps ask for the same and wait for the same, whatever they show
/// and whatever warning they carry.
pub open spec fn do_the_same(one: StepModel, other: StepModel) -> bool {
    &&& one.action == other.action
    &&& one.state.setting == other.state.setting
    &&& without_warning(one.state.stage) == without_warning(other.state.stage)
}

proof fn a_warning_does_not_decide(one: StateModel, other: StateModel, event: EventModel)
    requires
        one.setting == other.setting,
        without_warning(one.stage) == without_warning(other.stage),
    ensures
        self_update::fits(one.stage, event) == self_update::fits(other.stage, event),
        do_the_same(self_update::next_step(one, event), self_update::next_step(other, event)),
{
}

/// Two runs whose replies differ only in the release notes ask for the same
/// work, from their start to their end: the second is a run if the first is,
/// and each of its steps does the same.
pub proof fn notes_do_not_decide_a_run(
    setting: SettingModel,
    one: Seq<EventModel>,
    other: Seq<EventModel>,
)
    requires
        is_run(setting, one),
        differ_in_notes(one, other),
    ensures
        is_run(setting, other),
        forall|i: int|
            0 <= i <= one.len() ==> do_the_same(
                #[trigger] run(setting, one.take(i)),
                run(setting, other.take(i)),
            ),
    decreases one.len(),
{
    let last = one.len() as int;
    assert(one.take(last) =~= one);
    assert(other.take(last) =~= other);
    if one.len() > 0 {
        assert(differ_in_notes(one.drop_last(), other.drop_last()));
        notes_do_not_decide_a_run(setting, one.drop_last(), other.drop_last());
        assert forall|i: int| 0 <= i < last implies do_the_same(
            #[trigger] run(setting, one.take(i)),
            run(setting, other.take(i)),
        ) by {
            assert(one.drop_last().take(i) =~= one.take(i));
            assert(other.drop_last().take(i) =~= other.take(i));
        }
        assert(one.take(last - 1) =~= one.drop_last());
        assert(other.take(last - 1) =~= other.drop_last());
        let before = run(setting, one.drop_last()).state;
        let beside = run(setting, other.drop_last()).state;
        assert(do_the_same(run(setting, one.take(last - 1)), run(setting, other.take(last - 1))));
        a_warning_does_not_decide(before, beside, one.last());
        assert(one[last - 1] == other[last - 1] || (one[last - 1] is Notes && other[last - 1] is Notes));
        if one.last() != other.last() {
            let first = one.last()->Notes_reply;
            let second = other.last()->Notes_reply;
            assert(before.stage is Notes);
            notes_do_not_decide(before, first, second);
            a_warning_does_not_decide(before, beside, other.last());
            assert(self_update::next_step(before, one.last()).state.setting
                == self_update::next_step(before, other.last()).state.setting);
        }
    }
}

/// The current version is never downloaded again.
pub proof fn the_current_version_is_not_downloaded(
    setting: SettingModel,
    events: Seq<EventModel>,
)
    requires
        is_run(setting, events),
        run(setting, events).action is Download,
    ensures
        run(setting, events).state.stage matches Stage::Archive { target, .. }
            && !self_update::is_up_to_date(target, setting.release.pixi_version),
{
    every_step_is_sound(setting, events);
}

/// Without `--force` an update knows its target when it starts the download, and
/// with `--version` too.
pub proof fn the_target_is_known(setting: SettingModel, events: Seq<EventModel>)
    requires
        is_run(setting, events),
        run(setting, events).action is Download,
        !setting.args.force || setting.args.version is Some,
    ensures
        run(setting, events).state.stage matches Stage::Archive { target, .. } && target is Some,
{
    every_step_is_sound(setting, events);
}

/// An older version that nobody asked for by `--version` or `--force` is
/// downloaded only right after the user consented.
pub proof fn a_downgrade_needs_consent(setting: SettingModel, events: Seq<EventModel>)
    requires
        is_run(setting, events),
        !setting.args.force,
        setting.args.version is None,
        run(setting, events).state.stage matches Stage::Archive { target, .. }
            && self_update::is_older(target, setting.release.pixi_version),
    ensures
        events.len() > 0,
        events.last() == (EventModel::Answered { consent: true }),
{
    if events.len() > 0 {
        every_step_is_sound(setting, events.drop_last());
    }
}

/// The binary that is put in place is what the archive of the last reply holds.
pub proof fn the_binary_comes_from_the_archive(
    setting: SettingModel,
    events: Seq<EventModel>,
    binary: Seq<u8>,
)
    requires
        is_run(setting, events),
        run(setting, events).action == (Action::<Seq<char>, Seq<u8>>::ReplaceBinary { binary }),
    ensures
        events.len() > 0,
        events.last() matches Event::Archive { reply: ArchiveReply::Received { data } }
            && release::gzip_reading(data) == Ok::<Seq<u8>, Seq<char>>(binary),
{
    if events.len() > 0 {
        every_step_is_sound(setting, events.drop_last());
    }
}

} // verus!
