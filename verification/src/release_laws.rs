//! What holds of releases, their addresses and what is told of them.

use vstd::prelude::*;

use crate::release;
use crate::release::{Icon, LatestReply, Message, NotesReply, Release};
use crate::text;
use crate::text_laws;
use crate::urls;
use crate::version;

verus! {

proof fn two_parts(whole: Seq<char>, head: Seq<char>, tail: Seq<char>)
    requires
        whole == head + tail,
    ensures
        head.is_prefix_of(whole),
        tail.is_suffix_of(whole),
        whole.len() == head.len() + tail.len(),
{
    assert(whole.subrange(0, head.len() as int) =~= head);
    assert(whole.subrange(whole.len() - tail.len(), whole.len() as int) =~= tail);
}

proof fn stands_in(whole: Seq<char>, head: Seq<char>, part: Seq<char>, tail: Seq<char>)
    requires
        whole == head + part + tail,
    ensures
        text::contains_text(whole, part),
{
    text_laws::ends_stand_in_the_text(head, part, tail);
}

/// An asset is downloaded from below the page that was given, wherever one was
/// given, and from below the release page otherwise, whether or not the version
/// is known. The address ends with the asset, and names the tag of a known
/// version right before it, and the latest release otherwise.
pub proof fn assets_come_from_the_given_page(
    release: Release<Seq<char>>,
    from_url: Option<Seq<char>>,
    version: Option<Seq<char>>,
    asset: Seq<char>,
)
    ensures
        ({
            let url = release::asset_url(release, from_url, version, asset);
            &&& from_url matches Some(page) ==> (page + "/"@).is_prefix_of(url)
            &&& from_url is None ==> (release.releases_url + "/"@).is_prefix_of(url)
            &&& ("/"@ + asset).is_suffix_of(url)
            &&& version matches Some(version) ==> ("/download/"@ + release.release_tag_prefix
                + version::version_display(version) + "/"@ + asset).is_suffix_of(url)
            &&& version is None ==> ("/latest/download/"@ + asset).is_suffix_of(url)
        }),
{
    reveal_strlit("/");
    reveal_strlit("/download/");
    reveal_strlit("/latest/download/");
    let url = release::asset_url(release, from_url, version, asset);
    let page = match from_url {
        Some(page) => page,
        None => release.releases_url,
    };
    match version {
        Some(version) => {
            let tag = release.release_tag_prefix + version::version_display(version);
            let tail = "/download/"@ + release.release_tag_prefix + version::version_display(
                version,
            ) + "/"@ + asset;
            assert(url =~= page + tail);
            two_parts(url, page, tail);
            assert(url =~= (page + "/download/"@ + tag) + ("/"@ + asset));
            two_parts(url, page + "/download/"@ + tag, "/"@ + asset);
        },
        None => {
            let tail = "/latest/download/"@ + asset;
            assert(url =~= page + tail);
            two_parts(url, page, tail);
            let short = "/latest/download/"@.drop_last();
            assert(url =~= (page + short) + ("/"@ + asset));
            two_parts(url, page + short, "/"@ + asset);
        },
    }
    assert(url.subrange(0, page.len() as int + 1) =~= page + "/"@);
}

/// Where a page was given, the release page plays no part in the address of an
/// asset.
pub proof fn a_given_page_stands_for_the_release_page(
    release: Release<Seq<char>>,
    releases_url: Seq<char>,
    page: Seq<char>,
    version: Option<Seq<char>>,
    asset: Seq<char>,
)
    ensures
        release::asset_url(release, Some(page), version, asset) == release::asset_url(
            Release { releases_url, ..release },
            Some(page),
            version,
            asset,
        ),
        release::asset_url(release, Some(page), version, asset) == release::asset_url(
            Release { releases_url: page, ..release },
            None,
            version,
            asset,
        ),
{
}

/// There are assets for Linux on two architectures, each with its own. Where
/// there is none, the reason names the system.
pub proof fn assets_are_for_known_systems(os: Seq<char>, arch: Seq<char>)
    ensures
        release::asset_for(os, arch) is Ok <==> os == "linux"@ && (arch == "x86_64"@ || arch
            == "aarch64"@),
        os == "linux"@ && arch == "x86_64"@ ==> release::asset_for(os, arch) == Ok::<
            Seq<char>,
            Seq<char>,
        >("pixi-linux-64.gz"@),
        os == "linux"@ && arch == "aarch64"@ ==> release::asset_for(os, arch) == Ok::<
            Seq<char>,
            Seq<char>,
        >("pixi-linux-aarch64.gz"@),
        release::asset_for(os, arch) matches Err(message) ==> text::contains_text(
            message,
            os + "-"@ + arch,
        ),
{
    reveal_strlit("x86_64");
    reveal_strlit("aarch64");
    assert("x86_64"@.len() != "aarch64"@.len());
    if let Err(message) = release::asset_for(os, arch) {
        let head = "`pixi self-update` is unsupported on "@;
        let tail = ": pixi-gr only publishes linux x86_64 and aarch64 builds."@;
        assert(message =~= head + (os + "-"@ + arch) + tail);
        stands_in(message, head, os + "-"@ + arch, tail);
    }
}

/// A tag names a version exactly if it is the tag prefix with a readable version
/// behind it and not the word that the page uses where it has no releases.
/// Otherwise the reason names the latest page, tells what is wrong with the
/// version, or names the tag and the prefix that it lacks.
pub proof fn tags_name_versions(
    release: Release<Seq<char>>,
    tag: Seq<char>,
    version: Seq<char>,
)
    ensures
        release::tagged_version(release, tag) == Ok::<Seq<char>, Seq<char>>(version) <==> {
            &&& tag != "releases"@
            &&& tag == release.release_tag_prefix + version
            &&& version::version_error(version) is None
        },
        release::tagged_version(release, tag) matches Err(message) ==> {
            if tag == "releases"@ {
                text::contains_text(message, release.releases_url + "/latest"@)
            } else if release.release_tag_prefix.is_prefix_of(tag) {
                tag == release.release_tag_prefix + version ==> version::version_error(version)
                    == Some(message)
            } else {
                &&& text::contains_text(message, tag)
                &&& text::contains_text(message, release.release_tag_prefix)
            }
        },
{
    text_laws::a_prefix_is_cut_off(tag, release.release_tag_prefix, version);
    if let Err(message) = release::tagged_version(release, tag) {
        let prefix = release.release_tag_prefix;
        if tag == "releases"@ {
            stands_in(
                message,
                "URL '"@,
                release::latest_page(release),
                "' does not seem to contain any releases."@,
            );
        } else if !prefix.is_prefix_of(tag) {
            let rest = "' must start with "@ + prefix + "."@;
            assert(message =~= "Tag name '"@ + tag + rest);
            stands_in(message, "Tag name '"@, tag, rest);
            stands_in(message, "Tag name '"@ + tag + "' must start with "@, prefix, "."@);
        }
    }
}

/// The tag of a version names that version as it is shown.
pub proof fn a_tag_is_read_back(release: Release<Seq<char>>, version: Seq<char>)
    requires
        version::version_error(version::version_display(version)) is None,
        release::tag_of(release, version) != "releases"@,
    ensures
        release::tagged_version(release, release::tag_of(release, version)) == Ok::<
            Seq<char>,
            Seq<char>,
        >(version::version_display(version)),
        release.release_tag_prefix.is_prefix_of(release::tag_of(release, version)),
{
    let shown = version::version_display(version);
    tags_name_versions(release, release::tag_of(release, version), shown);
    two_parts(release::tag_of(release, version), release.release_tag_prefix, shown);
}

/// The latest version is known exactly where the page redirects to a readable
/// address whose last segment is the tag of a readable version.
pub proof fn the_latest_version_is_where_the_page_leads(
    release: Release<Seq<char>>,
    reply: LatestReply<Seq<char>>,
    version: Seq<char>,
)
    ensures
        release::latest_of(release, reply) == Ok::<Seq<char>, Seq<char>>(version) <==> {
            &&& reply matches LatestReply::Redirected { location } && ({
                let tag = release.release_tag_prefix + version;
                &&& urls::url_reading(location) is Ok
                &&& urls::url_last_segment(location) == Some(Some(tag))
                &&& tag != "releases"@
            })
            &&& version::version_error(version) is None
        },
{
    if let LatestReply::Redirected { location } = reply {
        if let Some(Some(tag)) = urls::url_last_segment(location) {
            tags_name_versions(release, tag, version);
        }
    }
}

/// Where the page does not lead to a release, the reason passes on what went
/// wrong, and names the page that was asked where it was the page that failed.
pub proof fn a_lost_latest_version_has_a_reason(
    release: Release<Seq<char>>,
    reply: LatestReply<Seq<char>>,
)
    ensures
        !(reply is Redirected) ==> release::latest_of(release, reply) is Err,
        release::latest_of(release, reply) matches Err(message) ==> {
            &&& reply matches LatestReply::Failed { error } ==> text::contains_text(
                message,
                release.releases_url + "/latest"@,
            ) && error.is_suffix_of(message)
            &&& reply matches LatestReply::NotRedirected { status } ==> text::contains_text(
                message,
                release.releases_url + "/latest"@,
            ) && text::contains_text(message, status)
            &&& reply is NoLocation ==> text::contains_text(
                message,
                release.releases_url + "/latest"@,
            )
            &&& reply matches LatestReply::UnreadableLocation { error } ==> message == error
            &&& reply matches LatestReply::Redirected { location } ==> {
                let segment = urls::url_last_segment(location);
                &&& urls::url_reading(location) matches Err(error) ==> message == error
                &&& urls::url_reading(location) is Ok ==> {
                    &&& segment is None ==> message
                        == "Could not get segments from Location header"@
                    &&& segment == Some(None::<Seq<char>>) ==> message
                        == "Could not get version from Location header"@
                    &&& segment matches Some(Some(tag)) ==> release::tagged_version(release, tag)
                        == Err::<Seq<char>, Seq<char>>(message)
                }
            }
        },
{
    let page = release.releases_url + "/latest"@;
    match reply {
        LatestReply::Failed { error } => {
            let message = release::latest_of(release, reply)->Err_0;
            assert(message =~= "URL: "@ + page + (". Request failed: "@ + error));
            stands_in(message, "URL: "@, page, ". Request failed: "@ + error);
            two_parts(message, "URL: "@ + page + ". Request failed: "@, error);
        },
        LatestReply::NotRedirected { status } => {
            let message = release::latest_of(release, reply)->Err_0;
            let why = ". Request failed or did not redirect: "@;
            assert(message =~= "URL: "@ + page + (why + status + "."@));
            stands_in(message, "URL: "@, page, why + status + "."@);
            stands_in(message, "URL: "@ + page + why, status, "."@);
        },
        LatestReply::NoLocation => {
            let message = release::latest_of(release, reply)->Err_0;
            stands_in(
                message,
                "URL: "@,
                page,
                ". Redirect detected, but no 'Location' header found."@,
            );
        },
        _ => {},
    }
}

/// A release is described under its own tag, and the latest at the endpoint for
/// it. The page that users are sent to lies below the release page and ends with
/// the tag or leads to the latest release, and the warning that sends them there
/// tells what went wrong first.
pub proof fn releases_are_described_under_their_tag(
    release: Release<Seq<char>>,
    version: Option<Seq<char>>,
    error: Seq<char>,
)
    ensures
        ({
            let api = release::description_url(release, version);
            let page = release::release_page(release, version);
            let warning = release::notes_warning_text(release, version, error);
            &&& version matches Some(version) ==> {
                let tag = release.release_tag_prefix + version::version_display(version);
                &&& (release.releases_api_by_tag + "/"@).is_prefix_of(api)
                &&& ("/"@ + tag).is_suffix_of(api)
                &&& api.len() == release.releases_api_by_tag.len() + 1 + tag.len()
                &&& (release.releases_url + "/tag/"@).is_prefix_of(page)
                &&& ("/tag/"@ + tag).is_suffix_of(page)
                &&& page.len() == release.releases_url.len() + 5 + tag.len()
            }
            &&& version is None ==> {
                &&& api == release.releases_api_latest
                &&& release.releases_url.is_prefix_of(page)
                &&& "/latest"@.is_suffix_of(page)
                &&& page.len() == release.releases_url.len() + 7
            }
            &&& text::contains_text(warning, "("@ + error + ")"@)
            &&& page.is_suffix_of(warning)
        }),
{
    reveal_strlit("/");
    reveal_strlit("/tag/");
    reveal_strlit("/latest");
    let api = release::description_url(release, version);
    let page = release::release_page(release, version);
    let warning = release::notes_warning_text(release, version, error);
    if let Some(known) = version {
        let tag = release.release_tag_prefix + version::version_display(known);
        two_parts(api, release.releases_api_by_tag + "/"@, tag);
        assert(api =~= release.releases_api_by_tag + ("/"@ + tag));
        two_parts(api, release.releases_api_by_tag, "/"@ + tag);
        two_parts(page, release.releases_url + "/tag/"@, tag);
        assert(page =~= release.releases_url + ("/tag/"@ + tag));
        two_parts(page, release.releases_url, "/tag/"@ + tag);
    } else {
        two_parts(page, release.releases_url, "/latest"@);
    }
    reveal_strlit("(");
    reveal_strlit(")");
    reveal_strlit("Failed to fetch release notes (");
    reveal_strlit("). Check the release page for more information: ");
    let head = "Failed to fetch release notes ("@;
    let rest = "). Check the release page for more information: "@;
    two_parts(warning, head + error + rest, page);
    let tail = rest.skip(1) + page;
    assert(warning =~= head.drop_last() + ("("@ + error + ")"@) + tail);
    stands_in(warning, head.drop_last(), "("@ + error + ")"@, tail);
}

/// Release notes start with the version as it is shown, or with the tag where no
/// version was asked for, and the day of publication, and then have the notes
/// without the white space around them. The time of day is left out.
pub proof fn notes_tell_version_day_and_text(
    version: Option<Seq<char>>,
    body: Seq<char>,
    published_at: Seq<char>,
    tag_name: Seq<char>,
    day: Seq<char>,
    time: Seq<char>,
    before: Seq<char>,
    notes: Seq<char>,
    after: Seq<char>,
)
    requires
        published_at == day || published_at == day + "T"@ + time,
        !day.contains('T'),
        body == before + notes + after,
        forall|i: int| 0 <= i < before.len() ==> text::is_white_space(#[trigger] before[i]),
        forall|i: int| 0 <= i < after.len() ==> text::is_white_space(#[trigger] after[i]),
        notes.len() > 0 ==> {
            &&& !text::is_white_space(notes[0])
            &&& !text::is_white_space(notes.last())
        },
    ensures
        release::notes_of(
            version,
            (NotesReply::Described { body, published_at, tag_name }),
        ) == Ok::<Seq<char>, Seq<char>>(
            "Release notes for version "@ + (match version {
                Some(version) => version::version_display(version),
                None => tag_name,
            }) + " ("@ + day + "):\n"@ + notes + "\n"@,
        ),
{
    reveal_strlit("T");
    text_laws::the_part_before_a_mark(published_at, 'T');
    let cut = text::before(published_at, 'T');
    assert(cut =~= day) by {
        if cut.len() > day.len() {
            assert(published_at == day + "T"@ + time);
            assert(published_at[day.len() as int] == 'T');
            assert(cut[day.len() as int] == 'T');
            assert(cut.contains('T'));
        } else if cut.len() < day.len() {
            assert(published_at[cut.len() as int] == 'T');
            assert(day[cut.len() as int] == 'T');
            assert(day.contains('T'));
        }
        assert(cut =~= published_at.subrange(0, cut.len() as int));
        assert(day =~= published_at.subrange(0, day.len() as int));
    }
    trimming_finds(before, notes, after);
}

proof fn trimming_finds(before: Seq<char>, notes: Seq<char>, after: Seq<char>)
    requires
        forall|i: int| 0 <= i < before.len() ==> text::is_white_space(#[trigger] before[i]),
        forall|i: int| 0 <= i < after.len() ==> text::is_white_space(#[trigger] after[i]),
        notes.len() > 0 ==> {
            &&& !text::is_white_space(notes[0])
            &&& !text::is_white_space(notes.last())
        },
    ensures
        text::trimmed(before + notes + after) == notes,
{
    let whole = before + notes + after;
    let (head, tail) = text_laws::trimming_cuts_white_space(whole);
    let found = text::trimmed(whole);
    let n = before.len() as int;
    if notes.len() == 0 {
        if found.len() > 0 {
            let at = head.len() as int;
            assert(found[0] == whole[at]);
            if at < n {
                assert(before[at] == whole[at]);
            } else {
                assert(after[at - n] == whole[at]);
            }
        }
        assert(found =~= notes);
    } else {
        trimming_finds_some(before, notes, after);
    }
}

proof fn trimming_finds_some(before: Seq<char>, notes: Seq<char>, after: Seq<char>)
    requires
        forall|i: int| 0 <= i < before.len() ==> text::is_white_space(#[trigger] before[i]),
        forall|i: int| 0 <= i < after.len() ==> text::is_white_space(#[trigger] after[i]),
        notes.len() > 0,
        !text::is_white_space(notes[0]),
        !text::is_white_space(notes.last()),
    ensures
        text::trimmed(before + notes + after) == notes,
{
    let whole = before + notes + after;
    let (head, tail) = text_laws::trimming_cuts_white_space(whole);
    let found = text::trimmed(whole);
    let n = before.len() as int;
    let m = n + notes.len();
    if found.len() == 0 {
        assert(whole[n] == notes[0]);
        if n < head.len() {
            assert(whole[n] == head[n]);
        } else {
            assert(whole[n] == tail[n - head.len()]);
        }
    }
    if head.len() < n {
        assert(found[0] == whole[head.len() as int]);
        assert(before[head.len() as int] == whole[head.len() as int]);
    } else if head.len() > n {
        assert(head[n] == whole[n]);
    }
    let end = head.len() + found.len();
    if end < m {
        assert(whole[m - 1] == notes.last());
        assert(tail[m - 1 - end] == whole[m - 1]);
    } else if end > m {
        assert(whole[end - 1] == found.last());
        assert(after[end - 1 - m] == whole[end - 1]);
    }
    assert(found =~= whole.subrange(n, m));
    assert(notes =~= whole.subrange(n, m));
}

/// Release notes that could not be had are passed on as what went wrong, or as
/// the status that came back.
pub proof fn lost_notes_have_a_reason(version: Option<Seq<char>>, reply: NotesReply<Seq<char>>)
    ensures
        release::notes_of(version, reply) is Ok <==> reply is Described,
        reply matches NotesReply::Failed { error } ==> release::notes_of(version, reply) == Err::<
            Seq<char>,
            Seq<char>,
        >(error),
        reply matches NotesReply::Refused { status } ==> (release::notes_of(
            version,
            reply,
        ) matches Err(message) && status.is_suffix_of(message)),
{
    if let NotesReply::Refused { status } = reply {
        two_parts("Status code "@ + status, "Status code "@, status);
    }
}

/// A dry run says that the target would be an update, a downgrade or no change,
/// as the target ranks against the current version, and names the versions from
/// old to new. Only where there is nothing to do is it marked as done.
pub proof fn a_dry_run_tells_the_direction(current: Seq<char>, target: Seq<char>)
    ensures
        ({
            let order = version::version_order(target, current);
            let now = version::version_display(current);
            let next = version::version_display(target);
            release::dry_run_outcome(current, target) matches Message::Status { icon, text: told }
                && ({
                &&& (icon == Icon::Done) == (order == 0)
                &&& (icon == Icon::Info) == (order != 0)
                &&& order == 0 ==> text::contains_text(told, "already"@) && text::contains_text(
                    told,
                    now,
                )
                &&& order > 0 ==> text::contains_text(
                    told,
                    "updated from "@ + now + " to "@ + next,
                )
                &&& order < 0 ==> text::contains_text(
                    told,
                    "downgraded from "@ + now + " to "@ + next,
                )
            })
        }),
{
    let order = version::version_order(target, current);
    let now = version::version_display(current);
    let next = version::version_display(target);
    if let Message::Status { icon, text: told } = release::dry_run_outcome(current, target) {
        if order == 0 {
            let head = "Current pixi version already at latest version: "@;
            stands_in(told, head, now, "."@);
            reveal_strlit("Current pixi version already at latest version: ");
            reveal_strlit("already");
            let tail = head.skip(28) + now + "."@;
            assert(told =~= head.take(21) + "already"@ + tail);
            stands_in(told, head.take(21), "already"@, tail);
        } else if order > 0 {
            reveal_strlit("Pixi version would be updated from ");
            reveal_strlit("updated from ");
            let head = "Pixi version would be updated from "@;
            let part = "updated from "@ + now + " to "@ + next;
            assert(told =~= head.take(22) + part + ", but `--dry-run` given."@);
            stands_in(told, head.take(22), part, ", but `--dry-run` given."@);
        } else {
            reveal_strlit("Pixi version would be downgraded from ");
            reveal_strlit("downgraded from ");
            let head = "Pixi version would be downgraded from "@;
            let part = "downgraded from "@ + now + " to "@ + next;
            assert(told =~= head.take(22) + part + ", but `--dry-run` given."@);
            stands_in(told, head.take(22), part, ", but `--dry-run` given."@);
        }
    }
}

/// Green tells of what was achieved, and nothing else.
pub proof fn only_what_is_done_is_green(icon: Icon)
    ensures
        release::color_of(icon) == release::Color::Green <==> icon == Icon::Done,
        release::color_of(icon) == release::Color::Yellow <==> icon != Icon::Done,
{
}

} // verus!
