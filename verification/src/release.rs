//! Releases on the release page: where they are found, what the page's replies
//! mean, and how a release is described to users.

use flate2::read::GzDecoder;

use vstd::prelude::*;
use vstd::string::*;

use crate::text;
use crate::urls;
use crate::version::{Version, VersionOrder};

verus! {

/// Where releases are published, and which release is running.
#[derive(Debug)]
pub struct Release<T> {
    /// The version of the running program.
    pub pixi_version: T,
    /// The release page.
    pub releases_url: T,
    /// The API endpoint that describes the release of a tag.
    pub releases_api_by_tag: T,
    /// The API endpoint that describes the latest release.
    pub releases_api_latest: T,
    /// What the tag of a release has before its version.
    pub release_tag_prefix: T,
}

impl DeepView for Release<String> {
    type V = Release<Seq<char>>;

    open spec fn deep_view(&self) -> Release<Seq<char>> {
        Release {
            pixi_version: self.pixi_version@,
            releases_url: self.releases_url@,
            releases_api_by_tag: self.releases_api_by_tag@,
            releases_api_latest: self.releases_api_latest@,
            release_tag_prefix: self.release_tag_prefix@,
        }
    }
}

/// What came back when the page was asked for the latest release.
#[derive(Debug)]
pub enum LatestReply<T> {
    /// The request failed.
    Failed { error: T },
    /// The reply was no redirection.
    NotRedirected { status: T },
    /// The reply was a redirection without a `Location` header.
    NoLocation,
    /// The `Location` header is no text.
    UnreadableLocation { error: T },
    /// The reply redirects to `location`.
    Redirected { location: T },
}

impl DeepView for LatestReply<String> {
    type V = LatestReply<Seq<char>>;

    open spec fn deep_view(&self) -> LatestReply<Seq<char>> {
        match self {
            LatestReply::Failed { error } => LatestReply::Failed { error: error@ },
            LatestReply::NotRedirected { status } => LatestReply::NotRedirected { status: status@ },
            LatestReply::NoLocation => LatestReply::NoLocation,
            LatestReply::UnreadableLocation { error } => LatestReply::UnreadableLocation {
                error: error@,
            },
            LatestReply::Redirected { location } => LatestReply::Redirected { location: location@ },
        }
    }
}

/// What came back when the API was asked to describe a release.
#[derive(Debug)]
pub enum NotesReply<T> {
    /// The request failed, or its reply could not be read.
    Failed { error: T },
    /// The API refused.
    Refused { status: T },
    /// The description of the release.
    Described { body: T, published_at: T, tag_name: T },
}

impl DeepView for NotesReply<String> {
    type V = NotesReply<Seq<char>>;

    open spec fn deep_view(&self) -> NotesReply<Seq<char>> {
        match self {
            NotesReply::Failed { error } => NotesReply::Failed { error: error@ },
            NotesReply::Refused { status } => NotesReply::Refused { status: status@ },
            NotesReply::Described { body, published_at, tag_name } => NotesReply::Described {
                body: body@,
                published_at: published_at@,
                tag_name: tag_name@,
            },
        }
    }
}

/// The mark in front of a line shown to users.
#[derive(Debug, Clone, Copy, PartialEq, Eq, Structural)]
pub enum Icon {
    Done,
    Info,
    Warning,
    Notes,
}

/// The colour of an icon.
#[derive(Debug, Clone, Copy, PartialEq, Eq, Structural)]
pub enum Color {
    Green,
    Yellow,
}

/// The colour of `icon`: green where something was achieved, yellow otherwise.
pub open spec fn color_of(icon: Icon) -> Color {
    if icon == Icon::Done {
        Color::Green
    } else {
        Color::Yellow
    }
}

impl Icon {
    /// The emoji of the icon, with the space that follows it.
    pub fn emoji(self) -> (r: &'static str)
        ensures
            r@ == match self {
                Icon::Done => "✔ "@,
                Icon::Info => "ℹ️ "@,
                Icon::Warning => "⚠️ "@,
                Icon::Notes => "📝 "@,
            },
    {
        match self {
            Icon::Done => "✔ ",
            Icon::Info => "ℹ️ ",
            Icon::Warning => "⚠️ ",
            Icon::Notes => "📝 ",
        }
    }

    /// Green where something was achieved, yellow otherwise.
    pub fn color(self) -> (r: Color)
        ensures
            r == color_of(self),
    {
        match self {
            Icon::Done => Color::Green,
            _ => Color::Yellow,
        }
    }
}

/// Something to show to the user.
#[derive(Debug)]
pub enum Message<T> {
    /// A line on the error stream.
    Status { icon: Icon, text: T },
    /// Release notes on the error stream.
    ReleaseNotes { text: T },
    /// A warning in the log.
    Logged { icon: Icon, text: T },
}

impl DeepView for Message<String> {
    type V = Message<Seq<char>>;

    open spec fn deep_view(&self) -> Message<Seq<char>> {
        match self {
            Message::Status { icon, text } => Message::Status { icon: *icon, text: text@ },
            Message::ReleaseNotes { text } => Message::ReleaseNotes { text: text@ },
            Message::Logged { icon, text } => Message::Logged { icon: *icon, text: text@ },
        }
    }
}

/// How requests introduce the program.
pub fn user_agent(pixi_version: &str) -> (r: String)
    ensures
        r@ == "pixi "@ + pixi_version@,
{
    let mut out = "pixi ".to_owned();
    out.append(pixi_version);
    out
}

/// The release asset for an operating system and an architecture, or why there
/// is none.
pub open spec fn asset_for(os: Seq<char>, arch: Seq<char>) -> Result<Seq<char>, Seq<char>> {
    if os == "linux"@ && arch == "x86_64"@ {
        Ok("pixi-linux-64.gz"@)
    } else if os == "linux"@ && arch == "aarch64"@ {
        Ok("pixi-linux-aarch64.gz"@)
    } else {
        Err(
            "`pixi self-update` is unsupported on "@ + os + "-"@ + arch
                + ": pixi-gr only publishes linux x86_64 and aarch64 builds."@,
        )
    }
}

/// The release asset to download on this operating system and architecture.
pub fn release_asset_name(os: &str, arch: &str) -> (r: Result<String, String>)
    ensures
        text::result_view(r) == asset_for(os@, arch@),
{
    if text::str_eq(os, "linux") && text::str_eq(arch, "x86_64") {
        return Ok("pixi-linux-64.gz".to_owned());
    }
    if text::str_eq(os, "linux") && text::str_eq(arch, "aarch64") {
        return Ok("pixi-linux-aarch64.gz".to_owned());
    }
    let mut out = "`pixi self-update` is unsupported on ".to_owned();
    out.append(os);
    out.append("-");
    out.append(arch);
    out.append(": pixi-gr only publishes linux x86_64 and aarch64 builds.");
    Err(out)
}

/// The page that redirects to the latest release.
pub open spec fn latest_page(release: Release<Seq<char>>) -> Seq<char> {
    release.releases_url + "/latest"@
}

/// The page that redirects to the latest release.
pub fn latest_url(release: &Release<String>) -> (r: String)
    ensures
        r@ == latest_page(release.deep_view()),
{
    let mut out = release.releases_url.clone();
    out.append("/latest");
    out
}

/// The text of the version that the tag of a release names, or why it names
/// none. `releases` is no tag: the page sends visitors back to itself where it
/// has no releases.
pub open spec fn tagged_version(release: Release<Seq<char>>, tag: Seq<char>) -> Result<
    Seq<char>,
    Seq<char>,
> {
    if tag == "releases"@ {
        Err("URL '"@ + latest_page(release) + "' does not seem to contain any releases."@)
    } else {
        match text::after_prefix(tag, release.release_tag_prefix) {
            Some(version) => match crate::version::version_error(version) {
                None => Ok(version),
                Some(message) => Err(message),
            },
            None => Err(
                "Tag name '"@ + tag + "' must start with "@ + release.release_tag_prefix + "."@,
            ),
        }
    }
}

/// The characters of a version, or of the reason why there is none.
pub open spec fn version_result_view(r: Result<Version, String>) -> Result<
    Seq<char>,
    Seq<char>,
> {
    match r {
        Ok(version) => Ok(version@),
        Err(message) => Err(message@),
    }
}

/// The version that the tag of a release names.
pub fn version_from_tag(release: &Release<String>, tag: &str) -> (r: Result<Version, String>)
    ensures
        version_result_view(r) == tagged_version(release.deep_view(), tag@),
{
    if text::str_eq(tag, "releases") {
        let mut out = "URL '".to_owned();
        out.append(latest_url(release).as_str());
        out.append("' does not seem to contain any releases.");
        return Err(out);
    }
    match text::strip_prefix(tag, release.release_tag_prefix.as_str()) {
        Some(version) => Version::parse(version),
        None => {
            let mut out = "Tag name '".to_owned();
            out.append(tag);
            out.append("' must start with ");
            out.append(release.release_tag_prefix.as_str());
            out.append(".");
            Err(out)
        },
    }
}

/// The text of the version that a redirection names by its last path segment,
/// or why it names none.
pub open spec fn segment_version(
    release: Release<Seq<char>>,
    segment: Option<Option<Seq<char>>>,
) -> Result<Seq<char>, Seq<char>> {
    match segment {
        None => Err("Could not get segments from Location header"@),
        Some(None) => Err("Could not get version from Location header"@),
        Some(Some(tag)) => tagged_version(release, tag),
    }
}

/// The version that a redirection names by its last path segment. `segment` is
/// `None` where the URL has no path segments.
pub fn version_from_segment(
    release: &Release<String>,
    segment: Option<Option<String>>,
) -> (r: Result<Version, String>)
    ensures
        version_result_view(r) == segment_version(release.deep_view(), segment.deep_view()),
{
    match segment {
        None => Err("Could not get segments from Location header".to_owned()),
        Some(None) => Err("Could not get version from Location header".to_owned()),
        Some(Some(tag)) => version_from_tag(release, tag.as_str()),
    }
}

/// The text of the latest version according to the reply of the release page,
/// or why the reply does not tell it.
pub open spec fn latest_of(release: Release<Seq<char>>, reply: LatestReply<Seq<char>>) -> Result<
    Seq<char>,
    Seq<char>,
> {
    let url = latest_page(release);
    match reply {
        LatestReply::Failed { error } => Err("URL: "@ + url + ". Request failed: "@ + error),
        LatestReply::NotRedirected { status } => Err(
            "URL: "@ + url + ". Request failed or did not redirect: "@ + status + "."@,
        ),
        LatestReply::NoLocation => Err(
            "URL: "@ + url + ". Redirect detected, but no 'Location' header found."@,
        ),
        LatestReply::UnreadableLocation { error } => Err(error),
        LatestReply::Redirected { location } => match urls::url_reading(location) {
            Err(error) => Err(error),
            Ok(_) => segment_version(release, urls::url_last_segment(location)),
        },
    }
}

/// The latest version according to the reply of the release page.
pub fn latest_version(release: &Release<String>, reply: LatestReply<String>) -> (r: Result<
    Version,
    String,
>)
    ensures
        version_result_view(r) == latest_of(release.deep_view(), reply.deep_view()),
{
    let mut out = "URL: ".to_owned();
    out.append(latest_url(release).as_str());
    match reply {
        LatestReply::Failed { error } => {
            out.append(". Request failed: ");
            out.append(error.as_str());
            Err(out)
        },
        LatestReply::NotRedirected { status } => {
            out.append(". Request failed or did not redirect: ");
            out.append(status.as_str());
            out.append(".");
            Err(out)
        },
        LatestReply::NoLocation => {
            out.append(". Redirect detected, but no 'Location' header found.");
            Err(out)
        },
        LatestReply::UnreadableLocation { error } => Err(error),
        LatestReply::Redirected { location } => match urls::parse_url(location.as_str()) {
            Err(error) => Err(error),
            Ok(_) => version_from_segment(release, urls::last_segment(location.as_str())),
        },
    }
}

/// The tag of a version: the tag prefix and the version as it is shown.
pub open spec fn tag_of(release: Release<Seq<char>>, version: Seq<char>) -> Seq<char> {
    release.release_tag_prefix + crate::version::version_display(version)
}

/// The tag of a version.
pub fn release_tag(release: &Release<String>, version: &Version) -> (r: String)
    ensures
        r@ == tag_of(release.deep_view(), version@),
{
    let mut out = release.release_tag_prefix.clone();
    out.append(version.to_text().as_str());
    out
}

/// Where a release is described: that of `version`, or the latest.
pub open spec fn description_url(
    release: Release<Seq<char>>,
    version: Option<Seq<char>>,
) -> Seq<char> {
    match version {
        Some(version) => release.releases_api_by_tag + "/"@ + tag_of(release, version),
        None => release.releases_api_latest,
    }
}

/// Where a release is described: that of `version`, or the latest.
pub fn release_notes_url(release: &Release<String>, version: &Option<Version>) -> (r: String)
    ensures
        r@ == description_url(release.deep_view(), version.deep_view()),
{
    match version {
        Some(version) => {
            let mut out = release.releases_api_by_tag.clone();
            out.append("/");
            out.append(release_tag(release, version).as_str());
            out
        },
        None => release.releases_api_latest.clone(),
    }
}

/// The release notes to show according to the reply of the API, or why it tells
/// none. Of the publication date only the day is shown, and the notes are shown
/// without the white space around them.
pub open spec fn notes_of(version: Option<Seq<char>>, reply: NotesReply<Seq<char>>) -> Result<
    Seq<char>,
    Seq<char>,
> {
    match reply {
        NotesReply::Failed { error } => Err(error),
        NotesReply::Refused { status } => Err("Status code "@ + status),
        NotesReply::Described { body, published_at, tag_name } => {
            let name = match version {
                Some(version) => crate::version::version_display(version),
                None => tag_name,
            };
            Ok(
                "Release notes for version "@ + name + " ("@ + text::before(published_at, 'T')
                    + "):\n"@ + text::trimmed(body) + "\n"@,
            )
        },
    }
}

/// The release notes to show according to the reply of the API.
pub fn release_notes(version: &Option<Version>, reply: NotesReply<String>) -> (r: Result<
    String,
    String,
>)
    ensures
        text::result_view(r) == notes_of(version.deep_view(), reply.deep_view()),
{
    match reply {
        NotesReply::Failed { error } => Err(error),
        NotesReply::Refused { status } => {
            let mut out = "Status code ".to_owned();
            out.append(status.as_str());
            Err(out)
        },
        NotesReply::Described { body, published_at, tag_name } => {
            let name = match version {
                Some(version) => version.to_text(),
                None => tag_name,
            };
            let mut out = "Release notes for version ".to_owned();
            out.append(name.as_str());
            out.append(" (");
            out.append(text::split_before(published_at.as_str(), 'T'));
            out.append("):\n");
            out.append(text::trim(body.as_str()));
            out.append("\n");
            Ok(out)
        },
    }
}

/// The page of a release: that of `version`, or the latest.
pub open spec fn release_page(
    release: Release<Seq<char>>,
    version: Option<Seq<char>>,
) -> Seq<char> {
    match version {
        Some(version) => release.releases_url + "/tag/"@ + tag_of(release, version),
        None => latest_page(release),
    }
}

/// What users are told where the release notes could not be had.
pub open spec fn notes_warning_text(
    release: Release<Seq<char>>,
    version: Option<Seq<char>>,
    error: Seq<char>,
) -> Seq<char> {
    "Failed to fetch release notes ("@ + error
        + "). Check the release page for more information: "@ + release_page(release, version)
}

/// What users are told where the release notes could not be had.
pub fn notes_warning(
    release: &Release<String>,
    version: &Option<Version>,
    error: &str,
) -> (r: String)
    ensures
        r@ == notes_warning_text(release.deep_view(), version.deep_view(), error@),
{
    let page = match version {
        Some(version) => {
            let mut page = release.releases_url.clone();
            page.append("/tag/");
            page.append(release_tag(release, version).as_str());
            page
        },
        None => latest_url(release),
    };
    let mut out = "Failed to fetch release notes (".to_owned();
    out.append(error);
    out.append("). Check the release page for more information: ");
    out.append(page.as_str());
    out
}

/// Where a release asset is downloaded from: that of `version`, or the latest.
/// `from_url` stands for the release page where it is given.
pub open spec fn asset_url(
    release: Release<Seq<char>>,
    from_url: Option<Seq<char>>,
    version: Option<Seq<char>>,
    asset: Seq<char>,
) -> Seq<char> {
    let page = match from_url {
        Some(url) => url,
        None => release.releases_url,
    };
    match version {
        Some(version) => page + "/download/"@ + tag_of(release, version) + "/"@ + asset,
        None => page + "/latest/download/"@ + asset,
    }
}

/// Where a release asset is downloaded from.
pub fn download_url(
    release: &Release<String>,
    from_url: &Option<String>,
    version: &Option<Version>,
    asset: &str,
) -> (r: String)
    ensures
        r@ == asset_url(
            release.deep_view(),
            from_url.deep_view(),
            version.deep_view(),
            asset@,
        ),
        from_url matches Some(page) ==> (page@ + "/"@).is_prefix_of(r@),
        from_url is None ==> (release.releases_url@ + "/"@).is_prefix_of(r@),
{
    proof {
        crate::release_laws::assets_come_from_the_given_page(
            release.deep_view(),
            from_url.deep_view(),
            version.deep_view(),
            asset@,
        );
    }
    let mut out = match from_url {
        Some(url) => url.clone(),
        None => release.releases_url.clone(),
    };
    match version {
        Some(version) => {
            out.append("/download/");
            out.append(release_tag(release, version).as_str());
            out.append("/");
            out.append(asset);
        },
        None => {
            out.append("/latest/download/");
            out.append(asset);
        },
    }
    out
}

/// What a dry run tells of a target that ranks as `order` against the current
/// version.
pub open spec fn dry_run_report(
    order: VersionOrder,
    current: Seq<char>,
    target: Seq<char>,
) -> Message<Seq<char>> {
    match order {
        VersionOrder::Same => Message::Status {
            icon: Icon::Done,
            text: "Current pixi version already at latest version: "@ + current + "."@,
        },
        VersionOrder::Newer => Message::Status {
            icon: Icon::Info,
            text: "Pixi version would be updated from "@ + current + " to "@ + target
                + ", but `--dry-run` given."@,
        },
        VersionOrder::Older => Message::Status {
            icon: Icon::Info,
            text: "Pixi version would be downgraded from "@ + current + " to "@ + target
                + ", but `--dry-run` given."@,
        },
    }
}

/// What a dry run tells of a target that ranks as `order` against the current
/// version.
pub fn dry_run_message(order: VersionOrder, current: &str, target: &str) -> (r: Message<String>)
    ensures
        r.deep_view() == dry_run_report(order, current@, target@),
{
    match order {
        VersionOrder::Same => {
            let mut out = "Current pixi version already at latest version: ".to_owned();
            out.append(current);
            out.append(".");
            Message::Status { icon: Icon::Done, text: out }
        },
        VersionOrder::Newer => {
            let mut out = "Pixi version would be updated from ".to_owned();
            out.append(current);
            out.append(" to ");
            out.append(target);
            out.append(", but `--dry-run` given.");
            Message::Status { icon: Icon::Info, text: out }
        },
        VersionOrder::Older => {
            let mut out = "Pixi version would be downgraded from ".to_owned();
            out.append(current);
            out.append(" to ");
            out.append(target);
            out.append(", but `--dry-run` given.");
            Message::Status { icon: Icon::Info, text: out }
        },
    }
}

/// What a dry run with this current version and this target tells.
pub open spec fn dry_run_outcome(current: Seq<char>, target: Seq<char>) -> Message<Seq<char>> {
    dry_run_report(
        crate::version::order_of(crate::version::version_order(target, current)),
        crate::version::version_display(current),
        crate::version::version_display(target),
    )
}

/// The message that is shown to users on a dry run.
pub fn get_dry_run_message(current: &Version, target: &Version) -> (r: Message<String>)
    ensures
        r.deep_view() == dry_run_outcome(current@, target@),
{
    dry_run_message(
        target.compare(current),
        current.to_text().as_str(),
        target.to_text().as_str(),
    )
}

/// What the first member of the gzip file `data` holds according to
/// `flate2::read::GzDecoder`, or the text of its error.
pub uninterp spec fn gzip_reading(data: Seq<u8>) -> Result<Seq<u8>, Seq<char>>;

/// The bytes, or the text of the reason why there are none.
pub open spec fn bytes_result_view(r: Result<Vec<u8>, String>) -> Result<Seq<u8>, Seq<char>> {
    match r {
        Ok(bytes) => Ok(bytes@),
        Err(message) => Err(message@),
    }
}

/// Reads `data` to its end through `flate2::read::GzDecoder`. Nothing more is
/// claimed than that the answer is a function of `data`.
#[verifier::external_body]
fn decode_gzip(data: &Vec<u8>) -> (r: Result<Vec<u8>, String>)
    ensures
        bytes_result_view(r) == gzip_reading(data@),
{
    let mut out: Vec<u8> = Vec::new();
    match std::io::copy(&mut GzDecoder::new(data.as_slice()), &mut out) {
        Ok(_) => Ok(out),
        Err(err) => Err(err.to_string()),
    }
}

/// Unpacks a gzip file.
pub fn gunzip(data: &Vec<u8>) -> (r: Result<Vec<u8>, String>)
    ensures
        bytes_result_view(r) == gzip_reading(data@),
{
    decode_gzip(data)
}

} // verus!
