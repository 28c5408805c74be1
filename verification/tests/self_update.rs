use std::io::Write;

use flate2::write::GzEncoder;
use flate2::Compression;

use pixi_logic::release::{
    download_url, dry_run_message, get_dry_run_message, gunzip, latest_url, latest_version,
    notes_warning, release_asset_name, release_notes, release_notes_url, user_agent,
    version_from_segment, version_from_tag, Color, Icon, LatestReply, Message, NotesReply, Release,
};
use pixi_logic::self_update::{
    execute, execute_stub, plan, resume, Action, ArchiveReply, Args, Event, GlobalOptions, Plan,
    Step, UpdateError,
};
use pixi_logic::version::{Version, VersionOrder};

fn release() -> Release<String> {
    Release {
        pixi_version: "1.2.0".to_string(),
        releases_url: "https://example.com/releases".to_string(),
        releases_api_by_tag: "https://api.example.com/tags".to_string(),
        releases_api_latest: "https://api.example.com/latest".to_string(),
        release_tag_prefix: "v".to_string(),
    }
}

fn version(text: &str) -> Version {
    Version::parse(text).unwrap()
}

fn args() -> Args<String, Version> {
    Args {
        offline: Some(false),
        version: None,
        dry_run: false,
        force: false,
        no_release_note: false,
        from_url: None,
    }
}

fn start(args: Args<String, Version>, quiet: u8) -> Step {
    execute(args, &GlobalOptions { quiet }, "linux", "x86_64", release())
}

fn redirected(location: &str) -> LatestReply<String> {
    LatestReply::Redirected {
        location: location.to_string(),
    }
}

fn latest(step: Step, tag: &str) -> Step {
    let location = format!("https://example.com/releases/tag/{tag}");
    let reply = redirected(&location);
    resume(step.state, Event::Latest { reply })
}

fn described() -> Event<String, Vec<u8>> {
    Event::Notes {
        reply: NotesReply::Described {
            body: "\n* a fix\n".to_string(),
            published_at: "2025-01-31T10:00:00Z".to_string(),
            tag_name: "v1.3.0".to_string(),
        },
    }
}

fn refused_notes() -> Event<String, Vec<u8>> {
    Event::Notes {
        reply: NotesReply::Refused {
            status: "403 Forbidden".to_string(),
        },
    }
}

fn archive(contents: &[u8]) -> Event<String, Vec<u8>> {
    Event::Archive {
        reply: ArchiveReply::Received {
            data: zipped(contents),
        },
    }
}

fn zipped(contents: &[u8]) -> Vec<u8> {
    let mut gz = GzEncoder::new(Vec::new(), Compression::default());
    gz.write_all(contents).unwrap();
    gz.finish().unwrap()
}

fn shown(step: &Step) -> Vec<String> {
    step.messages
        .iter()
        .map(|message| match message {
            Message::Status { icon, text } => format!("{}{text}", icon.emoji()),
            Message::ReleaseNotes { text } => format!("notes: {text}"),
            Message::Logged { text, .. } => format!("log: {text}"),
        })
        .collect()
}

fn failed(step: &Step) -> String {
    match &step.action {
        Action::Finish(Err(UpdateError::Failed { message })) => message.clone(),
        other => panic!("no failure: {other:?}"),
    }
}

fn finished(step: &Step) -> bool {
    matches!(step.action, Action::Finish(Ok(())))
}

#[test]
fn test_gunzip_round_trip() {
    let out = gunzip(&zipped(b"pixi binary")).unwrap();
    assert_eq!(out, b"pixi binary");
}

#[test]
fn only_gzip_files_are_unpacked() {
    assert!(gunzip(&b"pixi binary".to_vec()).is_err());
    let mut cut = zipped(b"pixi binary");
    cut.truncate(12);
    assert!(gunzip(&cut).is_err());
}

#[test]
fn an_update_runs_from_start_to_end() {
    let step = start(args(), 0);
    assert!(matches!(
        &step.action,
        Action::FetchLatest { url } if url == "https://example.com/releases/latest"
    ));
    let step = latest(step, "v1.3.0");
    assert!(matches!(
        &step.action,
        Action::FetchReleaseNotes { url } if url == "https://api.example.com/tags/v1.3.0"
    ));
    let step = resume(step.state, described());
    assert_eq!(
        shown(&step),
        [
            "notes: Release notes for version 1.3.0 (2025-01-31):\n* a fix\n",
            "✔ Pixi will be updated from 1.2.0 to 1.3.0",
        ]
    );
    assert!(matches!(
        &step.action,
        Action::Download { url }
            if url == "https://example.com/releases/download/v1.3.0/pixi-linux-64.gz"
    ));
    let step = resume(step.state, archive(b"binary"));
    assert_eq!(
        shown(&step),
        ["✔ Pixi archive downloaded.", "✔ Pixi archive uncompressed."]
    );
    assert!(matches!(
        &step.action,
        Action::ReplaceBinary { binary } if binary == b"binary"
    ));
    let step = resume(step.state, Event::Replaced);
    assert_eq!(shown(&step), ["✔ Pixi has been updated to version 1.3.0."]);
    assert!(finished(&step));
}

#[test]
fn offline_fails_before_anything_is_asked() {
    let offline = Args {
        offline: Some(true),
        ..args()
    };
    let step = start(offline, 0);
    assert!(matches!(
        &step.action,
        Action::Finish(Err(UpdateError::NetworkRequired { command }))
            if command == "pixi self-update"
    ));
    let unset = Args {
        offline: None,
        ..args()
    };
    let step = start(unset, 0);
    assert!(matches!(step.action, Action::LoadOfflineSetting));
    let step = resume(step.state, Event::OfflineSetting { offline: true });
    assert!(matches!(
        step.action,
        Action::Finish(Err(UpdateError::NetworkRequired { .. }))
    ));
}

#[test]
fn machines_without_a_release_are_refused() {
    let step = execute(args(), &GlobalOptions { quiet: 0 }, "macos", "aarch64", release());
    assert_eq!(
        failed(&step),
        "`pixi self-update` is unsupported on macos-aarch64: pixi-gr only publishes linux x86_64 and aarch64 builds."
    );
    assert_eq!(
        release_asset_name("linux", "aarch64").unwrap(),
        "pixi-linux-aarch64.gz"
    );
}

#[test]
fn a_release_page_must_be_a_url() {
    let bad = Args {
        from_url: Some("no url".to_string()),
        ..args()
    };
    assert_eq!(
        failed(&start(bad, 0)),
        "URL: no url. Url validation failed: relative URL without a base"
    );
}

#[test]
fn the_current_version_is_not_installed_again() {
    let step = latest(start(args(), 0), "v1.2.0");
    assert!(finished(&step));
    assert_eq!(shown(&step), ["✔ pixi is already up-to-date (version 1.2.0)"]);

    let forced = Args {
        version: Some(version("1.2.0")),
        force: true,
        ..args()
    };
    assert!(finished(&start(forced, 0)));
}

#[test]
fn a_downgrade_needs_consent() {
    let asked = || {
        let step = latest(start(args(), 0), "v1.1.0");
        let step = resume(step.state, described());
        assert!(matches!(
            &step.action,
            Action::Confirm { prompt } if prompt
                == "\nCurrent version (1.2.0) is more recent than remote (1.1.0). Do you want to downgrade?"
        ));
        step
    };
    let step = resume(asked().state, Event::Answered { consent: false });
    assert!(finished(&step));
    let step = resume(asked().state, Event::Answered { consent: true });
    assert_eq!(
        shown(&step),
        ["✔ Pixi will be downgraded from 1.2.0 to 1.1.0"]
    );
    assert!(matches!(step.action, Action::Download { .. }));
    let error = "no terminal".to_string();
    let step = resume(asked().state, Event::NotAnswered { error });
    assert_eq!(failed(&step), "no terminal");

    let given = Args {
        version: Some(version("1.1.0")),
        no_release_note: true,
        ..args()
    };
    assert!(matches!(start(given, 0).action, Action::Download { .. }));
}

#[test]
fn a_leading_v_is_removed() {
    let step = start(
        Args {
            version: Some(version("v1.1.0")),
            no_release_note: true,
            ..args()
        },
        0,
    );
    let messages = shown(&step);
    assert_eq!(
        messages[0],
        "⚠️ Warning: Leading 'v' removed from version v1.1.0"
    );
    assert!(matches!(
        &step.action,
        Action::Download { url }
            if url == "https://example.com/releases/download/v1.1.0/pixi-linux-64.gz"
    ));
}

#[test]
fn a_forced_update_takes_the_latest_release() {
    let forced = || Args {
        force: true,
        from_url: Some("https://mirror.example.com".to_string()),
        ..args()
    };
    let step = start(forced(), 0);
    assert!(matches!(
        &step.action,
        Action::FetchReleaseNotes { url } if url == "https://api.example.com/latest"
    ));
    let step = resume(step.state, described());
    assert_eq!(
        shown(&step),
        ["notes: Release notes for version v1.3.0 (2025-01-31):\n* a fix\n"]
    );
    assert!(matches!(
        &step.action,
        Action::Download { url }
            if url == "https://mirror.example.com/latest/download/pixi-linux-64.gz"
    ));
    let step = resume(step.state, archive(b"binary"));
    let step = resume(step.state, Event::Replaced);
    assert_eq!(shown(&step), ["✔ Pixi has been updated to latest release."]);
}

#[test]
fn missing_notes_only_leave_a_warning() {
    let step = latest(start(args(), 0), "v1.3.0");
    let step = resume(step.state, refused_notes());
    assert!(matches!(step.action, Action::Download { .. }));
    let step = resume(step.state, archive(b"binary"));
    let step = resume(step.state, Event::Replaced);
    assert_eq!(
        shown(&step)[1],
        "log: Failed to fetch release notes (Status code 403 Forbidden). Check the release page for more information: https://example.com/releases/tag/v1.3.0"
    );
    assert!(finished(&step));
}

#[test]
fn a_dry_run_only_tells() {
    let dry = || Args {
        dry_run: true,
        ..args()
    };
    let step = latest(start(dry(), 0), "v1.3.0");
    let step = resume(step.state, described());
    assert!(finished(&step));
    assert_eq!(
        shown(&step)[1],
        "ℹ️ Pixi version would be updated from 1.2.0 to 1.3.0, but `--dry-run` given."
    );

    let forced = Args {
        force: true,
        no_release_note: true,
        ..dry()
    };
    let step = start(forced, 0);
    assert!(matches!(step.action, Action::FetchLatest { .. }));
    let step = latest(step, "v1.2.0");
    assert_eq!(
        shown(&step),
        ["✔ Current pixi version already at latest version: 1.2.0."]
    );
    assert!(finished(&step));
}

#[test]
fn quiet_updates_show_nothing() {
    let step = latest(start(args(), 1), "v1.3.0");
    assert!(step.messages.is_empty());
    assert!(matches!(step.action, Action::Download { .. }));
    let step = resume(step.state, archive(b"binary"));
    assert!(step.messages.is_empty());
    let step = resume(step.state, Event::Replaced);
    assert!(step.messages.is_empty());
    assert!(finished(&step));
}

#[test]
fn failures_end_an_update() {
    let downloading = || {
        let given = Args {
            version: Some(version("1.3.0")),
            no_release_note: true,
            ..args()
        };
        start(given, 1)
    };
    let refused = Event::Archive {
        reply: ArchiveReply::Refused {
            status: "404 Not Found".to_string(),
        },
    };
    assert_eq!(
        failed(&resume(downloading().state, refused)),
        "URL https://example.com/releases/download/v1.3.0/pixi-linux-64.gz returned 404 Not Found"
    );
    let broken = Event::Archive {
        reply: ArchiveReply::Failed {
            error: "reset".to_string(),
        },
    };
    assert_eq!(failed(&resume(downloading().state, broken)), "reset");
    let garbled = Event::Archive {
        reply: ArchiveReply::Received {
            data: b"no archive".to_vec(),
        },
    };
    assert!(!failed(&resume(downloading().state, garbled)).is_empty());
    let step = resume(downloading().state, archive(b"binary"));
    let error = "denied".to_string();
    assert_eq!(
        failed(&resume(step.state, Event::NotReplaced { error })),
        "denied"
    );
}

#[test]
fn the_latest_version_is_read_from_the_redirection() {
    let error = |reply: LatestReply<String>| latest_version(&release(), reply).unwrap_err();
    let page = "https://example.com/releases/latest";
    assert_eq!(latest_url(&release()), page);
    let found = latest_version(&release(), redirected("https://example.com/releases/tag/v0.9.1"));
    assert_eq!(found.unwrap().to_text(), "0.9.1");
    assert_eq!(
        error(redirected("https://example.com/releases")),
        format!("URL '{page}' does not seem to contain any releases.")
    );
    assert_eq!(
        error(redirected("https://example.com/tag/1.0")),
        "Tag name '1.0' must start with v."
    );
    assert_eq!(
        error(redirected("data:text/plain,hi")),
        "Could not get segments from Location header"
    );
    assert_eq!(error(redirected("/tag/v1")), "relative URL without a base");
    assert!(!error(redirected("https://example.com/tag/v_")).is_empty());
    assert_eq!(
        error(LatestReply::NoLocation),
        format!("URL: {page}. Redirect detected, but no 'Location' header found.")
    );
    assert_eq!(
        error(LatestReply::NotRedirected {
            status: "200 OK".to_string()
        }),
        format!("URL: {page}. Request failed or did not redirect: 200 OK.")
    );
    assert_eq!(
        error(LatestReply::Failed {
            error: "timed out".to_string()
        }),
        format!("URL: {page}. Request failed: timed out")
    );
    assert_eq!(
        error(LatestReply::UnreadableLocation {
            error: "opaque".to_string()
        }),
        "opaque"
    );
    assert_eq!(
        version_from_segment(&release(), Some(None)).unwrap_err(),
        "Could not get version from Location header"
    );
    assert_eq!(
        version_from_tag(&release(), "v2.0").unwrap().to_text(),
        "2.0"
    );
}

#[test]
fn addresses_are_put_together() {
    assert_eq!(user_agent("1.2.0"), "pixi 1.2.0");
    let target = Some(version("1.3.0"));
    assert_eq!(
        release_notes_url(&release(), &target),
        "https://api.example.com/tags/v1.3.0"
    );
    assert_eq!(
        download_url(&release(), &None, &None, "a.gz"),
        "https://example.com/releases/latest/download/a.gz"
    );
    assert_eq!(
        notes_warning(&release(), &None, "e"),
        "Failed to fetch release notes (e). Check the release page for more information: https://example.com/releases/latest"
    );
    let error = NotesReply::Failed {
        error: "timed out".to_string(),
    };
    assert_eq!(release_notes(&target, error).unwrap_err(), "timed out");
}

#[test]
fn versions_are_compared_by_rank() {
    assert_eq!(version("1.10").compare(&version("1.9")), VersionOrder::Newer);
    assert_eq!(version("1.9").compare(&version("1.10")), VersionOrder::Older);
    assert_eq!(version("1.0").compare(&version("1.0.0")), VersionOrder::Same);
    assert!(version("1.0").same_as(&version("1.0")));
    assert!(!version("1.0").same_as(&version("1.1")));
    assert!(Version::parse("_").is_err());
    assert_eq!(version("1.0RC1").to_text(), "1.0rc1");
    assert_eq!(version("1.0a1").clone().as_text(), "1.0a1");
    assert!(matches!(
        get_dry_run_message(&version("1.2"), &version("1.1")),
        Message::Status { icon: Icon::Info, text }
            if text == "Pixi version would be downgraded from 1.2 to 1.1, but `--dry-run` given."
    ));
    assert!(matches!(
        dry_run_message(VersionOrder::Same, "1.2", "1.2"),
        Message::Status { icon: Icon::Done, .. }
    ));
    assert_eq!(Icon::Done.color(), Color::Green);
    assert_eq!(Icon::Warning.color(), Color::Yellow);
}

#[test]
fn a_plan_follows_the_flags() {
    assert_eq!(plan(true, true, true, true, true), Plan::DryRun);
    assert_eq!(plan(false, true, true, false, true), Plan::UpToDate);
    assert_eq!(plan(false, false, false, true, false), Plan::AskToDowngrade);
    assert_eq!(plan(false, false, false, true, true), Plan::Downgrade);
    assert_eq!(plan(false, false, true, true, true), Plan::Update);
    assert_eq!(plan(false, false, false, false, false), Plan::Update);
}

#[test]
fn a_stub_refuses_to_update() {
    assert_eq!(execute_stub(Some("use apt")), Err("use apt".to_string()));
    assert!(execute_stub(None)
        .unwrap_err()
        .starts_with("This version of pixi was built without self-update support."));
}
