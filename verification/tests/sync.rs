use std::path::PathBuf;
use syncgit2::background::gitsync::{
    resolve_credentials, sync_git, Credentials, GitSyncWorker, SyncAction, SyncEvent, SyncPhase,
    SyncState, ANY_HOST, DESTINATION_REMOTE, MIRROR_REFSPEC, ORIGIN_REMOTE,
};
use syncgit2::config_parser::types::{
    Config, GitAuth, GitEndpoint, GitPasswordAuth, GitRSAAuth, Package,
};
use syncgit2::config_parser::validator::load_all_configs;
use syncgit2::config_parser::TaskId;

fn password(user: &str, pass: &str) -> GitAuth {
    GitAuth {
        rsa: None,
        pwd: Some(GitPasswordAuth { username: user.to_string(), password: pass.to_string() }),
    }
}

fn key(path: &str) -> GitRSAAuth {
    GitRSAAuth { private_key: path.to_string(), public_key: format!("{}.pub", path) }
}

fn demo() -> Config {
    Config {
        package: Package {
            name: "demo".to_string(),
            webhook_name: "demo".to_string(),
            secret: None,
        },
        origin: GitEndpoint {
            url: "https://host/a.git".to_string(),
            auth: None,
            endpoint_type: None,
        },
        destination: GitEndpoint {
            url: "https://host/b.git".to_string(),
            auth: Some(password("u", "p")),
            endpoint_type: None,
        },
    }
}

fn worker(task: Config) -> GitSyncWorker {
    GitSyncWorker::new(task, "repos").unwrap()
}

fn s(text: &str) -> String {
    text.to_string()
}

fn up() -> Credentials {
    Credentials::Plaintext { domain: s("*"), username: s("u"), password: s("p") }
}

fn done() -> SyncEvent {
    SyncEvent::Done
}

fn failed(message: &str) -> SyncAction {
    SyncAction::Finish { result: Err(s(message)) }
}

#[test]
fn names_are_the_documented_ones() {
    assert_eq!(ORIGIN_REMOTE, "origin");
    assert_eq!(DESTINATION_REMOTE, "syncto");
    assert_eq!(MIRROR_REFSPEC, "refs/*:refs/*");
    assert_eq!(ANY_HOST, "*");
}

#[test]
fn the_key_is_preferred_to_the_password() {
    let mut auth = password("u", "p");
    assert_eq!(resolve_credentials(Some(&auth)), Some(up()));
    auth.rsa = Some(key("keys/id"));
    assert_eq!(
        resolve_credentials(Some(&auth)),
        Some(Credentials::SshKeyFile { private_key: PathBuf::from("keys/id") })
    );
    auth.pwd = None;
    assert_eq!(
        resolve_credentials(Some(&auth)),
        Some(Credentials::SshKeyFile { private_key: PathBuf::from("keys/id") })
    );
}

#[test]
fn nothing_usable_resolves_to_nothing() {
    assert_eq!(resolve_credentials(None), None);
    assert_eq!(resolve_credentials(Some(&GitAuth { rsa: None, pwd: None })), None);
}

#[test]
fn auth_options_name_what_is_missing() {
    let w = worker(demo());
    assert_eq!(w.source_auth_options(), Err(s("origin auth not found")));
    assert_eq!(w.destination_auth_options(), Ok(up()));
    let mut task = demo();
    task.origin.auth = Some(GitAuth { rsa: Some(key("k")), pwd: None });
    task.destination.auth = None;
    let w = worker(task);
    assert_eq!(
        w.source_auth_options(),
        Ok(Credentials::SshKeyFile { private_key: PathBuf::from("k") })
    );
    assert_eq!(w.destination_auth_options(), Err(s("destination auth not found")));
}

#[test]
fn a_new_sync_probes_for_its_mirror() {
    let mut task = demo();
    task.package.webhook_name = s("Demo");
    let w = worker(task.clone());
    assert_eq!(w.state(), SyncState::Uninitialized);
    assert_eq!(w.phase(), SyncPhase::Probing);
    assert!(!w.is_finished());
    assert_eq!(w.task(), &task);
    assert_eq!(w.repo_path(), "repos/demo");
    assert_eq!(w.next_action(), SyncAction::ProbeRepo { path: s("repos/demo") });
}

#[test]
fn first_run_clones_fetches_and_pushes() {
    let mut w = worker(demo());
    assert_eq!(w.next_action(), SyncAction::ProbeRepo { path: s("repos/demo") });
    assert_eq!(
        w.advance(SyncEvent::RepoPresent { present: false }),
        SyncAction::CloneMirror { url: s("https://host/a.git"), path: s("repos/demo") }
    );
    assert_eq!(w.state(), SyncState::Uninitialized);
    assert_eq!(w.advance(done()), SyncAction::OpenRepo { path: s("repos/demo") });
    assert_eq!(w.state(), SyncState::Uninitialized);
    assert_eq!(
        w.advance(done()),
        SyncAction::SetRemoteUrl { remote: s("origin"), url: s("https://host/a.git") }
    );
    assert_eq!(w.state(), SyncState::RepoReady);
    assert_eq!(
        w.advance(done()),
        SyncAction::Fetch {
            remote: s("origin"),
            refspec: s("refs/*:refs/*"),
            credentials: None,
            prune: true,
            follow_redirects: true,
            all_tags: true,
        }
    );
    assert_eq!(w.state(), SyncState::RepoReady);
    assert_eq!(w.advance(done()), SyncAction::LookupRemote { remote: s("syncto") });
    assert_eq!(w.state(), SyncState::OriginUpdated);
    assert_eq!(
        w.advance(SyncEvent::RemoteUrl { url: None }),
        SyncAction::AddRemote { remote: s("syncto"), url: s("https://host/b.git") }
    );
    assert_eq!(
        w.advance(done()),
        SyncAction::Push { remote: s("syncto"), refspec: s("refs/*:refs/*"), credentials: up() }
    );
    assert_eq!(w.state(), SyncState::OriginUpdated);
    assert_eq!(w.advance(done()), SyncAction::Finish { result: Ok(()) });
    assert_eq!(w.state(), SyncState::Synced);
    assert!(w.is_finished());
}

#[test]
fn second_run_opens_fetches_and_pushes() {
    let mut w = worker(demo());
    let mut actions = vec![w.next_action()];
    for event in [
        SyncEvent::RepoPresent { present: true },
        done(),
        done(),
        done(),
        SyncEvent::RemoteUrl { url: Some(s("https://host/b.git")) },
        done(),
    ] {
        actions.push(w.advance(event));
    }
    assert_eq!(
        actions,
        vec![
            SyncAction::ProbeRepo { path: s("repos/demo") },
            SyncAction::OpenRepo { path: s("repos/demo") },
            SyncAction::SetRemoteUrl { remote: s("origin"), url: s("https://host/a.git") },
            SyncAction::Fetch {
                remote: s("origin"),
                refspec: s("refs/*:refs/*"),
                credentials: None,
                prune: true,
                follow_redirects: true,
                all_tags: true,
            },
            SyncAction::LookupRemote { remote: s("syncto") },
            SyncAction::Push {
                remote: s("syncto"),
                refspec: s("refs/*:refs/*"),
                credentials: up()
            },
            SyncAction::Finish { result: Ok(()) },
        ]
    );
    assert_eq!(w.state(), SyncState::Synced);
}

#[test]
fn a_drifted_destination_remote_is_moved() {
    let mut w = worker(demo());
    w.advance(SyncEvent::RepoPresent { present: true });
    w.advance(done());
    w.advance(done());
    w.advance(done());
    assert_eq!(
        w.advance(SyncEvent::RemoteUrl { url: Some(s("https://old/b.git")) }),
        SyncAction::SetRemoteUrl { remote: s("syncto"), url: s("https://host/b.git") }
    );
    assert_eq!(w.phase(), SyncPhase::MovingRemote);
    assert!(matches!(w.advance(done()), SyncAction::Push { .. }));
    assert_eq!(w.advance(done()), SyncAction::Finish { result: Ok(()) });
}

#[test]
fn origin_credentials_are_used_where_configured() {
    let mut task = demo();
    task.origin.auth = Some(GitAuth { rsa: Some(key("keys/o")), pwd: Some(password("x", "y").pwd.unwrap()) });
    let mut w = worker(task);
    w.advance(SyncEvent::RepoPresent { present: true });
    w.advance(done());
    assert_eq!(
        w.advance(done()),
        SyncAction::Fetch {
            remote: s("origin"),
            refspec: s("refs/*:refs/*"),
            credentials: Some(Credentials::SshKeyFile { private_key: PathBuf::from("keys/o") }),
            prune: true,
            follow_redirects: true,
            all_tags: true,
        }
    );
}

#[test]
fn an_origin_descriptor_without_method_fetches_anonymously() {
    let mut task = demo();
    task.origin.auth = Some(GitAuth { rsa: None, pwd: None });
    let mut w = worker(task);
    w.advance(SyncEvent::RepoPresent { present: true });
    w.advance(done());
    assert!(matches!(w.advance(done()), SyncAction::Fetch { credentials: None, .. }));
}

#[test]
fn a_failure_ends_the_sync_from_every_state() {
    let steps = [
        SyncEvent::RepoPresent { present: false },
        done(),
        done(),
        done(),
        done(),
        SyncEvent::RemoteUrl { url: None },
        done(),
    ];
    for fail_at in 0..=steps.len() {
        let mut w = worker(demo());
        for event in steps.iter().take(fail_at) {
            let event = match event {
                SyncEvent::RepoPresent { present } => SyncEvent::RepoPresent { present: *present },
                SyncEvent::RemoteUrl { url } => SyncEvent::RemoteUrl { url: url.clone() },
                SyncEvent::Done => SyncEvent::Done,
                SyncEvent::Error { message } => SyncEvent::Error { message: message.clone() },
            };
            assert!(!matches!(w.advance(event), SyncAction::Finish { .. }));
        }
        assert_eq!(w.advance(SyncEvent::Error { message: s("boom") }), failed("boom"));
        assert_eq!(w.state(), SyncState::Failed);
        assert!(w.is_finished());
        assert_eq!(w.advance(done()), failed("boom"));
        assert_eq!(w.advance(SyncEvent::Error { message: s("later") }), failed("boom"));
        assert_eq!(w.next_action(), failed("boom"));
    }
}

#[test]
fn missing_destination_credentials_fail_the_sync() {
    let mut task = demo();
    task.destination.auth = None;
    let mut w = worker(task);
    w.advance(SyncEvent::RepoPresent { present: true });
    w.advance(done());
    w.advance(done());
    assert_eq!(w.advance(done()), SyncAction::LookupRemote { remote: s("syncto") });
    assert_eq!(
        w.advance(SyncEvent::RemoteUrl { url: Some(s("https://host/b.git")) }),
        failed("destination auth not found")
    );
    assert_eq!(w.state(), SyncState::Failed);

    let mut task = demo();
    task.destination.auth = Some(GitAuth { rsa: None, pwd: None });
    let mut w = worker(task);
    w.advance(SyncEvent::RepoPresent { present: true });
    w.advance(done());
    w.advance(done());
    w.advance(done());
    assert!(matches!(w.advance(SyncEvent::RemoteUrl { url: None }), SyncAction::AddRemote { .. }));
    assert_eq!(w.advance(done()), failed("destination auth not found"));
}

#[test]
fn an_answer_that_was_not_asked_for_fails_the_sync() {
    let mut w = worker(demo());
    assert_eq!(w.advance(done()), failed("unexpected event"));
    assert_eq!(w.state(), SyncState::Failed);

    let mut w = worker(demo());
    w.advance(SyncEvent::RepoPresent { present: true });
    assert_eq!(w.advance(SyncEvent::RepoPresent { present: true }), failed("unexpected event"));

    let mut w = worker(demo());
    w.advance(SyncEvent::RepoPresent { present: true });
    w.advance(done());
    assert_eq!(w.advance(SyncEvent::RemoteUrl { url: None }), failed("unexpected event"));

    let mut w = worker(demo());
    w.advance(SyncEvent::RepoPresent { present: true });
    w.advance(done());
    w.advance(done());
    w.advance(done());
    assert_eq!(w.advance(done()), failed("unexpected event"));
}

#[test]
fn a_finished_sync_stays_finished() {
    let mut w = worker(demo());
    for event in [
        SyncEvent::RepoPresent { present: true },
        done(),
        done(),
        done(),
        SyncEvent::RemoteUrl { url: Some(s("https://host/b.git")) },
        done(),
    ] {
        w.advance(event);
    }
    assert_eq!(w.state(), SyncState::Synced);
    assert_eq!(w.advance(SyncEvent::Error { message: s("late") }), SyncAction::Finish { result: Ok(()) });
    assert_eq!(w.advance(done()), SyncAction::Finish { result: Ok(()) });
    assert_eq!(w.state(), SyncState::Synced);
}

#[test]
fn sync_git_begins_the_sync_of_the_registered_task() {
    let mut task = demo();
    task.package.webhook_name = s("Demo");
    let registry = load_all_configs(&vec![task.clone()]);
    let w = sync_git(&registry, &TaskId::new("DEMO"), "data/repos");
    assert_eq!(w.task(), &task);
    assert_eq!(w.phase(), SyncPhase::Probing);
    assert_eq!(w.next_action(), SyncAction::ProbeRepo { path: s("data/repos/demo") });
}
