use syncgit2::background::{Dispatch, Dispatcher};
use syncgit2::config_parser::registry::TaskRegistry;
use syncgit2::config_parser::types::{Config, GitAuth, GitEndpoint, GitPasswordAuth, Package};
use syncgit2::config_parser::validator::load_all_configs;
use syncgit2::web::github::{
    check_signature, github_webhook, WebhookVerdict, REPOSITORY_TARGET, SIGNATURE_HEADER,
    SIGNATURE_PREFIX, TARGET_TYPE_HEADER,
};

const ABC: &str = "ba7816bf8f01cfea414140de5dae2223b00361a396177a9cb410ff61f20015ad";

fn task(key: &str, secret: Option<&str>) -> Config {
    Config {
        package: Package {
            name: key.to_string(),
            webhook_name: key.to_string(),
            secret: secret.map(|s| s.to_string()),
        },
        origin: GitEndpoint {
            url: "https://host/a.git".to_string(),
            auth: None,
            endpoint_type: None,
        },
        destination: GitEndpoint {
            url: "https://host/b.git".to_string(),
            auth: Some(GitAuth {
                rsa: None,
                pwd: Some(GitPasswordAuth { username: "u".to_string(), password: "p".to_string() }),
            }),
            endpoint_type: None,
        },
    }
}

fn registry() -> TaskRegistry {
    load_all_configs(&vec![task("Secret", Some("abc")), task("open", None)])
}

#[test]
fn header_names_are_the_documented_ones() {
    assert_eq!(TARGET_TYPE_HEADER, "x-github-hook-installation-target-type");
    assert_eq!(SIGNATURE_HEADER, "x-hub-signature-256");
    assert_eq!(REPOSITORY_TARGET, "repository");
    assert_eq!(SIGNATURE_PREFIX, "sha256=");
}

#[test]
fn signatures_are_judged_against_the_digest() {
    let good = format!("sha256={}", ABC);
    assert_eq!(check_signature(Some(&good), Some(ABC)), WebhookVerdict::Accepted);
    assert_eq!(check_signature(Some("sha256=00"), Some(ABC)), WebhookVerdict::SignatureMismatch);
    assert_eq!(check_signature(Some("sha256="), Some(ABC)), WebhookVerdict::SignatureMismatch);
    assert_eq!(check_signature(None, Some(ABC)), WebhookVerdict::SignatureMissing);
    assert_eq!(check_signature(Some(ABC), Some(ABC)), WebhookVerdict::SignatureMalformed);
    assert_eq!(check_signature(Some("sha1=00"), None), WebhookVerdict::SignatureMalformed);
    assert_eq!(check_signature(None, None), WebhookVerdict::SignatureMalformed);
    assert_eq!(check_signature(Some("sha256=anything"), None), WebhookVerdict::Accepted);
}

#[test]
fn an_unknown_task_is_not_found() {
    let mut d = Dispatcher::new(4);
    let v = github_webhook(&registry(), &mut d, "nobody", Some("repository"), None);
    assert_eq!(v, WebhookVerdict::TaskNotFound);
    assert_eq!(v.status(), 404);
    assert_eq!(v.body(), "Task not found");
    assert_eq!(d.pending(), 0);
}

#[test]
fn the_target_must_be_a_repository() {
    let mut d = Dispatcher::new(4);
    let v = github_webhook(&registry(), &mut d, "open", None, Some("sha256=x"));
    assert_eq!(v, WebhookVerdict::TargetMissing);
    assert_eq!(v.status(), 400);
    assert_eq!(v.body(), "x-github-hook-installation-target-type not found");
    let v = github_webhook(&registry(), &mut d, "open", Some("organization"), Some("sha256=x"));
    assert_eq!(v, WebhookVerdict::TargetNotRepository);
    assert_eq!(v.status(), 400);
    assert_eq!(v.body(), "x-github-hook-installation-target-type is not repository");
    assert_eq!(d.pending(), 0);
}

#[test]
fn a_secret_asks_for_a_matching_signature() {
    let mut d = Dispatcher::new(4);
    let r = registry();
    let v = github_webhook(&r, &mut d, "secret", Some("repository"), None);
    assert_eq!(v, WebhookVerdict::SignatureMissing);
    assert_eq!(v.body(), "x-hub-signature-256 not found");
    let v = github_webhook(&r, &mut d, "secret", Some("repository"), Some("sha256=beef"));
    assert_eq!(v, WebhookVerdict::SignatureMismatch);
    assert_eq!(v.status(), 400);
    assert_eq!(v.body(), "x-hub-signature-256 not match");
    let v = github_webhook(&r, &mut d, "secret", Some("repository"), Some(ABC));
    assert_eq!(v, WebhookVerdict::SignatureMalformed);
    assert_eq!(v.status(), 400);
    assert_eq!(d.pending(), 0);
}

#[test]
fn an_accepted_request_queues_a_trigger() {
    let mut d = Dispatcher::new(4);
    let r = registry();
    let good = format!("sha256={}", ABC);
    let v = github_webhook(&r, &mut d, "SECRET", Some("repository"), Some(&good));
    assert_eq!(v, WebhookVerdict::Accepted);
    assert_eq!(v.status(), 200);
    assert_eq!(v.body(), "ok");
    assert_eq!(d.pending(), 1);
    match d.tick(false) {
        Dispatch::Spawn(w) => {
            assert_eq!(w.task_id().as_str(), "secret");
            assert!(w.event().is_valid());
        }
        other => panic!("expected a worker, got {:?}", other),
    }
}

#[test]
fn a_task_without_secret_takes_any_signature() {
    let mut d = Dispatcher::new(1);
    let r = registry();
    assert_eq!(
        github_webhook(&r, &mut d, "open", Some("repository"), Some("sha256=whatever")),
        WebhookVerdict::Accepted
    );
    assert_eq!(d.pending(), 1);
    assert_eq!(
        github_webhook(&r, &mut d, "open", Some("repository"), Some("sha256=whatever")),
        WebhookVerdict::Accepted
    );
    assert_eq!(d.pending(), 1);
    assert_eq!(
        github_webhook(&r, &mut d, "open", Some("repository"), None),
        WebhookVerdict::SignatureMalformed
    );
}
