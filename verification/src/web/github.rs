//! The GitHub webhook: which requests trigger a sync.

use crate::background::types::Event;
use crate::background::Dispatcher;
use crate::config_parser::registry::TaskRegistry;
use crate::config_parser::types::same_text;
use crate::config_parser::{ascii_lowercase, TaskId};
use vstd::prelude::*;

verus! {

/// The header that says what kind of thing the hook is installed on.
pub const TARGET_TYPE_HEADER: &'static str = "x-github-hook-installation-target-type";

/// The header that carries the signature.
pub const SIGNATURE_HEADER: &'static str = "x-hub-signature-256";

/// The only kind of hook that is served.
pub const REPOSITORY_TARGET: &'static str = "repository";

/// What a signature begins with.
pub const SIGNATURE_PREFIX: &'static str = "sha256=";

/// What becomes of a webhook request.
#[derive(Debug, Clone, Copy, PartialEq, Eq, Structural)]
pub enum WebhookVerdict {
    /// No task is registered under the name in the path.
    TaskNotFound,
    /// The request does not say what the hook is installed on.
    TargetMissing,
    /// The hook is installed on something other than a repository.
    TargetNotRepository,
    /// The task has a secret and the request has no signature.
    SignatureMissing,
    /// The request has no signature to read: none at all for a task
    /// without a secret, or one that does not begin with `sha256=`.
    SignatureMalformed,
    /// The signature is not the digest of the task's secret.
    SignatureMismatch,
    /// The request is in order: a sync of the task is asked for.
    Accepted,
}

/// Whether `text` begins with `prefix`.
pub open spec fn has_prefix(text: Seq<char>, prefix: Seq<char>) -> bool {
    prefix.len() <= text.len() && text.subrange(0, prefix.len() as int) == prefix
}

/// `str::strip_prefix` of std with a string as the pattern: the rest of
/// `text` after `prefix` where it begins with it, `None` where it does not.
#[verifier::external_body]
fn strip_prefix<'a>(text: &'a str, prefix: &str) -> (r: Option<&'a str>)
    ensures
        r is Some == has_prefix(text@, prefix@),
        r matches Some(rest) ==> rest@ == text@.subrange(prefix@.len() as int, text@.len() as int),
{
    text.strip_prefix(prefix)
}

/// The verdict on the signature of a request for a task whose secret has
/// the digest `digest`, or which has no secret.
pub open spec fn signature_verdict(
    signature: Option<Seq<char>>,
    digest: Option<Seq<char>>,
) -> WebhookVerdict {
    match signature {
        None => if digest is Some {
            WebhookVerdict::SignatureMissing
        } else {
            WebhookVerdict::SignatureMalformed
        },
        Some(s) => if !has_prefix(s, SIGNATURE_PREFIX@) {
            WebhookVerdict::SignatureMalformed
        } else {
            match digest {
                Some(d) => if s.subrange(SIGNATURE_PREFIX@.len() as int, s.len() as int) == d {
                    WebhookVerdict::Accepted
                } else {
                    WebhookVerdict::SignatureMismatch
                },
                None => WebhookVerdict::Accepted,
            }
        },
    }
}

/// The verdict on a request: the task must be known, the hook must sit on
/// a repository, and the signature must be in order.
pub open spec fn request_verdict(
    known: bool,
    target: Option<Seq<char>>,
    signature: Option<Seq<char>>,
    digest: Option<Seq<char>>,
) -> WebhookVerdict {
    if !known {
        WebhookVerdict::TaskNotFound
    } else {
        match target {
            None => WebhookVerdict::TargetMissing,
            Some(t) => if t != REPOSITORY_TARGET@ {
                WebhookVerdict::TargetNotRepository
            } else {
                signature_verdict(signature, digest)
            },
        }
    }
}

/// Judges the signature of a request against the digest of the task's
/// secret.
pub fn check_signature(signature: Option<&str>, digest: Option<&str>) -> (v: WebhookVerdict)
    ensures
        v == signature_verdict(
            match signature {
                Some(s) => Some(s@),
                None => None,
            },
            match digest {
                Some(d) => Some(d@),
                None => None,
            },
        ),
{
    match signature {
        None => {
            if digest.is_some() {
                WebhookVerdict::SignatureMissing
            } else {
                WebhookVerdict::SignatureMalformed
            }
        },
        Some(s) => match strip_prefix(s, SIGNATURE_PREFIX) {
            None => WebhookVerdict::SignatureMalformed,
            Some(given) => match digest {
                Some(d) => {
                    if same_text(given, d) {
                        WebhookVerdict::Accepted
                    } else {
                        WebhookVerdict::SignatureMismatch
                    }
                },
                None => WebhookVerdict::Accepted,
            },
        },
    }
}

impl WebhookVerdict {
    /// The HTTP status that answers the request.
    pub open spec fn status_code(self) -> u16 {
        match self {
            WebhookVerdict::Accepted => 200,
            WebhookVerdict::TaskNotFound => 404,
            _ => 400,
        }
    }

    /// The body that answers the request.
    pub open spec fn message(self) -> Seq<char> {
        match self {
            WebhookVerdict::TaskNotFound => "Task not found"@,
            WebhookVerdict::TargetMissing => "x-github-hook-installation-target-type not found"@,
            WebhookVerdict::TargetNotRepository =>
                "x-github-hook-installation-target-type is not repository"@,
            WebhookVerdict::SignatureMissing => "x-hub-signature-256 not found"@,
            WebhookVerdict::SignatureMalformed => "x-hub-signature-256 not readable"@,
            WebhookVerdict::SignatureMismatch => "x-hub-signature-256 not match"@,
            WebhookVerdict::Accepted => "ok"@,
        }
    }

    /// The HTTP status that answers the request: 200 where it was
    /// accepted, 404 for an unknown task, 400 otherwise.
    pub fn status(&self) -> (code: u16)
        ensures
            code == self.status_code(),
    {
        match self {
            WebhookVerdict::Accepted => 200,
            WebhookVerdict::TaskNotFound => 404,
            _ => 400,
        }
    }

    /// The body that answers the request.
    pub fn body(&self) -> (text: String)
        ensures
            text@ == self.message(),
    {
        match self {
            WebhookVerdict::TaskNotFound => "Task not found".to_owned(),
            WebhookVerdict::TargetMissing =>
                "x-github-hook-installation-target-type not found".to_owned(),
            WebhookVerdict::TargetNotRepository =>
                "x-github-hook-installation-target-type is not repository".to_owned(),
            WebhookVerdict::SignatureMissing => "x-hub-signature-256 not found".to_owned(),
            WebhookVerdict::SignatureMalformed => "x-hub-signature-256 not readable".to_owned(),
            WebhookVerdict::SignatureMismatch => "x-hub-signature-256 not match".to_owned(),
            WebhookVerdict::Accepted => "ok".to_owned(),
        }
    }
}

/// Serves one webhook request: `task` is the name in the request's path,
/// `target` and `signature` are the values of the two headers, where the
/// request has them.
///
/// An accepted request offers a fresh event for the task to the
/// dispatcher; the answer does not say whether the queue took it. Any
/// other request leaves the dispatcher as it was.
pub fn github_webhook(
    registry: &TaskRegistry,
    dispatcher: &mut Dispatcher,
    task: &str,
    target: Option<&str>,
    signature: Option<&str>,
) -> (v: WebhookVerdict)
    ensures
        v == request_verdict(
            registry@.dom().contains(ascii_lowercase(task@)),
            match target {
                Some(t) => Some(t@),
                None => None,
            },
            match signature {
                Some(s) => Some(s@),
                None => None,
            },
            if registry@.dom().contains(ascii_lowercase(task@)) {
                registry@[ascii_lowercase(task@)].package.secret_digest()
            } else {
                None
            },
        ),
        v != WebhookVerdict::Accepted ==> final(dispatcher)@ == old(dispatcher)@,
        v == WebhookVerdict::Accepted ==> exists|event: Event|
            event.valid() && event.task() == ascii_lowercase(task@) && final(dispatcher)@ == old(
                dispatcher,
            )@.push(event),
{
    let id = TaskId::new(task);
    let config = match registry.get(&id) {
        None => {
            return WebhookVerdict::TaskNotFound;
        },
        Some(config) => config,
    };
    let target = match target {
        None => {
            return WebhookVerdict::TargetMissing;
        },
        Some(target) => target,
    };
    if !same_text(target, REPOSITORY_TARGET) {
        return WebhookVerdict::TargetNotRepository;
    }
    let digest = config.secret_sha256();
    let verdict = check_signature(
        signature,
        match &digest {
            Some(d) => Some(d.as_str()),
            None => None,
        },
    );
    match verdict {
        WebhookVerdict::Accepted => {
            let event = Event::new(config.task_id());
            dispatcher.push_event(event);
            proof {
                crate::config_parser::lemma_ascii_lowercase_normalizes(task@);
            }
            assert(event.valid() && event.task() == ascii_lowercase(task@) && dispatcher@ == old(
                dispatcher,
            )@.push(event));
        },
        _ => {},
    }
    verdict
}

} // verus!
