//! The configuration of one mirror task.

use super::digest::{sha256_hex, sha256_hex_of};
use super::{ascii_lowercase, TaskId};
use std::path::PathBuf;
use vstd::prelude::*;

verus! {

/// What `str::to_lowercase` of std returns for a text: its Unicode
/// lower-case form.
pub uninterp spec fn unicode_lowercase(text: Seq<char>) -> Seq<char>;

/// `str::to_lowercase` of std.
#[verifier::external_body]
fn to_lowercase(s: &str) -> (r: String)
    ensures
        r@ == unicode_lowercase(s@),
{
    s.to_lowercase()
}

/// `std::path::PathBuf`, an owned path, as an opaque type.
#[verifier::external_type_specification]
#[verifier::external_body]
pub struct ExPathBuf(PathBuf);

/// The text that a path holds.
pub uninterp spec fn path_text(path: PathBuf) -> Seq<char>;

/// `PathBuf::from` of std on a string: the path spelled by that string.
#[verifier::external_body]
fn path_from(s: &String) -> (p: PathBuf)
    ensures
        path_text(p) == s@,
{
    PathBuf::from(s)
}

/// Whether two texts are the same, character for character.
pub fn same_text(a: &str, b: &str) -> (r: bool)
    ensures
        r == (a@ == b@),
{
    a.to_owned() == b.to_owned()
}

/// A user name and password for a git endpoint.
#[derive(Debug, PartialEq, Eq)]
pub struct GitPasswordAuth {
    pub username: String,
    pub password: String,
}

impl Clone for GitPasswordAuth {
    fn clone(&self) -> (r: Self)
        ensures
            r == *self,
    {
        GitPasswordAuth { username: self.username.clone(), password: self.password.clone() }
    }
}

impl GitPasswordAuth {
    pub fn username(&self) -> (s: &str)
        ensures
            s@ == self.username@,
    {
        self.username.as_str()
    }

    pub fn password(&self) -> (s: &str)
        ensures
            s@ == self.password@,
    {
        self.password.as_str()
    }
}

/// The files of a key pair for a git endpoint, by path.
#[derive(Debug, PartialEq, Eq)]
pub struct GitRSAAuth {
    /// Path of the private key file.
    pub private_key: String,
    /// Path of the public key file.
    pub public_key: String,
}

impl Clone for GitRSAAuth {
    fn clone(&self) -> (r: Self)
        ensures
            r == *self,
    {
        GitRSAAuth { private_key: self.private_key.clone(), public_key: self.public_key.clone() }
    }
}

impl GitRSAAuth {
    pub fn private_key_path(&self) -> (p: PathBuf)
        ensures
            path_text(p) == self.private_key@,
    {
        path_from(&self.private_key)
    }

    pub fn public_key_path(&self) -> (p: PathBuf)
        ensures
            path_text(p) == self.public_key@,
    {
        path_from(&self.public_key)
    }
}

/// How to authenticate to a git endpoint: by key, by password, or, with
/// neither present, not at all.
#[derive(Debug, PartialEq, Eq)]
pub struct GitAuth {
    pub rsa: Option<GitRSAAuth>,
    pub pwd: Option<GitPasswordAuth>,
}

impl Clone for GitAuth {
    fn clone(&self) -> (r: Self)
        ensures
            r == *self,
    {
        GitAuth {
            rsa: match &self.rsa {
                Some(k) => Some(k.clone()),
                None => None,
            },
            pwd: match &self.pwd {
                Some(p) => Some(p.clone()),
                None => None,
            },
        }
    }
}

impl GitAuth {
    /// At least one way to authenticate is present.
    pub open spec fn has_method(&self) -> bool {
        self.rsa is Some || self.pwd is Some
    }

    pub fn rsa(&self) -> (r: Option<&GitRSAAuth>)
        ensures
            r is Some == self.rsa is Some,
            r matches Some(a) ==> *a == self.rsa->0,
    {
        self.rsa.as_ref()
    }

    pub fn pwd(&self) -> (r: Option<&GitPasswordAuth>)
        ensures
            r is Some == self.pwd is Some,
            r matches Some(a) ==> *a == self.pwd->0,
    {
        self.pwd.as_ref()
    }
}

/// One side of a mirror: a repository URL, how to authenticate there, and
/// a hint at the hosting provider.
#[derive(Debug, PartialEq, Eq)]
pub struct GitEndpoint {
    pub url: String,
    pub auth: Option<GitAuth>,
    pub endpoint_type: Option<String>,
}

impl Clone for GitEndpoint {
    fn clone(&self) -> (r: Self)
        ensures
            r == *self,
    {
        GitEndpoint {
            url: self.url.clone(),
            auth: match &self.auth {
                Some(a) => Some(a.clone()),
                None => None,
            },
            endpoint_type: match &self.endpoint_type {
                Some(t) => Some(t.clone()),
                None => None,
            },
        }
    }
}

impl GitEndpoint {
    /// The provider hint is present and reads `name` once lower-cased.
    pub open spec fn is_provider(&self, name: Seq<char>) -> bool {
        self.endpoint_type matches Some(t) && unicode_lowercase(t@) == name
    }

    /// The endpoint carries an authentication descriptor with at least
    /// one method in it.
    pub open spec fn has_auth_method(&self) -> bool {
        self.auth matches Some(a) && a.has_method()
    }

    fn provider_is(&self, name: &str) -> (r: bool)
        ensures
            r == self.is_provider(name@),
    {
        match &self.endpoint_type {
            Some(t) => {
                let lowered = to_lowercase(t.as_str());
                same_text(lowered.as_str(), name)
            },
            None => false,
        }
    }

    pub fn is_github(&self) -> (r: bool)
        ensures
            r == self.is_provider("github"@),
    {
        self.provider_is("github")
    }

    pub fn is_gitee(&self) -> (r: bool)
        ensures
            r == self.is_provider("gitee"@),
    {
        self.provider_is("gitee")
    }

    pub fn is_gitlab(&self) -> (r: bool)
        ensures
            r == self.is_provider("gitlab"@),
    {
        self.provider_is("gitlab")
    }

    pub fn url(&self) -> (s: &str)
        ensures
            s@ == self.url@,
    {
        self.url.as_str()
    }

    pub fn auth(&self) -> (r: Option<&GitAuth>)
        ensures
            r is Some == self.auth is Some,
            r matches Some(a) ==> *a == self.auth->0,
    {
        self.auth.as_ref()
    }
}

/// The naming part of a task: its display name, the webhook key that
/// identifies it, and the secret shared with the webhook's sender.
#[derive(Debug, PartialEq, Eq)]
pub struct Package {
    pub name: String,
    /// Unique over all tasks: the last segment of the webhook's URL.
    pub webhook_name: String,
    pub secret: Option<String>,
}

impl Clone for Package {
    fn clone(&self) -> (r: Self)
        ensures
            r == *self,
    {
        Package {
            name: self.name.clone(),
            webhook_name: self.webhook_name.clone(),
            secret: match &self.secret {
                Some(s) => Some(s.clone()),
                None => None,
            },
        }
    }
}

impl Package {
    /// The hexadecimal SHA-256 digest of the secret, where there is one.
    pub open spec fn secret_digest(&self) -> Option<Seq<char>> {
        match self.secret {
            Some(s) => Some(sha256_hex(s@)),
            None => None,
        }
    }

    pub fn secret(&self) -> (r: Option<&str>)
        ensures
            r is Some == self.secret is Some,
            r matches Some(s) ==> s@ == self.secret->0@,
    {
        match &self.secret {
            Some(s) => Some(s.as_str()),
            None => None,
        }
    }

    pub fn secret_sha256(&self) -> (r: Option<String>)
        ensures
            r is Some == self.secret is Some,
            r matches Some(d) ==> Some(d@) == self.secret_digest(),
    {
        match &self.secret {
            Some(s) => Some(sha256_hex_of(s.as_str())),
            None => None,
        }
    }
}

/// A mirror task: where to fetch from and where to push to.
#[derive(Debug, PartialEq, Eq)]
pub struct Config {
    pub package: Package,
    pub origin: GitEndpoint,
    pub destination: GitEndpoint,
}

impl Clone for Config {
    fn clone(&self) -> (r: Self)
        ensures
            r == *self,
    {
        Config {
            package: self.package.clone(),
            origin: self.origin.clone(),
            destination: self.destination.clone(),
        }
    }
}

impl Config {
    /// What a task must satisfy to be registered: it has a name and a
    /// webhook key, both endpoints have a URL, and the destination says
    /// how to authenticate.
    pub open spec fn is_valid(&self) -> bool {
        &&& self.package.name@.len() > 0
        &&& self.package.webhook_name@.len() > 0
        &&& self.origin.url@.len() > 0
        &&& self.destination.url@.len() > 0
        &&& self.destination.has_auth_method()
    }

    /// The complaint about the first requirement of `is_valid` that the
    /// task breaks, in the order in which they are listed there.
    pub open spec fn validation_error(&self) -> Option<Seq<char>> {
        if self.package.name@.len() == 0 {
            Some("package name is empty"@)
        } else if self.package.webhook_name@.len() == 0 {
            Some("webhook name is empty"@)
        } else if self.origin.url@.len() == 0 {
            Some("origin url is empty"@)
        } else if self.destination.url@.len() == 0 {
            Some("destination url is empty"@)
        } else if !self.destination.has_auth_method() {
            Some("destination auth is empty"@)
        } else {
            None
        }
    }

    /// The identifier of the task: its webhook key, normalized.
    pub open spec fn id(&self) -> Seq<char> {
        ascii_lowercase(self.package.webhook_name@)
    }

    pub fn name(&self) -> (s: &str)
        ensures
            s@ == self.package.name@,
    {
        self.package.name.as_str()
    }

    pub fn task_id(&self) -> (t: TaskId)
        ensures
            t@ == self.id(),
    {
        TaskId::new(self.package.webhook_name.as_str())
    }

    pub fn secret_sha256(&self) -> (r: Option<String>)
        ensures
            r is Some == self.package.secret is Some,
            r matches Some(d) ==> Some(d@) == self.package.secret_digest(),
    {
        self.package.secret_sha256()
    }

    /// Accepts the task or names the first requirement that it breaks.
    pub fn validate(&self) -> (r: Result<(), String>)
        ensures
            r is Ok == self.is_valid(),
            r matches Err(e) ==> Some(e@) == self.validation_error(),
    {
        self.check_empty()
    }

    pub fn origin(&self) -> (e: &GitEndpoint)
        ensures
            *e == self.origin,
    {
        &self.origin
    }

    pub fn destination(&self) -> (e: &GitEndpoint)
        ensures
            *e == self.destination,
    {
        &self.destination
    }

    fn check_empty(&self) -> (r: Result<(), String>)
        ensures
            r is Ok == self.is_valid(),
            r matches Err(e) ==> Some(e@) == self.validation_error(),
    {
        if self.package.name.as_str().is_empty() {
            return Err("package name is empty".to_owned());
        }
        if self.package.webhook_name.as_str().is_empty() {
            return Err("webhook name is empty".to_owned());
        }
        if self.origin.url.as_str().is_empty() {
            return Err("origin url is empty".to_owned());
        }
        if self.destination.url.as_str().is_empty() {
            return Err("destination url is empty".to_owned());
        }
        match &self.destination.auth {
            None => Err("destination auth is empty".to_owned()),
            Some(auth) => {
                if auth.pwd.is_none() && auth.rsa.is_none() {
                    Err("destination auth is empty".to_owned())
                } else {
                    Ok(())
                }
            },
        }
    }
}

/// A task that names no way to authenticate at its destination is never
/// valid, whatever else it holds.
pub proof fn lemma_destination_auth_required(task: Config)
    requires
        !task.destination.has_auth_method(),
    ensures
        !task.is_valid(),
        task.validation_error() is Some,
{
}

} // verus!
