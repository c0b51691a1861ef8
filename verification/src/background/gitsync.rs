//! The mirror sync of one task: open or clone the local mirror, fetch
//! everything from the origin, push everything to the destination.
//!
//! A `GitSyncWorker` performs no git operation. It says which operation is
//! due (`next_action`), is told how that operation went (`advance`), and
//! moves through its states accordingly. The caller performs the
//! operations.

use crate::config_parser::registry::TaskRegistry;
use crate::config_parser::types::{path_text, same_text, Config, GitAuth};
use crate::config_parser::TaskId;
use std::path::PathBuf;
use vstd::prelude::*;
use vstd::string::StringExecFns;

verus! {

/// The name of the remote that a mirror fetches from.
pub const ORIGIN_REMOTE: &'static str = "origin";

/// The name of the remote that a mirror pushes to.
pub const DESTINATION_REMOTE: &'static str = "syncto";

/// The refspec of a mirror: every reference, under its own name.
pub const MIRROR_REFSPEC: &'static str = "refs/*:refs/*";

/// The host pattern under which password credentials are offered: any.
pub const ANY_HOST: &'static str = "*";

/// The message of a sync that fails for want of destination credentials.
pub const NO_DESTINATION_AUTH: &'static str = "destination auth not found";

/// The message with which origin credentials are found missing.
pub const NO_ORIGIN_AUTH: &'static str = "origin auth not found";

/// The message of a sync that fails because it was told of something it
/// had not asked for.
pub const UNEXPECTED_EVENT: &'static str = "unexpected event";

/// How far a sync has come.
#[derive(Debug, Clone, Copy, PartialEq, Eq, Structural)]
pub enum SyncState {
    /// The local mirror is not open yet.
    Uninitialized,
    /// The local mirror is open.
    RepoReady,
    /// The local mirror holds what the origin holds.
    OriginUpdated,
    /// The destination holds what the origin holds.
    Synced,
    /// The sync failed and is over.
    Failed,
}

/// The operation that a sync waits for.
#[derive(Debug, Clone, Copy, PartialEq, Eq, Structural)]
pub enum SyncPhase {
    /// Looking whether the local mirror exists.
    Probing,
    /// Cloning the origin into a new local mirror.
    Cloning,
    /// Opening the local mirror.
    Opening,
    /// Pointing the origin remote at the configured URL.
    Retargeting,
    /// Fetching from the origin.
    Fetching,
    /// Looking up the destination remote.
    LookingUp,
    /// Creating the destination remote.
    AddingRemote,
    /// Pointing the destination remote at the configured URL.
    MovingRemote,
    /// Pushing to the destination.
    Pushing,
    /// Done, with success.
    Synced,
    /// Done, with a failure.
    Failed,
}

impl SyncPhase {
    /// The state that a sync is in while it waits in this phase.
    pub open spec fn state(self) -> SyncState {
        match self {
            SyncPhase::Probing | SyncPhase::Cloning | SyncPhase::Opening => SyncState::Uninitialized,
            SyncPhase::Retargeting | SyncPhase::Fetching => SyncState::RepoReady,
            SyncPhase::LookingUp | SyncPhase::AddingRemote | SyncPhase::MovingRemote
            | SyncPhase::Pushing => SyncState::OriginUpdated,
            SyncPhase::Synced => SyncState::Synced,
            SyncPhase::Failed => SyncState::Failed,
        }
    }

    /// Whether the sync is over.
    pub open spec fn terminal(self) -> bool {
        self == SyncPhase::Synced || self == SyncPhase::Failed
    }
}

impl SyncState {
    /// The place of a state in the order in which a sync passes through
    /// them.
    pub open spec fn rank(self) -> nat {
        match self {
            SyncState::Uninitialized => 0,
            SyncState::RepoReady => 1,
            SyncState::OriginUpdated => 2,
            SyncState::Synced => 3,
            SyncState::Failed => 3,
        }
    }
}

/// What to answer a transport's credential challenge with.
#[derive(Debug, PartialEq, Eq)]
pub enum Credentials {
    /// The private key in this file, without a passphrase.
    SshKeyFile { private_key: PathBuf },
    /// This user name and password, for every host that `domain` matches.
    Plaintext { domain: String, username: String, password: String },
}

/// `Credentials` as mathematics.
pub enum CredentialsView {
    SshKeyFile { private_key: Seq<char> },
    Plaintext { domain: Seq<char>, username: Seq<char>, password: Seq<char> },
}

impl View for Credentials {
    type V = CredentialsView;

    open spec fn view(&self) -> CredentialsView {
        match self {
            Credentials::SshKeyFile { private_key } => CredentialsView::SshKeyFile {
                private_key: path_text(*private_key),
            },
            Credentials::Plaintext { domain, username, password } => CredentialsView::Plaintext {
                domain: domain@,
                username: username@,
                password: password@,
            },
        }
    }
}

/// The credentials that an authentication descriptor yields: the key
/// where there is one, else the password for any host, else none.
pub open spec fn resolved(auth: Option<GitAuth>) -> Option<CredentialsView> {
    match auth {
        Some(a) => match a.rsa {
            Some(key) => Some(CredentialsView::SshKeyFile { private_key: key.private_key@ }),
            None => match a.pwd {
                Some(p) => Some(
                    CredentialsView::Plaintext {
                        domain: ANY_HOST@,
                        username: p.username@,
                        password: p.password@,
                    },
                ),
                None => None,
            },
        },
        None => None,
    }
}

/// Resolves an authentication descriptor to credentials, or to `None`
/// where it offers nothing usable.
pub fn resolve_credentials(auth: Option<&GitAuth>) -> (r: Option<Credentials>)
    ensures
        match r {
            Some(c) => auth is Some && resolved(Some(*auth->0)) == Some(c@),
            None => auth is None || resolved(Some(*auth->0)) is None,
        },
{
    match auth {
        None => None,
        Some(a) => match a.rsa() {
            Some(key) => Some(Credentials::SshKeyFile { private_key: key.private_key_path() }),
            None => match a.pwd() {
                Some(p) => Some(
                    Credentials::Plaintext {
                        domain: ANY_HOST.to_owned(),
                        username: p.username().to_owned(),
                        password: p.password().to_owned(),
                    },
                ),
                None => None,
            },
        },
    }
}

/// A git operation for the caller to perform, or the end of the sync.
#[derive(Debug, PartialEq, Eq)]
#[allow(inconsistent_fields)]
pub enum SyncAction {
    /// Report whether a repository exists at `path`.
    ProbeRepo { path: String },
    /// Make a mirror clone of `url` at `path`.
    CloneMirror { url: String, path: String },
    /// Open the repository at `path` and keep it for the rest of the sync.
    OpenRepo { path: String },
    /// Point the remote `remote` at `url`.
    SetRemoteUrl { remote: String, url: String },
    /// Fetch `refspec` from `remote`; anonymously where `credentials` is
    /// `None`. With `prune`, references that the remote deleted are
    /// deleted here; with `follow_redirects`, redirects of the transport
    /// are followed; with `all_tags`, every tag is taken.
    Fetch {
        remote: String,
        refspec: String,
        credentials: Option<Credentials>,
        prune: bool,
        follow_redirects: bool,
        all_tags: bool,
    },
    /// Report the URL of the remote `remote`, or that there is none.
    LookupRemote { remote: String },
    /// Create the remote `remote` for `url`.
    AddRemote { remote: String, url: String },
    /// Push `refspec` to `remote`.
    Push { remote: String, refspec: String, credentials: Credentials },
    /// The sync is over: report this result.
    Finish { result: Result<(), String> },
}

/// `SyncAction` as mathematics.
#[allow(inconsistent_fields)]
pub enum SyncActionView {
    ProbeRepo { path: Seq<char> },
    CloneMirror { url: Seq<char>, path: Seq<char> },
    OpenRepo { path: Seq<char> },
    SetRemoteUrl { remote: Seq<char>, url: Seq<char> },
    Fetch {
        remote: Seq<char>,
        refspec: Seq<char>,
        credentials: Option<CredentialsView>,
        prune: bool,
        follow_redirects: bool,
        all_tags: bool,
    },
    LookupRemote { remote: Seq<char> },
    AddRemote { remote: Seq<char>, url: Seq<char> },
    Push { remote: Seq<char>, refspec: Seq<char>, credentials: CredentialsView },
    Finish { result: Result<(), Seq<char>> },
}

impl View for SyncAction {
    type V = SyncActionView;

    open spec fn view(&self) -> SyncActionView {
        match self {
            SyncAction::ProbeRepo { path } => SyncActionView::ProbeRepo { path: path@ },
            SyncAction::CloneMirror { url, path } => SyncActionView::CloneMirror {
                url: url@,
                path: path@,
            },
            SyncAction::OpenRepo { path } => SyncActionView::OpenRepo { path: path@ },
            SyncAction::SetRemoteUrl { remote, url } => SyncActionView::SetRemoteUrl {
                remote: remote@,
                url: url@,
            },
            SyncAction::Fetch {
                remote,
                refspec,
                credentials,
                prune,
                follow_redirects,
                all_tags,
            } => SyncActionView::Fetch {
                remote: remote@,
                refspec: refspec@,
                credentials: match credentials {
                    Some(c) => Some(c@),
                    None => None,
                },
                prune: *prune,
                follow_redirects: *follow_redirects,
                all_tags: *all_tags,
            },
            SyncAction::LookupRemote { remote } => SyncActionView::LookupRemote { remote: remote@ },
            SyncAction::AddRemote { remote, url } => SyncActionView::AddRemote {
                remote: remote@,
                url: url@,
            },
            SyncAction::Push { remote, refspec, credentials } => SyncActionView::Push {
                remote: remote@,
                refspec: refspec@,
                credentials: credentials@,
            },
            SyncAction::Finish { result } => SyncActionView::Finish {
                result: match result {
                    Ok(()) => Ok(()),
                    Err(e) => Err(e@),
                },
            },
        }
    }
}

/// What the caller reports back after an action.
#[derive(Debug, PartialEq, Eq)]
pub enum SyncEvent {
    /// The answer to `ProbeRepo`.
    RepoPresent { present: bool },
    /// The answer to `LookupRemote`.
    RemoteUrl { url: Option<String> },
    /// The action succeeded.
    Done,
    /// The action failed, with this message.
    Error { message: String },
}

/// `SyncEvent` as mathematics.
pub enum SyncEventView {
    RepoPresent { present: bool },
    RemoteUrl { url: Option<Seq<char>> },
    Done,
    Error { message: Seq<char> },
}

impl View for SyncEvent {
    type V = SyncEventView;

    open spec fn view(&self) -> SyncEventView {
        match self {
            SyncEvent::RepoPresent { present } => SyncEventView::RepoPresent { present: *present },
            SyncEvent::RemoteUrl { url } => SyncEventView::RemoteUrl {
                url: match url {
                    Some(u) => Some(u@),
                    None => None,
                },
            },
            SyncEvent::Done => SyncEventView::Done,
            SyncEvent::Error { message } => SyncEventView::Error { message: message@ },
        }
    }
}

/// A sync as mathematics: the task, the directory that holds all local
/// mirrors, the phase, and the message of the failure if there was one.
pub struct SyncModel {
    pub task: Config,
    pub root: Seq<char>,
    pub phase: SyncPhase,
    pub failure: Seq<char>,
}

impl SyncModel {
    /// Where the local mirror of the task lives: in the directory named
    /// after its identifier, under the root.
    pub open spec fn repo_path(self) -> Seq<char> {
        self.root + "/"@ + self.task.id()
    }

    /// The phase that follows the destination remote being in place: the
    /// push, where the destination's credentials resolve; failure, where
    /// they do not.
    pub open spec fn push_or_fail(self) -> SyncModel {
        if resolved(self.task.destination.auth) is Some {
            SyncModel { phase: SyncPhase::Pushing, ..self }
        } else {
            self.fail(NO_DESTINATION_AUTH@)
        }
    }

    /// The sync, failed with `message`.
    pub open spec fn fail(self, message: Seq<char>) -> SyncModel {
        SyncModel { phase: SyncPhase::Failed, failure: message, ..self }
    }

    /// The sync in another phase.
    pub open spec fn at(self, phase: SyncPhase) -> SyncModel {
        SyncModel { phase, ..self }
    }

    /// The sync after `event` was reported.
    ///
    /// A sync that is over stays as it is. A reported error ends the sync
    /// in failure, with the error's message. Otherwise the answer that the
    /// phase waits for moves the sync on, and any other ends it in
    /// failure.
    pub open spec fn after(self, event: SyncEventView) -> SyncModel {
        if self.phase.terminal() {
            self
        } else {
            match (self.phase, event) {
                (_, SyncEventView::Error { message }) => self.fail(message),
                (SyncPhase::Probing, SyncEventView::RepoPresent { present }) => if present {
                    self.at(SyncPhase::Opening)
                } else {
                    self.at(SyncPhase::Cloning)
                },
                (SyncPhase::Cloning, SyncEventView::Done) => self.at(SyncPhase::Opening),
                (SyncPhase::Opening, SyncEventView::Done) => self.at(SyncPhase::Retargeting),
                (SyncPhase::Retargeting, SyncEventView::Done) => self.at(SyncPhase::Fetching),
                (SyncPhase::Fetching, SyncEventView::Done) => self.at(SyncPhase::LookingUp),
                (SyncPhase::LookingUp, SyncEventView::RemoteUrl { url }) => match url {
                    None => self.at(SyncPhase::AddingRemote),
                    Some(u) => if u == self.task.destination.url@ {
                        self.push_or_fail()
                    } else {
                        self.at(SyncPhase::MovingRemote)
                    },
                },
                (SyncPhase::AddingRemote, SyncEventView::Done) => self.push_or_fail(),
                (SyncPhase::MovingRemote, SyncEventView::Done) => self.push_or_fail(),
                (SyncPhase::Pushing, SyncEventView::Done) => self.at(SyncPhase::Synced),
                _ => self.fail(UNEXPECTED_EVENT@),
            }
        }
    }

    /// The action that is due.
    pub open spec fn action(self) -> SyncActionView {
        match self.phase {
            SyncPhase::Probing => SyncActionView::ProbeRepo { path: self.repo_path() },
            SyncPhase::Cloning => SyncActionView::CloneMirror {
                url: self.task.origin.url@,
                path: self.repo_path(),
            },
            SyncPhase::Opening => SyncActionView::OpenRepo { path: self.repo_path() },
            SyncPhase::Retargeting => SyncActionView::SetRemoteUrl {
                remote: ORIGIN_REMOTE@,
                url: self.task.origin.url@,
            },
            SyncPhase::Fetching => SyncActionView::Fetch {
                remote: ORIGIN_REMOTE@,
                refspec: MIRROR_REFSPEC@,
                credentials: resolved(self.task.origin.auth),
                prune: true,
                follow_redirects: true,
                all_tags: true,
            },
            SyncPhase::LookingUp => SyncActionView::LookupRemote { remote: DESTINATION_REMOTE@ },
            SyncPhase::AddingRemote => SyncActionView::AddRemote {
                remote: DESTINATION_REMOTE@,
                url: self.task.destination.url@,
            },
            SyncPhase::MovingRemote => SyncActionView::SetRemoteUrl {
                remote: DESTINATION_REMOTE@,
                url: self.task.destination.url@,
            },
            SyncPhase::Pushing => match resolved(self.task.destination.auth) {
                Some(credentials) => SyncActionView::Push {
                    remote: DESTINATION_REMOTE@,
                    refspec: MIRROR_REFSPEC@,
                    credentials,
                },
                None => SyncActionView::Finish { result: Err(NO_DESTINATION_AUTH@) },
            },
            SyncPhase::Synced => SyncActionView::Finish { result: Ok(()) },
            SyncPhase::Failed => SyncActionView::Finish { result: Err(self.failure) },
        }
    }

    /// The sync after a sequence of reports, taken in order.
    pub open spec fn after_all(self, events: Seq<SyncEventView>) -> SyncModel
        decreases events.len(),
    {
        if events.len() == 0 {
            self
        } else {
            self.after_all(events.drop_last()).after(events.last())
        }
    }
}

/// The sync of one task.
#[derive(Debug)]
pub struct GitSyncWorker {
    task: Config,
    root: String,
    phase: SyncPhase,
    failure: String,
}

impl View for GitSyncWorker {
    type V = SyncModel;

    closed spec fn view(&self) -> SyncModel {
        SyncModel { task: self.task, root: self.root@, phase: self.phase, failure: self.failure@ }
    }
}

impl GitSyncWorker {
    /// A sync of `task` that has not begun, with the local mirrors under
    /// `clone_root`.
    pub fn new(task: Config, clone_root: &str) -> (r: Result<GitSyncWorker, String>)
        ensures
            r is Ok,
            r->Ok_0@ == (SyncModel {
                task,
                root: clone_root@,
                phase: SyncPhase::Probing,
                failure: Seq::<char>::empty(),
            }),
    {
        Ok(
            GitSyncWorker {
                task,
                root: clone_root.to_owned(),
                phase: SyncPhase::Probing,
                failure: String::new(),
            },
        )
    }

    /// The task that is synced.
    pub fn task(&self) -> (t: &Config)
        ensures
            *t == self@.task,
    {
        &self.task
    }

    /// The phase that the sync waits in.
    pub fn phase(&self) -> (p: SyncPhase)
        ensures
            p == self@.phase,
    {
        self.phase
    }

    /// How far the sync has come.
    pub fn state(&self) -> (s: SyncState)
        ensures
            s == self@.phase.state(),
    {
        match self.phase {
            SyncPhase::Probing | SyncPhase::Cloning | SyncPhase::Opening => SyncState::Uninitialized,
            SyncPhase::Retargeting | SyncPhase::Fetching => SyncState::RepoReady,
            SyncPhase::LookingUp | SyncPhase::AddingRemote | SyncPhase::MovingRemote
            | SyncPhase::Pushing => SyncState::OriginUpdated,
            SyncPhase::Synced => SyncState::Synced,
            SyncPhase::Failed => SyncState::Failed,
        }
    }

    /// Whether the sync is over.
    pub fn is_finished(&self) -> (r: bool)
        ensures
            r == self@.phase.terminal(),
    {
        match self.phase {
            SyncPhase::Synced | SyncPhase::Failed => true,
            _ => false,
        }
    }

    /// Where the local mirror of the task lives.
    pub fn repo_path(&self) -> (path: String)
        ensures
            path@ == self@.repo_path(),
    {
        let id = self.task.task_id();
        let mut path = self.root.clone();
        path.append("/");
        path.append(id.as_str());
        path
    }

    /// The credentials for the origin, or the complaint that it offers
    /// none. The fetch then goes on without.
    pub fn source_auth_options(&self) -> (r: Result<Credentials, String>)
        ensures
            match r {
                Ok(c) => resolved(self@.task.origin.auth) == Some(c@),
                Err(e) => resolved(self@.task.origin.auth) is None && e@ == NO_ORIGIN_AUTH@,
            },
    {
        match resolve_credentials(self.task.origin().auth()) {
            Some(c) => Ok(c),
            None => Err(NO_ORIGIN_AUTH.to_owned()),
        }
    }

    /// The credentials for the destination, or the complaint that it
    /// offers none. The sync then fails.
    pub fn destination_auth_options(&self) -> (r: Result<Credentials, String>)
        ensures
            match r {
                Ok(c) => resolved(self@.task.destination.auth) == Some(c@),
                Err(e) => resolved(self@.task.destination.auth) is None && e@
                    == NO_DESTINATION_AUTH@,
            },
    {
        match resolve_credentials(self.task.destination().auth()) {
            Some(c) => Ok(c),
            None => Err(NO_DESTINATION_AUTH.to_owned()),
        }
    }

    /// The action that is due. On a sync that is over, the result to
    /// report.
    pub fn next_action(&self) -> (a: SyncAction)
        ensures
            a@ == self@.action(),
    {
        match self.phase {
            SyncPhase::Probing => SyncAction::ProbeRepo { path: self.repo_path() },
            SyncPhase::Cloning => SyncAction::CloneMirror {
                url: self.task.origin().url().to_owned(),
                path: self.repo_path(),
            },
            SyncPhase::Opening => SyncAction::OpenRepo { path: self.repo_path() },
            SyncPhase::Retargeting => SyncAction::SetRemoteUrl {
                remote: ORIGIN_REMOTE.to_owned(),
                url: self.task.origin().url().to_owned(),
            },
            SyncPhase::Fetching => {
                let credentials = match self.source_auth_options() {
                    Ok(c) => Some(c),
                    Err(_) => None,
                };
                SyncAction::Fetch {
                    remote: ORIGIN_REMOTE.to_owned(),
                    refspec: MIRROR_REFSPEC.to_owned(),
                    credentials,
                    prune: true,
                    follow_redirects: true,
                    all_tags: true,
                }
            },
            SyncPhase::LookingUp => SyncAction::LookupRemote {
                remote: DESTINATION_REMOTE.to_owned(),
            },
            SyncPhase::AddingRemote => SyncAction::AddRemote {
                remote: DESTINATION_REMOTE.to_owned(),
                url: self.task.destination().url().to_owned(),
            },
            SyncPhase::MovingRemote => SyncAction::SetRemoteUrl {
                remote: DESTINATION_REMOTE.to_owned(),
                url: self.task.destination().url().to_owned(),
            },
            SyncPhase::Pushing => match self.destination_auth_options() {
                Ok(credentials) => SyncAction::Push {
                    remote: DESTINATION_REMOTE.to_owned(),
                    refspec: MIRROR_REFSPEC.to_owned(),
                    credentials,
                },
                Err(message) => SyncAction::Finish { result: Err(message) },
            },
            SyncPhase::Synced => SyncAction::Finish { result: Ok(()) },
            SyncPhase::Failed => SyncAction::Finish { result: Err(self.failure.clone()) },
        }
    }

    /// Takes in what became of the last action and returns the action
    /// that is due now.
    pub fn advance(&mut self, event: SyncEvent) -> (a: SyncAction)
        ensures
            final(self)@ == old(self)@.after(event@),
            a@ == final(self)@.action(),
    {
        match self.phase {
            SyncPhase::Synced | SyncPhase::Failed => {},
            SyncPhase::Probing | SyncPhase::Cloning | SyncPhase::Opening => {
                self.clone_or_open_repo(event);
            },
            SyncPhase::Retargeting | SyncPhase::Fetching => {
                self.update_repo(event);
            },
            SyncPhase::LookingUp | SyncPhase::AddingRemote | SyncPhase::MovingRemote
            | SyncPhase::Pushing => {
                self.sync(event);
            },
        }
        self.next_action()
    }

    fn fail(&mut self, message: String)
        ensures
            final(self)@ == old(self)@.fail(message@),
    {
        self.phase = SyncPhase::Failed;
        self.failure = message;
    }

    fn push_or_fail(&mut self)
        ensures
            final(self)@ == old(self)@.push_or_fail(),
    {
        match self.destination_auth_options() {
            Ok(_) => {
                self.phase = SyncPhase::Pushing;
            },
            Err(message) => {
                self.fail(message);
            },
        }
    }

    /// From nothing to the open local mirror: the mirror is opened where
    /// it exists and cloned first where it does not.
    fn clone_or_open_repo(&mut self, event: SyncEvent)
        requires
            old(self)@.phase.state() == SyncState::Uninitialized,
        ensures
            final(self)@ == old(self)@.after(event@),
    {
        match event {
            SyncEvent::Error { message } => {
                self.fail(message);
            },
            SyncEvent::RepoPresent { present } => match self.phase {
                SyncPhase::Probing => {
                    if present {
                        self.phase = SyncPhase::Opening;
                    } else {
                        self.phase = SyncPhase::Cloning;
                    }
                },
                _ => {
                    self.fail(UNEXPECTED_EVENT.to_owned());
                },
            },
            SyncEvent::Done => match self.phase {
                SyncPhase::Cloning => {
                    self.phase = SyncPhase::Opening;
                },
                SyncPhase::Opening => {
                    self.phase = SyncPhase::Retargeting;
                },
                _ => {
                    self.fail(UNEXPECTED_EVENT.to_owned());
                },
            },
            SyncEvent::RemoteUrl { url } => {
                self.fail(UNEXPECTED_EVENT.to_owned());
            },
        }
    }

    /// From the open local mirror to the one that holds what the origin
    /// holds: the origin remote is pointed at the configured URL, then
    /// fetched from.
    fn update_repo(&mut self, event: SyncEvent)
        requires
            old(self)@.phase.state() == SyncState::RepoReady,
        ensures
            final(self)@ == old(self)@.after(event@),
    {
        match event {
            SyncEvent::Error { message } => {
                self.fail(message);
            },
            SyncEvent::Done => match self.phase {
                SyncPhase::Retargeting => {
                    self.phase = SyncPhase::Fetching;
                },
                SyncPhase::Fetching => {
                    self.phase = SyncPhase::LookingUp;
                },
                _ => {
                    self.fail(UNEXPECTED_EVENT.to_owned());
                },
            },
            _ => {
                self.fail(UNEXPECTED_EVENT.to_owned());
            },
        }
    }

    /// From the updated local mirror to the synced destination: the
    /// destination remote is created where it is missing and moved where
    /// it points elsewhere, the destination's credentials are resolved,
    /// and everything is pushed.
    pub fn sync(&mut self, event: SyncEvent)
        requires
            old(self)@.phase.state() == SyncState::OriginUpdated,
        ensures
            final(self)@ == old(self)@.after(event@),
    {
        match event {
            SyncEvent::Error { message } => {
                self.fail(message);
            },
            SyncEvent::RemoteUrl { url } => match self.phase {
                SyncPhase::LookingUp => match url {
                    None => {
                        self.phase = SyncPhase::AddingRemote;
                    },
                    Some(u) => {
                        if same_text(u.as_str(), self.task.destination().url()) {
                            self.push_or_fail();
                        } else {
                            self.phase = SyncPhase::MovingRemote;
                        }
                    },
                },
                _ => {
                    self.fail(UNEXPECTED_EVENT.to_owned());
                },
            },
            SyncEvent::Done => match self.phase {
                SyncPhase::AddingRemote | SyncPhase::MovingRemote => {
                    self.push_or_fail();
                },
                SyncPhase::Pushing => {
                    self.phase = SyncPhase::Synced;
                },
                _ => {
                    self.fail(UNEXPECTED_EVENT.to_owned());
                },
            },
            SyncEvent::RepoPresent { present } => {
                self.fail(UNEXPECTED_EVENT.to_owned());
            },
        }
    }
}

/// Begins the sync of the task registered under `task_id`, with the local
/// mirrors under `clone_root`. The task must be registered: to ask for
/// the sync of an unknown task is a mistake of the caller.
pub fn sync_git(registry: &TaskRegistry, task_id: &TaskId, clone_root: &str) -> (w: GitSyncWorker)
    requires
        registry@.dom().contains(task_id@),
    ensures
        w@ == (SyncModel {
            task: registry@[task_id@],
            root: clone_root@,
            phase: SyncPhase::Probing,
            failure: Seq::<char>::empty(),
        }),
        w@.task.is_valid(),
        w@.task.id() == task_id@,
{
    let task = registry.get(task_id).unwrap().clone();
    GitSyncWorker::new(task, clone_root).unwrap()
}

} // verus!
