//! What holds of every sync.

use super::gitsync::{
    resolved, SyncActionView, SyncEventView, SyncModel, SyncPhase, SyncState,
    DESTINATION_REMOTE, MIRROR_REFSPEC, ORIGIN_REMOTE,
};
use crate::config_parser::types::Config;
use vstd::prelude::*;

verus! {

/// Reports change neither the task that is synced nor the place of its
/// local mirror.
pub proof fn lemma_sync_keeps_task(sync: SyncModel, events: Seq<SyncEventView>)
    ensures
        sync.after_all(events).task == sync.task,
        sync.after_all(events).root == sync.root,
        sync.after_all(events).repo_path() == sync.repo_path(),
    decreases events.len(),
{
    if events.len() > 0 {
        lemma_sync_keeps_task(sync, events.drop_last());
    }
}

/// A sync never falls back to a state that it has left.
pub proof fn lemma_sync_never_goes_back(sync: SyncModel, event: SyncEventView)
    ensures
        sync.phase.state().rank() <= sync.after(event).phase.state().rank(),
{
}

/// A sync that is over stays as it ended, whatever is reported to it.
pub proof fn lemma_finished_sync_stays(sync: SyncModel, events: Seq<SyncEventView>)
    requires
        sync.phase.terminal(),
    ensures
        sync.after_all(events) == sync,
    decreases events.len(),
{
    if events.len() > 0 {
        lemma_finished_sync_stays(sync, events.drop_last());
    }
}

/// A failed operation ends the sync at once, from whatever state: the
/// sync is failed and reports the message of the operation.
pub proof fn lemma_error_ends_sync(sync: SyncModel, message: Seq<char>)
    requires
        !sync.phase.terminal(),
    ensures
        sync.after(SyncEventView::Error { message }).phase.state() == SyncState::Failed,
        sync.after(SyncEventView::Error { message }).action() == (SyncActionView::Finish {
            result: Err(message),
        }),
{
}

/// A sync ends in success only by a push that succeeded.
pub proof fn lemma_success_needs_push(sync: SyncModel, event: SyncEventView)
    requires
        sync.phase != SyncPhase::Synced,
        sync.after(event).phase == SyncPhase::Synced,
    ensures
        sync.phase == SyncPhase::Pushing,
        event == SyncEventView::Done,
{
}

/// Without credentials for the destination a sync never pushes and never
/// ends in success, whatever is reported to it.
pub proof fn lemma_no_push_without_destination_credentials(
    sync: SyncModel,
    events: Seq<SyncEventView>,
)
    requires
        resolved(sync.task.destination.auth) is None,
        sync.phase != SyncPhase::Pushing,
        sync.phase != SyncPhase::Synced,
    ensures
        sync.after_all(events).phase != SyncPhase::Pushing,
        sync.after_all(events).phase != SyncPhase::Synced,
        !(sync.after_all(events).action() is Push),
    decreases events.len(),
{
    if events.len() > 0 {
        lemma_no_push_without_destination_credentials(sync, events.drop_last());
        lemma_sync_keeps_task(sync, events.drop_last());
    }
}

/// The credentials of a valid task's destination resolve.
pub proof fn lemma_valid_task_has_destination_credentials(task: Config)
    requires
        task.is_valid(),
    ensures
        resolved(task.destination.auth) is Some,
{
}

/// The sync after the local mirror was found `present` or not and every
/// operation up to its opening succeeded.
pub open spec fn opened(start: SyncModel, present: bool) -> SyncModel {
    if present {
        start.after(SyncEventView::RepoPresent { present: true }).after(SyncEventView::Done)
    } else {
        start.after(SyncEventView::RepoPresent { present: false }).after(SyncEventView::Done).after(
            SyncEventView::Done,
        )
    }
}

/// The sync after the origin remote was pointed at its URL and the fetch
/// succeeded.
pub open spec fn fetched(ready: SyncModel) -> SyncModel {
    ready.after(SyncEventView::Done).after(SyncEventView::Done)
}

/// The sync after the destination remote was found to have the URL
/// `remote`, or not to exist, and every operation up to the push
/// succeeded.
pub open spec fn pushed(updated: SyncModel, remote: Option<Seq<char>>) -> SyncModel {
    let looked = updated.after(SyncEventView::RemoteUrl { url: remote });
    if remote == Some(updated.task.destination.url@) {
        looked.after(SyncEventView::Done)
    } else {
        looked.after(SyncEventView::Done).after(SyncEventView::Done)
    }
}

/// The sync of a valid task passes through its states in order and ends
/// in success when every operation succeeds, whether or not the local
/// mirror and the destination remote were there before.
pub proof fn lemma_undisturbed_sync_succeeds(
    start: SyncModel,
    present: bool,
    remote: Option<Seq<char>>,
)
    requires
        start.phase == SyncPhase::Probing,
        start.task.is_valid(),
    ensures
        start.phase.state() == SyncState::Uninitialized,
        opened(start, present).phase.state() == SyncState::RepoReady,
        fetched(opened(start, present)).phase.state() == SyncState::OriginUpdated,
        pushed(fetched(opened(start, present)), remote).phase.state() == SyncState::Synced,
        pushed(fetched(opened(start, present)), remote).action() == (SyncActionView::Finish {
            result: Ok(()),
        }),
{
}

/// A sync that finds the local mirror present and the destination remote
/// in place, as an earlier sync of the same task leaves them, asks for no
/// clone and no change of the destination remote. Its actions are, in
/// this order: probe, open, point the origin remote at its URL, fetch,
/// look the destination remote up, push, finish with success.
pub proof fn lemma_repeated_sync_only_fetches_and_pushes(start: SyncModel)
    requires
        start.phase == SyncPhase::Probing,
        start.task.is_valid(),
    ensures
        ({
            let probed = start.after(SyncEventView::RepoPresent { present: true });
            let open = probed.after(SyncEventView::Done);
            let aimed = open.after(SyncEventView::Done);
            let updated = aimed.after(SyncEventView::Done);
            let looked = updated.after(
                SyncEventView::RemoteUrl { url: Some(start.task.destination.url@) },
            );
            let done = looked.after(SyncEventView::Done);
            &&& start.action() == SyncActionView::ProbeRepo { path: start.repo_path() }
            &&& probed.action() == SyncActionView::OpenRepo { path: start.repo_path() }
            &&& open.action() == SyncActionView::SetRemoteUrl {
                remote: ORIGIN_REMOTE@,
                url: start.task.origin.url@,
            }
            &&& aimed.action() == SyncActionView::Fetch {
                remote: ORIGIN_REMOTE@,
                refspec: MIRROR_REFSPEC@,
                credentials: resolved(start.task.origin.auth),
                prune: true,
                follow_redirects: true,
                all_tags: true,
            }
            &&& updated.action() == SyncActionView::LookupRemote { remote: DESTINATION_REMOTE@ }
            &&& looked.action() == SyncActionView::Push {
                remote: DESTINATION_REMOTE@,
                refspec: MIRROR_REFSPEC@,
                credentials: resolved(start.task.destination.auth)->0,
            }
            &&& done.action() == SyncActionView::Finish { result: Ok(()) }
        }),
{
}

} // verus!
