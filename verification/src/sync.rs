//! The client sync loop's decisions: what the poll activity does with an
//! observed local snapshot, what the receive activity does with an inbound
//! relay message, and how an applied remote update is anchored so the next
//! poll tick does not re-detect it.

use vstd::prelude::*;

use crate::classifier::{
    spec_classify, spec_is_echo, spec_mark_sent, spec_record_server_apply, ClipboardManager,
    GRACE_SECS,
};
use crate::fingerprint::spec_fingerprint;
use crate::relay::MessageKind;
use crate::snapshot::ClipboardData;

verus! {

/// Reference interval between two polls of the local clipboard, in
/// milliseconds.
pub const POLL_INTERVAL_MS: u64 = 100;

/// How many times a failing clipboard read is attempted within one tick
/// before the tick is skipped.
pub const READ_ATTEMPTS: u8 = 3;

/// Delay between two read attempts within one tick, in milliseconds.
pub const READ_RETRY_DELAY_MS: u64 = 10;

/// Minimum interval between two pushes to the relay, in milliseconds; a push
/// due sooner is dropped, not queued, because only the latest value matters.
pub const MIN_POST_INTERVAL_MS: u64 = 200;

/// What the poll activity does with one observed snapshot.
#[derive(Clone, Copy, Debug, PartialEq, Eq, Structural)]
pub enum PollAction {
    /// Not a genuine change: nothing to do this tick.
    Ignore,
    /// A genuine change, noted as sent, but due too soon after the previous
    /// push: dropped.
    RateLimited,
    /// A genuine change to push to the relay now.
    Push,
}

/// The decision state of one client sync loop: the classifier it owns
/// exclusively, and when it last pushed.
pub struct ClientSyncLoop {
    pub classifier: ClipboardManager,
    pub last_post_ms: Option<u64>,
}

/// One poll tick over fingerprints: classify the snapshot as a local read;
/// when accepted, note it as sent and push it unless the previous push was
/// less than [`MIN_POST_INTERVAL_MS`] ago.
pub open spec fn spec_poll_tick(
    st: ClientSyncLoop,
    fp: u64,
    snapshot_ts: u64,
    now_ms: u64,
) -> (ClientSyncLoop, PollAction) {
    let (c1, accepted) = spec_classify(st.classifier, fp, snapshot_ts, false, None);
    if !accepted {
        (ClientSyncLoop { classifier: c1, ..st }, PollAction::Ignore)
    } else {
        let c2 = spec_mark_sent(c1, fp);
        if st.last_post_ms is Some && now_ms < st.last_post_ms->0 + MIN_POST_INTERVAL_MS {
            (ClientSyncLoop { classifier: c2, ..st }, PollAction::RateLimited)
        } else {
            (ClientSyncLoop { classifier: c2, last_post_ms: Some(now_ms) }, PollAction::Push)
        }
    }
}

impl ClientSyncLoop {
    /// A fresh loop: fresh classifier, nothing pushed yet.
    pub fn new() -> (r: ClientSyncLoop)
        ensures
            r.classifier.last_content_hash is None,
            r.classifier.last_server_timestamp is None,
            r.classifier.last_sent_hash is None,
            r.last_post_ms is None,
    {
        ClientSyncLoop { classifier: ClipboardManager::new(), last_post_ms: None }
    }

    /// Decides what to do with one snapshot the poll activity read, exactly
    /// as [`spec_poll_tick`] says; `now_ms` comes from a monotonic clock.
    pub fn poll_tick(&mut self, data: &ClipboardData, now_ms: u64) -> (a: PollAction)
        ensures
            ({
                let (st, act) = spec_poll_tick(
                    *old(self),
                    spec_fingerprint(data@),
                    data.timestamp,
                    now_ms,
                );
                *final(self) == st && a == act
            }),
    {
        let accepted = self.classifier.has_content_changed(data, false, None);
        if !accepted {
            return PollAction::Ignore;
        }
        self.classifier.mark_content_as_sent(data);
        let limited = match self.last_post_ms {
            Some(last) => now_ms <= last || now_ms - last < MIN_POST_INTERVAL_MS,
            None => false,
        };
        if limited {
            PollAction::RateLimited
        } else {
            self.last_post_ms = Some(now_ms);
            PollAction::Push
        }
    }

    /// Whether an inbound relay message must be applied to the local
    /// clipboard: only a fan-out update that is not this client's own
    /// just-sent content bouncing back.
    pub fn should_apply_remote(&self, kind: MessageKind, data: &ClipboardData) -> (r: bool)
        ensures
            r == (kind == MessageKind::ClipboardUpdate && !spec_is_echo(
                self.classifier,
                spec_fingerprint(data@),
            )),
    {
        if kind == MessageKind::ClipboardUpdate {
            !self.classifier.is_own_content_returned(data)
        } else {
            false
        }
    }

    /// After a remote snapshot was written to the local clipboard and the
    /// actual resulting content was read back (the write may have been
    /// transformed by the platform), anchors that read-back content and the
    /// message's timestamp in the classifier.
    pub fn record_server_apply(&mut self, actual: &ClipboardData, server_timestamp: u64)
        ensures
            final(self).classifier == spec_record_server_apply(
                old(self).classifier,
                spec_fingerprint(actual@),
                server_timestamp,
            ),
            final(self).last_post_ms == old(self).last_post_ms,
    {
        self.classifier.record_server_apply(actual, server_timestamp);
    }
}

/// Law: after a remote update with timestamp `t` has been applied and
/// anchored, a poll tick within the grace window of `t` never pushes,
/// whatever content it reads — the applied value is not re-sent.
pub proof fn lemma_applied_update_not_resent(
    st: ClientSyncLoop,
    applied_fp: u64,
    t: u64,
    read_fp: u64,
    read_ts: u64,
    now_ms: u64,
)
    requires
        read_ts <= t + GRACE_SECS,
    ensures
        ({
            let anchored = ClientSyncLoop {
                classifier: spec_record_server_apply(st.classifier, applied_fp, t),
                ..st
            };
            spec_poll_tick(anchored, read_fp, read_ts, now_ms).1 == PollAction::Ignore
        }),
{
}

} // verus!
