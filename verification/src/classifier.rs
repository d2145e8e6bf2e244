//! The change/echo classifier: given an observed snapshot, decides whether it
//! is a genuine new change, a duplicate of what is already known, or an
//! artifact of a just-applied remote update, and tracks what this client last
//! sent so that the relay bouncing it back is recognized.

use vstd::prelude::*;

use crate::fingerprint::{fingerprint_of, spec_fingerprint};
use crate::snapshot::ClipboardData;

verus! {

/// Seconds after an applied remote update during which a local clipboard read
/// is presumed to be an artifact of applying that update, not a new edit.
pub const GRACE_SECS: u64 = 5;

/// The classifier state, owned by one client sync loop and never shared
/// across loops.
pub struct ClipboardManager {
    /// Fingerprint of the last accepted local change.
    pub last_content_hash: Option<u64>,
    /// Timestamp of the last snapshot known to have come from the relay.
    pub last_server_timestamp: Option<u64>,
    /// Fingerprint of the last snapshot this client pushed to the relay.
    pub last_sent_hash: Option<u64>,
}

/// One classification step over fingerprints: the successor state and whether
/// the snapshot is accepted as a genuine change.
///
/// A remote timestamp is recorded unconditionally, even when the change is
/// then rejected, because it anchors future local-echo suppression.  A
/// duplicate of the last accepted fingerprint is rejected.  A local read
/// whose timestamp falls within [`GRACE_SECS`] of the last remote update is
/// rejected as an artifact of applying that update.  Only a local acceptance
/// records its fingerprint, so that an incoming remote update is never
/// compared against itself before the clipboard is actually rewritten.
pub open spec fn spec_classify(
    st: ClipboardManager,
    fp: u64,
    snapshot_ts: u64,
    from_server: bool,
    server_timestamp: Option<u64>,
) -> (ClipboardManager, bool) {
    let st1 = if from_server && server_timestamp is Some {
        ClipboardManager { last_server_timestamp: server_timestamp, ..st }
    } else {
        st
    };
    if st1.last_content_hash == Some(fp) {
        (st1, false)
    } else if !from_server && st1.last_server_timestamp is Some && snapshot_ts
        <= st1.last_server_timestamp->0 + GRACE_SECS {
        (st1, false)
    } else if !from_server {
        (ClipboardManager { last_content_hash: Some(fp), ..st1 }, true)
    } else {
        (st1, true)
    }
}

/// Successor state after noting that a snapshot with fingerprint `fp` was
/// pushed to the relay.
pub open spec fn spec_mark_sent(st: ClipboardManager, fp: u64) -> ClipboardManager {
    ClipboardManager { last_sent_hash: Some(fp), ..st }
}

/// Whether a fingerprint equals the one last sent; `false` while nothing has
/// been sent.
pub open spec fn spec_is_echo(st: ClipboardManager, fp: u64) -> bool {
    st.last_sent_hash == Some(fp)
}

/// Successor state after a remote snapshot was applied to the local clipboard
/// and the actual resulting content was read back: the read-back fingerprint
/// becomes the accepted anchor and the message's timestamp becomes the remote
/// anchor.
pub open spec fn spec_record_server_apply(
    st: ClipboardManager,
    actual_fp: u64,
    server_timestamp: u64,
) -> ClipboardManager {
    ClipboardManager {
        last_content_hash: Some(actual_fp),
        last_server_timestamp: Some(server_timestamp),
        ..st
    }
}

impl ClipboardManager {
    /// A fresh classifier: nothing accepted, no remote anchor, nothing sent.
    pub fn new() -> (r: ClipboardManager)
        ensures
            r.last_content_hash is None,
            r.last_server_timestamp is None,
            r.last_sent_hash is None,
    {
        ClipboardManager {
            last_content_hash: None,
            last_server_timestamp: None,
            last_sent_hash: None,
        }
    }

    /// The deduplication fingerprint of a snapshot.
    pub fn calculate_content_hash(data: &ClipboardData) -> (h: u64)
        ensures
            h == spec_fingerprint(data@),
    {
        fingerprint_of(data)
    }

    /// Classifies an observed snapshot and updates the state, exactly as
    /// [`spec_classify`] says; returns whether it is a genuine change.
    pub fn has_content_changed(
        &mut self,
        data: &ClipboardData,
        from_server: bool,
        server_timestamp: Option<u64>,
    ) -> (r: bool)
        ensures
            ({
                let (st, accepted) = spec_classify(
                    *old(self),
                    spec_fingerprint(data@),
                    data.timestamp,
                    from_server,
                    server_timestamp,
                );
                *final(self) == st && r == accepted
            }),
    {
        let fp = fingerprint_of(data);
        if from_server {
            if let Some(ts) = server_timestamp {
                self.last_server_timestamp = Some(ts);
            }
        }
        if let Some(last) = self.last_content_hash {
            if last == fp {
                return false;
            }
        }
        if !from_server {
            if let Some(server_ts) = self.last_server_timestamp {
                if data.timestamp <= server_ts || data.timestamp - server_ts <= GRACE_SECS {
                    return false;
                }
            }
        }
        if !from_server {
            self.last_content_hash = Some(fp);
        }
        true
    }

    /// Notes that `data` is about to be pushed to the relay, so that the relay
    /// later echoing it back is recognized.
    pub fn mark_content_as_sent(&mut self, data: &ClipboardData)
        ensures
            *final(self) == spec_mark_sent(*old(self), spec_fingerprint(data@)),
    {
        let fp = fingerprint_of(data);
        self.last_sent_hash = Some(fp);
    }

    /// Whether `data` is this client's own just-sent content bouncing back
    /// from the relay.
    pub fn is_own_content_returned(&self, data: &ClipboardData) -> (r: bool)
        ensures
            r == spec_is_echo(*self, spec_fingerprint(data@)),
    {
        match self.last_sent_hash {
            Some(last) => {
                let fp = fingerprint_of(data);
                last == fp
            },
            None => false,
        }
    }

    /// Records a remote update that was applied to the local clipboard:
    /// `actual` is the content read back after the write (the write may have
    /// been transformed by the platform), `server_timestamp` the message's
    /// timestamp.
    pub fn record_server_apply(&mut self, actual: &ClipboardData, server_timestamp: u64)
        ensures
            *final(self) == spec_record_server_apply(
                *old(self),
                spec_fingerprint(actual@),
                server_timestamp,
            ),
    {
        let fp = fingerprint_of(actual);
        self.last_content_hash = Some(fp);
        self.last_server_timestamp = Some(server_timestamp);
    }
}

/// Law: a fresh classifier accepts the first local snapshot it ever sees,
/// whatever it holds.
pub proof fn lemma_fresh_accepts_first_local(st: ClipboardManager, fp: u64, ts: u64)
    requires
        st.last_content_hash is None,
        st.last_server_timestamp is None,
    ensures
        spec_classify(st, fp, ts, false, None).1,
{
}

/// Law: a snapshot accepted as a local change is rejected as a duplicate when
/// classified again in immediate succession with no intervening accepted
/// change.
pub proof fn lemma_accept_then_duplicate(st: ClipboardManager, fp: u64, ts: u64)
    requires
        spec_classify(st, fp, ts, false, None).1,
    ensures
        !spec_classify(spec_classify(st, fp, ts, false, None).0, fp, ts, false, None).1,
{
}

/// Law: after a remote update with timestamp `t` is recorded, a local read
/// whose timestamp lies within the grace window of `t` is rejected.
pub proof fn lemma_grace_window_suppresses(
    st: ClipboardManager,
    remote_fp: u64,
    remote_ts: u64,
    t: u64,
    local_fp: u64,
    local_ts: u64,
)
    requires
        local_ts <= t + GRACE_SECS,
    ensures
        !spec_classify(
            spec_classify(st, remote_fp, remote_ts, true, Some(t)).0,
            local_fp,
            local_ts,
            false,
            None,
        ).1,
{
}

/// Law: after a remote update with timestamp `t` is recorded, a local read
/// past the grace window whose fingerprint differs from the last accepted one
/// is accepted as a genuine change.
pub proof fn lemma_past_grace_accepts(
    st: ClipboardManager,
    remote_fp: u64,
    remote_ts: u64,
    t: u64,
    local_fp: u64,
    local_ts: u64,
)
    requires
        local_ts > t + GRACE_SECS,
        st.last_content_hash != Some(local_fp),
    ensures
        spec_classify(
            spec_classify(st, remote_fp, remote_ts, true, Some(t)).0,
            local_fp,
            local_ts,
            false,
            None,
        ).1,
{
}

/// Law: marking a snapshot as sent makes exactly that fingerprint an echo;
/// any other fingerprint is not one.
pub proof fn lemma_echo_detects_sent(st: ClipboardManager, fp: u64, other: u64)
    ensures
        spec_is_echo(spec_mark_sent(st, fp), fp),
        other != fp ==> !spec_is_echo(spec_mark_sent(st, fp), other),
{
}

} // verus!
