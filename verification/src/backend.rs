//! The clipboard capability interface and the per-platform backends' shared
//! deduplication state.  Reading and writing the native clipboard is the
//! platform's business and stays outside; what every backend carries here is
//! the classifier that keeps it from bouncing values back and forth.

use vstd::prelude::*;

use crate::classifier::{
    spec_classify, spec_is_echo, spec_mark_sent, spec_record_server_apply, ClipboardManager,
};
use crate::fingerprint::spec_fingerprint;
use crate::snapshot::ClipboardData;

verus! {

/// What every clipboard backend offers the sync loop: the classifier's entry
/// points over its own state.  The native read and write operations are the
/// platform edge and are implemented beside the backend, outside this
/// interface.
pub trait ClipboardBackend {
    /// The classifier state this backend carries.
    spec fn classifier_state(&self) -> ClipboardManager;

    /// Classifies an observed snapshot, exactly as
    /// [`spec_classify`] says; returns whether it is a genuine change.
    fn has_content_changed(
        &mut self,
        data: &ClipboardData,
        from_server: bool,
        server_timestamp: Option<u64>,
    ) -> (r: bool)
        ensures
            ({
                let (st, accepted) = spec_classify(
                    old(self).classifier_state(),
                    spec_fingerprint(data@),
                    data.timestamp,
                    from_server,
                    server_timestamp,
                );
                final(self).classifier_state() == st && r == accepted
            }),
    ;

    /// Notes that `data` is about to be pushed to the relay.
    fn mark_content_as_sent(&mut self, data: &ClipboardData)
        ensures
            final(self).classifier_state() == spec_mark_sent(
                old(self).classifier_state(),
                spec_fingerprint(data@),
            ),
    ;

    /// Whether `data` is this backend's own just-sent content bouncing back.
    fn is_own_content_returned(&self, data: &ClipboardData) -> (r: bool)
        ensures
            r == spec_is_echo(self.classifier_state(), spec_fingerprint(data@)),
    ;

    /// Anchors a remote snapshot that was applied to the native clipboard,
    /// with the message's timestamp.
    fn record_server_apply(&mut self, actual: &ClipboardData, server_timestamp: u64)
        ensures
            final(self).classifier_state() == spec_record_server_apply(
                old(self).classifier_state(),
                spec_fingerprint(actual@),
                server_timestamp,
            ),
    ;
}

impl ClipboardBackend for ClipboardManager {
    open spec fn classifier_state(&self) -> ClipboardManager {
        *self
    }

    fn has_content_changed(
        &mut self,
        data: &ClipboardData,
        from_server: bool,
        server_timestamp: Option<u64>,
    ) -> (r: bool) {
        ClipboardManager::has_content_changed(self, data, from_server, server_timestamp)
    }

    fn mark_content_as_sent(&mut self, data: &ClipboardData) {
        ClipboardManager::mark_content_as_sent(self, data)
    }

    fn is_own_content_returned(&self, data: &ClipboardData) -> (r: bool) {
        ClipboardManager::is_own_content_returned(self, data)
    }

    fn record_server_apply(&mut self, actual: &ClipboardData, server_timestamp: u64) {
        ClipboardManager::record_server_apply(self, actual, server_timestamp)
    }
}

/// Deduplication state of the Wayland/X11 backend; the native reads and
/// writes stand beside it at the platform edge.
pub struct LinuxClipboardManager {
    pub state: ClipboardManager,
}

impl LinuxClipboardManager {
    /// A fresh backend with nothing accepted, anchored or sent.
    pub fn new() -> (r: LinuxClipboardManager)
        ensures
            r.state.last_content_hash is None,
            r.state.last_server_timestamp is None,
            r.state.last_sent_hash is None,
    {
        LinuxClipboardManager { state: ClipboardManager::new() }
    }

    /// The deduplication fingerprint of a snapshot.
    pub fn calculate_content_hash(data: &ClipboardData) -> (h: u64)
        ensures
            h == spec_fingerprint(data@),
    {
        ClipboardManager::calculate_content_hash(data)
    }
}

impl ClipboardBackend for LinuxClipboardManager {
    open spec fn classifier_state(&self) -> ClipboardManager {
        self.state
    }

    fn has_content_changed(
        &mut self,
        data: &ClipboardData,
        from_server: bool,
        server_timestamp: Option<u64>,
    ) -> (r: bool) {
        self.state.has_content_changed(data, from_server, server_timestamp)
    }

    fn mark_content_as_sent(&mut self, data: &ClipboardData) {
        self.state.mark_content_as_sent(data)
    }

    fn is_own_content_returned(&self, data: &ClipboardData) -> (r: bool) {
        self.state.is_own_content_returned(data)
    }

    fn record_server_apply(&mut self, actual: &ClipboardData, server_timestamp: u64) {
        self.state.record_server_apply(actual, server_timestamp)
    }
}

/// Deduplication state of the Windows backend; the native reads and writes
/// stand beside it at the platform edge.
pub struct WindowsClipboardManager {
    pub state: ClipboardManager,
}

impl WindowsClipboardManager {
    /// A fresh backend with nothing accepted, anchored or sent.
    pub fn new() -> (r: WindowsClipboardManager)
        ensures
            r.state.last_content_hash is None,
            r.state.last_server_timestamp is None,
            r.state.last_sent_hash is None,
    {
        WindowsClipboardManager { state: ClipboardManager::new() }
    }

    /// The deduplication fingerprint of a snapshot.
    pub fn calculate_content_hash(data: &ClipboardData) -> (h: u64)
        ensures
            h == spec_fingerprint(data@),
    {
        ClipboardManager::calculate_content_hash(data)
    }
}

impl ClipboardBackend for WindowsClipboardManager {
    open spec fn classifier_state(&self) -> ClipboardManager {
        self.state
    }

    fn has_content_changed(
        &mut self,
        data: &ClipboardData,
        from_server: bool,
        server_timestamp: Option<u64>,
    ) -> (r: bool) {
        self.state.has_content_changed(data, from_server, server_timestamp)
    }

    fn mark_content_as_sent(&mut self, data: &ClipboardData) {
        self.state.mark_content_as_sent(data)
    }

    fn is_own_content_returned(&self, data: &ClipboardData) -> (r: bool) {
        self.state.is_own_content_returned(data)
    }

    fn record_server_apply(&mut self, actual: &ClipboardData, server_timestamp: u64) {
        self.state.record_server_apply(actual, server_timestamp)
    }
}

} // verus!
