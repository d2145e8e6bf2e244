//! The connection lifecycle: the relay endpoint URL as a single-writer shared
//! value with deduplicated change notification, the exponential-backoff
//! reconnect policy, and the derivation of the transport and push endpoints
//! from the configured base URL.

use vstd::prelude::*;

use crate::chars::{spec_starts_with, str_starts_with};

verus! {

/// Starting reconnect delay, in seconds.
pub const INITIAL_BACKOFF_SECS: u64 = 1;

/// Upper bound of the reconnect delay, in seconds.
pub const MAX_BACKOFF_SECS: u64 = 60;

/// How one connection attempt ended.
#[derive(Clone, Copy, Debug, PartialEq, Eq, Structural)]
pub enum AttemptOutcome {
    /// Transport error or unexpected close: wait the current backoff, which
    /// then doubles.
    Failed,
    /// An `Active` period that later ended, even cleanly: the backoff resets.
    CleanClose,
    /// Torn down proactively because the endpoint URL changed: a new attempt
    /// starts immediately and the backoff does not grow.
    UrlChanged,
}

/// Commands delivered into the lifecycle manager by UI collaborators.
pub enum Command {
    SetUrl(String),
    Quit,
}

/// Events emitted for UI consumption.
#[derive(Clone, Copy, Debug, PartialEq, Eq, Structural)]
pub enum Event {
    Connected,
    Disconnected,
    UrlChanged,
}

/// The reconnect policy: the delay the next failure will cost.
pub struct ReconnectPolicy {
    pub next_delay_secs: u64,
}

/// Successor policy and the delay to wait before the next attempt, for each
/// way an attempt can end.
pub open spec fn spec_delay_after(
    st: ReconnectPolicy,
    outcome: AttemptOutcome,
) -> (ReconnectPolicy, u64) {
    match outcome {
        AttemptOutcome::Failed => {
            let doubled = if 2 * st.next_delay_secs > MAX_BACKOFF_SECS {
                MAX_BACKOFF_SECS
            } else {
                (2 * st.next_delay_secs) as u64
            };
            (ReconnectPolicy { next_delay_secs: doubled }, st.next_delay_secs)
        },
        AttemptOutcome::CleanClose => (
            ReconnectPolicy { next_delay_secs: INITIAL_BACKOFF_SECS },
            INITIAL_BACKOFF_SECS,
        ),
        AttemptOutcome::UrlChanged => (st, 0),
    }
}

impl ReconnectPolicy {
    /// The delay stays between the starting value and the cap.
    pub open spec fn wf(&self) -> bool {
        INITIAL_BACKOFF_SECS <= self.next_delay_secs <= MAX_BACKOFF_SECS
    }

    /// A fresh policy at the starting delay.
    pub fn new() -> (r: ReconnectPolicy)
        ensures
            r.wf(),
            r.next_delay_secs == INITIAL_BACKOFF_SECS,
    {
        ReconnectPolicy { next_delay_secs: INITIAL_BACKOFF_SECS }
    }

    /// Reports how an attempt ended and returns the delay, in seconds, to
    /// wait before the next one, exactly as [`spec_delay_after`] says.
    pub fn delay_after(&mut self, outcome: AttemptOutcome) -> (d: u64)
        requires
            old(self).wf(),
        ensures
            final(self).wf(),
            ({
                let (st, delay) = spec_delay_after(*old(self), outcome);
                *final(self) == st && d == delay
            }),
    {
        match outcome {
            AttemptOutcome::Failed => {
                let d = self.next_delay_secs;
                self.next_delay_secs = if d >= MAX_BACKOFF_SECS / 2 + 1 {
                    MAX_BACKOFF_SECS
                } else {
                    2 * d
                };
                d
            },
            AttemptOutcome::CleanClose => {
                self.next_delay_secs = INITIAL_BACKOFF_SECS;
                INITIAL_BACKOFF_SECS
            },
            AttemptOutcome::UrlChanged => 0,
        }
    }
}

/// The lifecycle manager's shared value: the current relay endpoint URL.
pub struct ConnectionManager {
    pub url: String,
}

impl ConnectionManager {
    /// Starts from the configured URL.
    pub fn new(url: String) -> (r: ConnectionManager)
        ensures
            r.url == url,
    {
        ConnectionManager { url }
    }

    /// Sets the endpoint URL; setting it to its current value is deduplicated
    /// and reports no change, so no notification and no reconnect follow.
    pub fn set_url(&mut self, new_url: String) -> (changed: bool)
        ensures
            changed == (new_url@ != old(self).url@),
            final(self).url@ == new_url@,
    {
        if self.url == new_url {
            false
        } else {
            self.url = new_url;
            true
        }
    }

    /// Handles one UI command: a deduplicated URL change emits
    /// [`Event::UrlChanged`] only when the value actually changed; `Quit`
    /// emits [`Event::Disconnected`].
    pub fn handle_command(&mut self, cmd: Command) -> (e: Option<Event>)
        ensures
            (cmd matches Command::SetUrl(u) ==> final(self).url@ == u@ && e == (if u@ != old(
                self,
            ).url@ {
                Some(Event::UrlChanged)
            } else {
                None::<Event>
            })),
            (cmd is Quit ==> *final(self) == *old(self) && e == Some(Event::Disconnected)),
    {
        match cmd {
            Command::SetUrl(u) => {
                if self.set_url(u) {
                    Some(Event::UrlChanged)
                } else {
                    None
                }
            },
            Command::Quit => Some(Event::Disconnected),
        }
    }
}

/// The base URL with a leading `http://` or `https://` scheme removed.
pub open spec fn spec_strip_scheme(b: Seq<char>) -> Seq<char> {
    if spec_starts_with(b, "http://"@) {
        b.subrange(7, b.len() as int)
    } else if spec_starts_with(b, "https://"@) {
        b.subrange(8, b.len() as int)
    } else {
        b
    }
}

/// The transport session endpoint derived from a base URL.
pub open spec fn spec_ws_url(b: Seq<char>) -> Seq<char> {
    "ws://"@ + spec_strip_scheme(b) + "/ws"@
}

/// The base URL with its trailing slashes removed.
pub open spec fn spec_trim_trailing_slash(b: Seq<char>) -> Seq<char>
    decreases b.len(),
{
    if b.len() > 0 && b.last() == '/' {
        spec_trim_trailing_slash(b.drop_last())
    } else {
        b
    }
}

/// The push/read endpoint derived from a base URL.
pub open spec fn spec_api_url(b: Seq<char>) -> Seq<char> {
    spec_trim_trailing_slash(b) + "/api/clipboard"@
}

proof fn lemma_trim_trailing_slash_at(s: Seq<char>, k: int)
    requires
        0 <= k <= s.len(),
        forall|j: int| k <= j < s.len() ==> s[j] == '/',
        k == 0 || s[k - 1] != '/',
    ensures
        spec_trim_trailing_slash(s) == s.subrange(0, k),
    decreases s.len() - k,
{
    if k == s.len() {
        assert(s.subrange(0, k) =~= s);
    } else {
        let t = s.drop_last();
        assert(s.last() == '/');
        lemma_trim_trailing_slash_at(t, k);
        assert(t.subrange(0, k) =~= s.subrange(0, k));
    }
}

/// Builds the transport session endpoint: `ws://<base without scheme>/ws`.
pub fn ws_url_of(base: &str) -> (r: String)
    ensures
        r@ == spec_ws_url(base@),
{
    proof {
        reveal_strlit("http://");
        reveal_strlit("https://");
    }
    let n = base.unicode_len();
    let rest: &str = if str_starts_with(base, "http://") {
        base.substring_char(7, n)
    } else if str_starts_with(base, "https://") {
        base.substring_char(8, n)
    } else {
        base
    };
    let mut out = String::from_str("ws://");
    out.append(rest);
    out.append("/ws");
    out
}

/// Builds the push/read endpoint: `<base without trailing slashes>/api/clipboard`.
pub fn api_url_of(base: &str) -> (r: String)
    ensures
        r@ == spec_api_url(base@),
{
    let n = base.unicode_len();
    let mut k: usize = n;
    while k > 0 && base.get_char(k - 1) == '/'
        invariant
            n == base@.len(),
            k <= n,
            forall|j: int| k <= j < n ==> base@[j] == '/',
        decreases k,
    {
        k -= 1;
    }
    proof {
        lemma_trim_trailing_slash_at(base@, k as int);
    }
    let head = base.substring_char(0, k);
    let mut out = String::from_str(head);
    out.append("/api/clipboard");
    out
}

/// Whether the text parses as a valid URL; the result is a function of the
/// text alone.
pub uninterp spec fn spec_url_ok(s: Seq<char>) -> bool;

/// Relies on `url::Url::parse`: whether the text is a well-formed URL.
#[verifier::external_body]
pub(crate) fn url_parse_ok(s: &str) -> (r: bool)
    ensures
        r == spec_url_ok(s@),
{
    url::Url::parse(s).is_ok()
}

/// Derives the transport endpoint for a base URL and rejects a malformed
/// one — a configuration failure the caller surfaces to the UI instead of
/// retrying.
pub fn prepare_session_url(base: &str) -> (r: Option<String>)
    ensures
        r is Some <==> spec_url_ok(spec_ws_url(base@)),
        r is Some ==> r->0@ == spec_ws_url(base@),
{
    let u = ws_url_of(base);
    if url_parse_ok(u.as_str()) {
        Some(u)
    } else {
        None
    }
}

} // verus!
