//! The QR-code login handshake as a state machine. The transport runs the
//! poll loop; each poll reply is handed here, which decides the next status,
//! commits the credential on confirmation, and only then yields the event.

use vstd::prelude::*;
use crate::auth::{next_write_count, with_credential, AuthService, AuthView};
use crate::credentials::{copy_jar, jar_of, jar_view, Cookie, Credential, CredentialView};
use crate::error::{error_message, ApiError};
use crate::text::owned;

verus! {

#[derive(PartialEq, Eq, Structural, Clone, Copy, Debug)]
pub enum LoginStatus {
    Created,
    Waiting,
    Scanned,
    Confirmed,
    Expired,
    Failed,
}

/// What one poll of the remote side reported.
pub enum PollOutcome {
    Waiting,
    Scanned,
    /// Confirmed, with the session cookie jar of the confirmation response.
    Confirmed { cookies: Vec<Cookie> },
    Expired,
    /// The poll could not be made or read (transport or signing failure).
    Failed { reason: String },
}

/// What the session publishes, in order.
pub enum LoginEvent {
    Created { qr_id: String, url: String },
    Waiting,
    Scanned,
    Confirmed,
    Expired,
    Failed { reason: String },
}

/// The remote status code of a code that is waiting to be scanned.
pub const STATUS_CODE_WAITING: i64 = 2;

/// The remote status code of a code scanned and awaiting confirmation.
pub const STATUS_CODE_SCANNED: i64 = 3;

/// The remote status code of a confirmed login.
pub const STATUS_CODE_CONFIRMED: i64 = 1;

/// The remote status code read as an expired code. The platform's other
/// codes (1, 2, 3) are the documented ones; this one is an assumption, and a
/// code that is never sent still leaves the validity window to force expiry.
pub const STATUS_CODE_EXPIRED: i64 = 4;

pub const UNKNOWN_STATUS_MSG: &'static str = "unrecognized login status";

pub open spec fn is_terminal(s: LoginStatus) -> bool {
    s == LoginStatus::Confirmed || s == LoginStatus::Expired || s == LoginStatus::Failed
}

/// How far along the handshake a status stands.
pub open spec fn rank(s: LoginStatus) -> nat {
    match s {
        LoginStatus::Created => 0,
        LoginStatus::Waiting => 1,
        LoginStatus::Scanned => 2,
        _ => 3,
    }
}

/// The status that a poll reply reports.
pub open spec fn reported(o: PollOutcome) -> LoginStatus {
    match o {
        PollOutcome::Waiting => LoginStatus::Waiting,
        PollOutcome::Scanned => LoginStatus::Scanned,
        PollOutcome::Confirmed { .. } => LoginStatus::Confirmed,
        PollOutcome::Expired => LoginStatus::Expired,
        PollOutcome::Failed { .. } => LoginStatus::Failed,
    }
}

/// The status an event publishes.
pub open spec fn event_status(e: LoginEvent) -> LoginStatus {
    match e {
        LoginEvent::Created { .. } => LoginStatus::Created,
        LoginEvent::Waiting => LoginStatus::Waiting,
        LoginEvent::Scanned => LoginStatus::Scanned,
        LoginEvent::Confirmed => LoginStatus::Confirmed,
        LoginEvent::Expired => LoginStatus::Expired,
        LoginEvent::Failed { .. } => LoginStatus::Failed,
    }
}

/// The status after a poll reply `t` that came at `now`. A terminal status
/// stays; past the code's validity the session expires whatever the reply;
/// a scanned code that is reported waiting again stays scanned.
pub open spec fn next_status(s: LoginStatus, t: LoginStatus, now: u64, expires_at: u64) -> LoginStatus {
    if is_terminal(s) {
        s
    } else if now >= expires_at {
        LoginStatus::Expired
    } else if t == LoginStatus::Created || (t == LoginStatus::Waiting && s == LoginStatus::Scanned) {
        s
    } else {
        t
    }
}

/// The statuses published for the replies `outs` (each with the time it
/// came), from status `s` on, up to the first terminal one.
pub open spec fn trace(s: LoginStatus, outs: Seq<(LoginStatus, u64)>, expires_at: u64) -> Seq<LoginStatus>
    decreases outs.len(),
{
    if outs.len() == 0 || is_terminal(s) {
        Seq::empty()
    } else {
        let n = next_status(s, outs[0].0, outs[0].1, expires_at);
        seq![n] + trace(n, outs.drop_first(), expires_at)
    }
}

/// The reported status and time of each reply.
pub open spec fn replies_view(outs: Seq<(PollOutcome, u64)>) -> Seq<(LoginStatus, u64)> {
    outs.map_values(|p: (PollOutcome, u64)| (reported(p.0), p.1))
}

/// A status never goes back: each step keeps or raises the rank, a terminal
/// status is kept, and only a confirmed reply leads to `Confirmed`.
pub proof fn lemma_transition_monotonic(s: LoginStatus, t: LoginStatus, now: u64, expires_at: u64)
    ensures
        rank(next_status(s, t, now, expires_at)) >= rank(s),
        is_terminal(s) ==> next_status(s, t, now, expires_at) == s,
        next_status(s, t, now, expires_at) == LoginStatus::Confirmed && s != LoginStatus::Confirmed
            ==> t == LoginStatus::Confirmed,
{
}

/// Along any run of replies the published statuses never go back, and
/// `Confirmed` is published at most once, as the last event.
pub proof fn lemma_trace_monotonic(s: LoginStatus, outs: Seq<(LoginStatus, u64)>, expires_at: u64)
    ensures
        forall|i: int| 0 <= i < trace(s, outs, expires_at).len() ==> rank(s) <= rank(#[trigger] trace(s, outs, expires_at)[i]),
        forall|i: int, j: int|
            0 <= i < j < trace(s, outs, expires_at).len() ==> rank(#[trigger] trace(s, outs, expires_at)[i])
                <= rank(#[trigger] trace(s, outs, expires_at)[j]),
        forall|i: int|
            0 <= i < trace(s, outs, expires_at).len() && #[trigger] trace(s, outs, expires_at)[i]
                == LoginStatus::Confirmed ==> i == trace(s, outs, expires_at).len() - 1,
        forall|i: int|
            0 <= i < trace(s, outs, expires_at).len() - 1 ==> !is_terminal(#[trigger] trace(s, outs, expires_at)[i]),
    decreases outs.len(),
{
    if outs.len() > 0 && !is_terminal(s) {
        let n = next_status(s, outs[0].0, outs[0].1, expires_at);
        lemma_trace_monotonic(n, outs.drop_first(), expires_at);
        let rest = trace(n, outs.drop_first(), expires_at);
        let t = trace(s, outs, expires_at);
        assert(t == seq![n] + rest);
        if is_terminal(n) {
            assert(rest.len() == 0);
        }
        assert forall|i: int| 0 <= i < t.len() implies rank(s) <= rank(#[trigger] t[i]) by {
            if i > 0 {
                assert(t[i] == rest[i - 1]);
            }
        }
        assert forall|i: int, j: int| 0 <= i < j < t.len() implies rank(#[trigger] t[i]) <= rank(#[trigger] t[j]) by {
            assert(t[j] == rest[j - 1]);
            if i > 0 {
                assert(t[i] == rest[i - 1]);
            }
        }
        assert forall|i: int| 0 <= i < t.len() && #[trigger] t[i] == LoginStatus::Confirmed implies i == t.len() - 1 by {
            if i > 0 {
                assert(t[i] == rest[i - 1]);
            } else if rest.len() > 0 {
                assert(is_terminal(n));
            }
        }
        assert forall|i: int| 0 <= i < t.len() - 1 implies !is_terminal(#[trigger] t[i]) by {
            if i > 0 {
                assert(t[i] == rest[i - 1]);
            } else {
                assert(rest.len() > 0);
            }
        }
    }
}

/// A code to scan, as the remote side created it.
pub struct QrCode {
    pub qr_id: String,
    pub url: String,
}

/// What a login session holds, as plain values.
pub struct SessionView {
    pub qr_id: Seq<char>,
    pub qr_url: Seq<char>,
    pub status: LoginStatus,
    pub created_at: u64,
    pub expires_at: u64,
    pub guest_cookies: Seq<(Seq<char>, Seq<char>)>,
}

/// One QR-code handshake attempt, with the guest cookies it was requested
/// with and the end of the code's validity (milliseconds since the epoch).
pub struct LoginSession {
    qr_id: String,
    qr_url: String,
    status: LoginStatus,
    created_at: u64,
    expires_at: u64,
    guest_cookies: Vec<Cookie>,
}

impl View for LoginSession {
    type V = SessionView;

    closed spec fn view(&self) -> SessionView {
        SessionView {
            qr_id: self.qr_id@,
            qr_url: self.qr_url@,
            status: self.status,
            created_at: self.created_at,
            expires_at: self.expires_at,
            guest_cookies: jar_view(self.guest_cookies@),
        }
    }
}

/// `a + b`, or the largest `u64` where the sum does not fit.
pub open spec fn saturating_sum(a: u64, b: u64) -> u64 {
    if a as int + b as int <= u64::MAX as int {
        (a + b) as u64
    } else {
        u64::MAX
    }
}

/// The cookie jar that a confirmed reply carries.
pub open spec fn confirmed_jar(o: PollOutcome) -> Seq<(Seq<char>, Seq<char>)> {
    match o {
        PollOutcome::Confirmed { cookies } => jar_view(cookies@),
        _ => Seq::empty(),
    }
}

/// The credential that a confirmed reply received at `now` makes active:
/// the jar its cookies set.
pub open spec fn confirmed_credential(o: PollOutcome, now: u64) -> CredentialView {
    CredentialView { cookies: jar_of(confirmed_jar(o)), captured_at: now, expires_at: None }
}

/// The session with a new status, all else kept.
pub open spec fn with_status(v: SessionView, s: LoginStatus) -> SessionView {
    SessionView { status: s, ..v }
}

/// Whether a failure event carries the reason of the failed reply.
pub open spec fn reason_passed_on(e: LoginEvent, o: PollOutcome) -> bool {
    match e {
        LoginEvent::Failed { reason } => match o {
            PollOutcome::Failed { reason: r } => reason@ == r@,
            _ => false,
        },
        _ => true,
    }
}

/// The service after the step to `s`: a confirmation commits the credential
/// of the reply, any other step leaves the service as it was.
pub open spec fn auth_after_step(a: AuthView, s: LoginStatus, o: PollOutcome, now: u64) -> AuthView {
    if s == LoginStatus::Confirmed {
        with_credential(a, confirmed_credential(o, now))
    } else {
        a
    }
}

impl PollOutcome {
    /// Reads the remote status code of a poll reply; `cookies` is the jar of
    /// the reply, kept only when it confirms the login.
    pub fn from_status_code(code: i64, cookies: Vec<Cookie>) -> (r: PollOutcome)
        ensures
            code == STATUS_CODE_WAITING ==> r is Waiting,
            code == STATUS_CODE_SCANNED ==> r is Scanned,
            code == STATUS_CODE_CONFIRMED ==> r is Confirmed && confirmed_jar(r) == jar_view(cookies@),
            code == STATUS_CODE_EXPIRED ==> r is Expired,
            code != STATUS_CODE_WAITING && code != STATUS_CODE_SCANNED && code != STATUS_CODE_CONFIRMED
                && code != STATUS_CODE_EXPIRED ==> (r matches PollOutcome::Failed { reason } && reason@ == UNKNOWN_STATUS_MSG@),
    {
        if code == STATUS_CODE_WAITING {
            PollOutcome::Waiting
        } else if code == STATUS_CODE_SCANNED {
            PollOutcome::Scanned
        } else if code == STATUS_CODE_CONFIRMED {
            PollOutcome::Confirmed { cookies }
        } else if code == STATUS_CODE_EXPIRED {
            PollOutcome::Expired
        } else {
            PollOutcome::Failed { reason: owned(UNKNOWN_STATUS_MSG) }
        }
    }
}

impl LoginSession {
    /// Starts a session from the outcome of creating a code. A created code
    /// gives a session in `Created`, valid for `validity_ms` from `now`, and
    /// the `Created` event; a failure to get guest cookies or a code gives no
    /// session and a `Failed` event with the cause.
    pub fn begin(code: Result<QrCode, ApiError>, guest_cookies: Vec<Cookie>, now: u64, validity_ms: u64) -> (r: (Option<LoginSession>, LoginEvent))
        ensures
            match code {
                Ok(q) => {
                    &&& r.0 is Some
                    &&& r.0.unwrap()@ == (SessionView {
                        qr_id: q.qr_id@,
                        qr_url: q.url@,
                        status: LoginStatus::Created,
                        created_at: now,
                        expires_at: saturating_sum(now, validity_ms),
                        guest_cookies: jar_view(guest_cookies@),
                    })
                    &&& (r.1 matches LoginEvent::Created { qr_id, url } && qr_id@ == q.qr_id@ && url@ == q.url@)
                },
                Err(e) => {
                    &&& r.0 is None
                    &&& (r.1 matches LoginEvent::Failed { reason } && reason@ == error_message(e@))
                },
            },
    {
        match code {
            Ok(q) => {
                let expires_at = if now <= u64::MAX - validity_ms {
                    now + validity_ms
                } else {
                    u64::MAX
                };
                let event = LoginEvent::Created { qr_id: q.qr_id.clone(), url: q.url.clone() };
                let session = LoginSession {
                    qr_id: q.qr_id,
                    qr_url: q.url,
                    status: LoginStatus::Created,
                    created_at: now,
                    expires_at,
                    guest_cookies,
                };
                (Some(session), event)
            },
            Err(e) => (None, LoginEvent::Failed { reason: e.message() }),
        }
    }

    pub fn status(&self) -> (r: LoginStatus)
        ensures
            r == self@.status,
    {
        self.status
    }

    /// Whether the session has reached a terminal status.
    pub fn is_finished(&self) -> (r: bool)
        ensures
            r == is_terminal(self@.status),
    {
        self.status == LoginStatus::Confirmed || self.status == LoginStatus::Expired || self.status == LoginStatus::Failed
    }

    pub fn qr_id(&self) -> (r: &String)
        ensures
            r@ == self@.qr_id,
    {
        &self.qr_id
    }

    pub fn qr_url(&self) -> (r: &String)
        ensures
            r@ == self@.qr_url,
    {
        &self.qr_url
    }

    pub fn expires_at(&self) -> (r: u64)
        ensures
            r == self@.expires_at,
    {
        self.expires_at
    }

    /// The guest cookies with which every poll of this session is made.
    pub fn guest_cookies(&self) -> (r: &Vec<Cookie>)
        ensures
            jar_view(r@) == self@.guest_cookies,
    {
        &self.guest_cookies
    }

    /// Takes one poll reply that came at `now`. A finished session ignores
    /// it and publishes nothing. Otherwise the status steps as
    /// `next_status` says and its event is returned; on confirmation the
    /// credential of the reply is committed to `auth` before the event is
    /// handed back.
    pub fn poll(&mut self, auth: &mut AuthService, outcome: &PollOutcome, now: u64) -> (r: Option<LoginEvent>)
        requires
            old(auth).wf(),
        ensures
            final(auth).wf(),
            is_terminal(old(self)@.status) ==> r is None && final(self)@ == old(self)@ && final(auth)@ == old(auth)@,
            !is_terminal(old(self)@.status) ==> (r matches Some(e)
                && final(self)@ == with_status(old(self)@, next_status(old(self)@.status, reported(*outcome), now, old(self)@.expires_at))
                && event_status(e) == final(self)@.status
                && reason_passed_on(e, *outcome)
                && final(auth)@ == auth_after_step(old(auth)@, final(self)@.status, *outcome, now)),
    {
        if self.status == LoginStatus::Confirmed || self.status == LoginStatus::Expired || self.status == LoginStatus::Failed {
            return None;
        }
        if now >= self.expires_at {
            self.status = LoginStatus::Expired;
            return Some(LoginEvent::Expired);
        }
        match outcome {
            PollOutcome::Waiting => {
                if self.status == LoginStatus::Scanned {
                    Some(LoginEvent::Scanned)
                } else {
                    self.status = LoginStatus::Waiting;
                    Some(LoginEvent::Waiting)
                }
            },
            PollOutcome::Scanned => {
                self.status = LoginStatus::Scanned;
                Some(LoginEvent::Scanned)
            },
            PollOutcome::Confirmed { cookies } => {
                let credential = Credential::new(copy_jar(cookies), now, None);
                auth.store_credentials(credential);
                self.status = LoginStatus::Confirmed;
                Some(LoginEvent::Confirmed)
            },
            PollOutcome::Expired => {
                self.status = LoginStatus::Expired;
                Some(LoginEvent::Expired)
            },
            PollOutcome::Failed { reason } => {
                self.status = LoginStatus::Failed;
                Some(LoginEvent::Failed { reason: reason.clone() })
            },
        }
    }
    /// Feeds the replies in order, each with the time it came, and returns
    /// the events published: one per reply up to the first terminal status,
    /// none after. The credential of a confirmation is committed before its
    /// event; without a confirmation the service is left as it was.
    pub fn run(&mut self, auth: &mut AuthService, replies: &Vec<(PollOutcome, u64)>) -> (r: Vec<LoginEvent>)
        requires
            old(auth).wf(),
        ensures
            final(auth).wf(),
            ({
                let t = trace(old(self)@.status, replies_view(replies@), old(self)@.expires_at);
                &&& r@.map_values(|e: LoginEvent| event_status(e)) == t
                &&& final(self)@ == with_status(old(self)@, if t.len() == 0 { old(self)@.status } else { t.last() })
                &&& t.contains(LoginStatus::Confirmed) ==> final(auth)@ == with_credential(
                    old(auth)@,
                    confirmed_credential(replies@[t.len() - 1].0, replies@[t.len() - 1].1),
                )
                &&& !t.contains(LoginStatus::Confirmed) ==> final(auth)@ == old(auth)@
            }),
    {
        let ghost s0 = self@;
        let ghost a0 = auth@;
        let ghost v = replies_view(replies@);
        let ghost t = trace(s0.status, v, s0.expires_at);
        let mut events: Vec<LoginEvent> = Vec::new();
        let mut i: usize = 0;
        proof {
            assert(v.skip(0) =~= v);
            assert(events@.map_values(|e: LoginEvent| event_status(e)) + t =~= t);
        }
        while i < replies.len()
            invariant
                i <= replies@.len(),
                v == replies_view(replies@),
                t == trace(s0.status, v, s0.expires_at),
                auth.wf(),
                self@ == with_status(s0, self@.status),
                t == events@.map_values(|e: LoginEvent| event_status(e)) + trace(self@.status, v.skip(i as int), s0.expires_at),
                events@.len() <= i,
                !is_terminal(self@.status) ==> events@.len() == i,
                events@.len() == 0 ==> self@.status == s0.status,
                events@.len() > 0 ==> self@.status == event_status(events@.last()),
                forall|j: int| 0 <= j < events@.len() - 1 ==> !is_terminal(#[trigger] event_status(events@[j])),
                !events@.map_values(|e: LoginEvent| event_status(e)).contains(LoginStatus::Confirmed) ==> auth@ == a0,
                events@.map_values(|e: LoginEvent| event_status(e)).contains(LoginStatus::Confirmed) ==> auth@ == with_credential(
                    a0,
                    confirmed_credential(replies@[events@.len() - 1].0, replies@[events@.len() - 1].1),
                ),
            decreases replies@.len() - i,
        {
            let ghost before = events@.map_values(|e: LoginEvent| event_status(e));
            let ghost cur = self@.status;
            let (outcome, at) = (&replies[i].0, replies[i].1);
            let step = self.poll(auth, outcome, at);
            proof {
                let rest = v.skip(i as int);
                assert(rest.drop_first() =~= v.skip(i + 1));
                assert(rest[0] == (reported(replies@[i as int].0), replies@[i as int].1));
                if is_terminal(cur) {
                    assert(trace(cur, rest, s0.expires_at) == Seq::<LoginStatus>::empty());
                    assert(trace(cur, v.skip(i + 1), s0.expires_at) == Seq::<LoginStatus>::empty());
                }
            }
            match step {
                Some(e) => {
                    events.push(e);
                    proof {
                        let after = events@.map_values(|e: LoginEvent| event_status(e));
                        assert(after =~= before.push(self@.status));
                        assert(t =~= after + trace(self@.status, v.skip(i + 1), s0.expires_at));
                        if before.contains(LoginStatus::Confirmed) {
                            let k = choose|k: int| 0 <= k < before.len() && before[k] == LoginStatus::Confirmed;
                            assert(is_terminal(event_status(events@[k])));
                            assert(k == before.len() - 1);
                            assert(is_terminal(cur));
                            assert(false);
                        }
                        if self@.status == LoginStatus::Confirmed {
                            assert(after[after.len() - 1] == LoginStatus::Confirmed);
                        } else {
                            assert forall|k: int| 0 <= k < after.len() implies after[k] != LoginStatus::Confirmed by {
                                if k < before.len() {
                                    assert(after[k] == before[k]);
                                }
                            }
                        }
                    }
                },
                None => {
                    proof {
                        assert(trace(self@.status, v.skip(i + 1), s0.expires_at) == Seq::<LoginStatus>::empty());
                    }
                },
            }
            i = i + 1;
        }
        proof {
            assert(v.skip(i as int) =~= Seq::<(LoginStatus, u64)>::empty());
            assert(t =~= events@.map_values(|e: LoginEvent| event_status(e)));
        }
        events
    }
}

} // verus!
