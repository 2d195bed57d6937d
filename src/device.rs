//! The device-flow polling state machine.
//!
//! The caller drives it: it asks `next_step` what to do, presents the code,
//! sleeps, sends the poll request and hands the classified answer to
//! `on_response`. At most one poll is in flight, and a cancelled flow stops at
//! the next step.
use vstd::prelude::*;
use crate::classify::{Classified, ProviderError, TransportError};
use crate::json::{encode_form, form_encoded, int_member, json_int_member, json_text_member, pair_views, text_member};
use crate::secret::ApplicationSecret;
use crate::token::Token;

verus! {

/// Seconds added to the polling interval on each `slow_down` answer.
pub const SLOW_DOWN_INCREMENT: u64 = 5;

/// What the device-code endpoint answered.
pub struct PollInformation {
    /// Sent with each poll, never shown to the user.
    pub device_code: String,
    /// Shown to the user.
    pub user_code: String,
    pub verification_url: String,
    /// Seconds between polls.
    pub interval: u64,
    /// Absolute deadline of the whole attempt, in seconds since the epoch.
    pub expires_at: i64,
}

/// Where a device flow stands.
pub enum DeviceState {
    /// The user code has yet to be presented.
    AwaitingUser,
    Polling,
    Completed(Token),
    /// The user denied access.
    Denied(ProviderError),
    /// The code expired; a fresh flow must be started.
    Expired,
    /// The provider answered with an error that the flow does not absorb.
    Rejected(ProviderError),
    TransportFailed(TransportError),
    Cancelled,
}

/// What the caller is to do next.
pub enum NextStep {
    /// Hand the user code to the delegate, then call `presented`.
    Present,
    /// Sleep this many seconds, then poll and call `on_response`.
    Wait(u64),
    /// The flow is over.
    Done,
}

pub struct DeviceFlow {
    pub state: DeviceState,
    pub interval: u64,
    pub expires_at: i64,
}

/// Whether no transition leaves `s`.
pub open spec fn is_final(s: DeviceState) -> bool {
    !(s is AwaitingUser || s is Polling)
}

/// The interval after a `slow_down` answer.
pub open spec fn slowed(interval: u64) -> u64 {
    if interval <= u64::MAX - SLOW_DOWN_INCREMENT {
        (interval + SLOW_DOWN_INCREMENT) as u64
    } else {
        u64::MAX
    }
}

impl DeviceFlow {
    pub open spec fn with_state(self, state: DeviceState) -> DeviceFlow {
        DeviceFlow { state, ..self }
    }

    pub open spec fn with_interval(self, interval: u64) -> DeviceFlow {
        DeviceFlow { interval, ..self }
    }

    /// The step before a poll at time `now`, and the flow after it.
    pub open spec fn step_spec(self, now: i64) -> (DeviceFlow, NextStep) {
        match self.state {
            DeviceState::AwaitingUser => (self, NextStep::Present),
            DeviceState::Polling => {
                if now >= self.expires_at {
                    (self.with_state(DeviceState::Expired), NextStep::Done)
                } else {
                    (self, NextStep::Wait(self.interval))
                }
            },
            _ => (self, NextStep::Done),
        }
    }

    /// The flow after the answer `r` to a poll, received at `now`.
    pub open spec fn after_response(self, r: Classified, now: i64) -> DeviceFlow {
        if !(self.state is Polling) {
            self
        } else {
            match r {
                Classified::Success(t) => self.with_state(DeviceState::Completed(t)),
                Classified::Transport(e) => self.with_state(DeviceState::TransportFailed(e)),
                Classified::Provider(e) => {
                    if e.error@ == "authorization_pending"@ {
                        if now >= self.expires_at {
                            self.with_state(DeviceState::Expired)
                        } else {
                            self
                        }
                    } else if e.error@ == "slow_down"@ {
                        if now >= self.expires_at {
                            self.with_state(DeviceState::Expired)
                        } else {
                            self.with_interval(slowed(self.interval))
                        }
                    } else if e.error@ == "access_denied"@ {
                        self.with_state(DeviceState::Denied(e))
                    } else if e.error@ == "expired_token"@ {
                        self.with_state(DeviceState::Expired)
                    } else {
                        self.with_state(DeviceState::Rejected(e))
                    }
                },
            }
        }
    }

    /// The polling run over `script`, each entry the time of a round and the
    /// answer that a poll in that round would get: the flow at the end, and
    /// how many polls were sent.
    pub open spec fn drive(self, script: Seq<(i64, Classified)>) -> (DeviceFlow, nat)
        decreases script.len(),
    {
        if script.len() == 0 {
            (self, 0)
        } else {
            let (s, step) = self.step_spec(script[0].0);
            if step is Wait {
                let (f, n) = s.after_response(script[0].1, script[0].0).drive(script.drop_first());
                (f, n + 1)
            } else {
                (s, 0)
            }
        }
    }

    /// A flow for the code in `info`, waiting for it to be presented.
    pub fn new(info: &PollInformation) -> (r: DeviceFlow)
        ensures
            r == (DeviceFlow {
                state: DeviceState::AwaitingUser,
                interval: info.interval,
                expires_at: info.expires_at,
            }),
    {
        DeviceFlow { state: DeviceState::AwaitingUser, interval: info.interval, expires_at: info.expires_at }
    }

    /// The delegate has presented the code: polling may begin.
    pub fn presented(&mut self)
        ensures
            old(self).state is AwaitingUser ==> *final(self) == old(self).with_state(DeviceState::Polling),
            !(old(self).state is AwaitingUser) ==> *final(self) == *old(self),
    {
        if let DeviceState::AwaitingUser = self.state {
            self.state = DeviceState::Polling;
        }
    }

    /// The caller abandons the flow; no token comes out of it.
    pub fn cancel(&mut self)
        ensures
            !is_final(old(self).state) ==> *final(self) == old(self).with_state(DeviceState::Cancelled),
            is_final(old(self).state) ==> *final(self) == *old(self),
    {
        match self.state {
            DeviceState::AwaitingUser | DeviceState::Polling => self.state = DeviceState::Cancelled,
            _ => {},
        }
    }

    /// Whether the flow is over.
    pub fn is_done(&self) -> (r: bool)
        ensures
            r == is_final(self.state),
    {
        match self.state {
            DeviceState::AwaitingUser | DeviceState::Polling => false,
            _ => true,
        }
    }

    /// What to do at time `now`, before the next poll. A polling flow whose
    /// deadline has come expires here, without another poll.
    pub fn next_step(&mut self, now: i64) -> (r: NextStep)
        ensures
            (*final(self), r) == old(self).step_spec(now),
    {
        match self.state {
            DeviceState::AwaitingUser => NextStep::Present,
            DeviceState::Polling => {
                if now >= self.expires_at {
                    self.state = DeviceState::Expired;
                    NextStep::Done
                } else {
                    NextStep::Wait(self.interval)
                }
            },
            _ => NextStep::Done,
        }
    }

    /// Takes in the classified answer to a poll, received at `now`.
    pub fn on_response(&mut self, r: Classified, now: i64)
        ensures
            *final(self) == old(self).after_response(r, now),
    {
        match self.state {
            DeviceState::Polling => {},
            _ => return,
        }
        match r {
            Classified::Success(t) => self.state = DeviceState::Completed(t),
            Classified::Transport(e) => self.state = DeviceState::TransportFailed(e),
            Classified::Provider(e) => {
                if e.error == String::from_str("authorization_pending") {
                    if now >= self.expires_at {
                        self.state = DeviceState::Expired;
                    }
                } else if e.error == String::from_str("slow_down") {
                    if now >= self.expires_at {
                        self.state = DeviceState::Expired;
                    } else if self.interval <= u64::MAX - SLOW_DOWN_INCREMENT {
                        self.interval = self.interval + SLOW_DOWN_INCREMENT;
                    } else {
                        self.interval = u64::MAX;
                    }
                } else if e.error == String::from_str("access_denied") {
                    self.state = DeviceState::Denied(e);
                } else if e.error == String::from_str("expired_token") {
                    self.state = DeviceState::Expired;
                } else {
                    self.state = DeviceState::Rejected(e);
                }
            },
        }
    }

    /// The token of a completed flow.
    pub fn token(&self) -> (r: Option<&Token>)
        ensures
            self.state matches DeviceState::Completed(t) ==> r == Some(&t),
            !(self.state is Completed) ==> r is None,
    {
        match &self.state {
            DeviceState::Completed(t) => Some(t),
            _ => None,
        }
    }
}

/// The grant type of a device-code poll.
pub open spec fn device_grant() -> Seq<char> {
    "urn:ietf:params:oauth:grant-type:device_code"@
}

/// The scopes joined by single spaces.
pub open spec fn joined_scopes(scopes: Seq<Seq<char>>) -> Seq<char>
    decreases scopes.len(),
{
    if scopes.len() == 0 {
        Seq::empty()
    } else if scopes.len() == 1 {
        scopes[0]
    } else {
        joined_scopes(scopes.drop_last()) + " "@ + scopes.last()
    }
}

/// Whether `info` is what the device-code answer `body`, received at `now`, holds.
pub open spec fn poll_info_of_doc(info: PollInformation, body: Seq<char>, now: int) -> bool {
    &&& json_text_member(body, "device_code"@) == Some(info.device_code@)
    &&& json_text_member(body, "user_code"@) == Some(info.user_code@)
    &&& json_text_member(body, "verification_url"@) == Some(info.verification_url@)
    &&& json_int_member(body, "interval"@) == Some(info.interval as i64)
    &&& info.expires_at == now + json_int_member(body, "expires_in"@).unwrap()
}

/// Whether the device-code answer `body`, received at `now`, is complete and
/// its numbers fit.
pub open spec fn is_poll_doc(body: Seq<char>, now: int) -> bool {
    &&& json_text_member(body, "device_code"@) is Some
    &&& json_text_member(body, "user_code"@) is Some
    &&& json_text_member(body, "verification_url"@) is Some
    &&& json_int_member(body, "interval"@) matches Some(i) && i >= 0
    &&& json_int_member(body, "expires_in"@) is Some
    &&& i64::MIN <= now + json_int_member(body, "expires_in"@).unwrap() <= i64::MAX
}

impl PollInformation {
    /// Reads the answer of the device-code endpoint, received at `now`; the
    /// relative `expires_in` becomes the absolute `expires_at`.
    pub fn from_response(body: &str, now: i64) -> (r: Option<PollInformation>)
        ensures
            r is Some <==> is_poll_doc(body@, now as int),
            r matches Some(info) ==> poll_info_of_doc(info, body@, now as int),
    {
        let device_code = text_member(body, "device_code")?;
        let user_code = text_member(body, "user_code")?;
        let verification_url = text_member(body, "verification_url")?;
        let interval = int_member(body, "interval")?;
        if interval < 0 {
            return None;
        }
        let expires_in = int_member(body, "expires_in")?;
        let expires_at = now.checked_add(expires_in)?;
        Some(PollInformation { device_code, user_code, verification_url, interval: interval as u64, expires_at })
    }
}

/// The form-encoded body of the request for a device code.
pub fn device_code_request_body(client_id: &String, scopes: &Vec<String>) -> (r: String)
    ensures
        r@ == form_encoded(seq![
            ("client_id"@, client_id@),
            ("scope"@, joined_scopes(scopes@.map_values(|s: String| s@))),
        ]),
{
    let ghost views = scopes@.map_values(|s: String| s@);
    let mut scope = String::new();
    let mut i: usize = 0;
    while i < scopes.len()
        invariant
            i <= scopes.len(),
            views == scopes@.map_values(|s: String| s@),
            scope@ == joined_scopes(views.take(i as int)),
        decreases scopes.len() - i,
    {
        proof {
            assert(views.take(i + 1).drop_last() =~= views.take(i as int));
            assert(views.take(i + 1).last() == scopes@[i as int]@);
        }
        if i > 0 {
            scope.append(" ");
        }
        scope.append(scopes[i].as_str());
        proof {
            if i == 0 {
                assert(scope@ =~= joined_scopes(views.take(1)));
            } else {
                assert(scope@ =~= joined_scopes(views.take(i + 1)));
            }
        }
        i = i + 1;
    }
    assert(views.take(scopes.len() as int) =~= views);
    let pairs: Vec<(String, String)> = vec![(String::from_str("client_id"), client_id.clone()), (String::from_str("scope"), scope)];
    assert(pair_views(pairs@) =~= seq![("client_id"@, client_id@), ("scope"@, joined_scopes(views))]);
    encode_form(&pairs)
}

/// The form-encoded body of one poll of the token endpoint.
pub fn poll_request_body(client_secret: &ApplicationSecret, info: &PollInformation) -> (r: String)
    ensures
        r@ == form_encoded(seq![
            ("client_id"@, client_secret.client_id@),
            ("client_secret"@, client_secret.client_secret@),
            ("device_code"@, info.device_code@),
            ("grant_type"@, device_grant()),
        ]),
{
    let pairs: Vec<(String, String)> = vec![
        (String::from_str("client_id"), client_secret.client_id.clone()),
        (String::from_str("client_secret"), client_secret.client_secret.clone()),
        (String::from_str("device_code"), info.device_code.clone()),
        (String::from_str("grant_type"), String::from_str("urn:ietf:params:oauth:grant-type:device_code")),
    ];
    assert(pair_views(pairs@) =~= seq![
        ("client_id"@, client_secret.client_id@),
        ("client_secret"@, client_secret.client_secret@),
        ("device_code"@, info.device_code@),
        ("grant_type"@, device_grant()),
    ]);
    encode_form(&pairs)
}

/// Whether `r` is a provider error with the code `code`.
pub open spec fn answers(r: Classified, code: Seq<char>) -> bool {
    r matches Classified::Provider(e) && e.error@ == code
}

/// Polling that is answered `authorization_pending` twice, then `slow_down`,
/// then with a token, sends exactly four polls: the interval is unchanged
/// after each pending answer, grows once after the `slow_down`, and the flow
/// completes with the fourth answer's token, whatever the script holds after it.
pub proof fn lemma_pending_slow_down_then_token(flow: DeviceFlow, script: Seq<(i64, Classified)>, t: Token)
    requires
        flow.state is Polling,
        script.len() >= 4,
        forall|i: int| 0 <= i < 4 ==> #[trigger] script[i].0 < flow.expires_at,
        answers(script[0].1, "authorization_pending"@),
        answers(script[1].1, "authorization_pending"@),
        answers(script[2].1, "slow_down"@),
        script[3].1 == Classified::Success(t),
    ensures
        flow.drive(script) == (flow.with_state(DeviceState::Completed(t)).with_interval(slowed(flow.interval)), 4nat),
        flow.drive(script.take(2)) == (flow, 2nat),
        flow.drive(script.take(3)) == (flow.with_interval(slowed(flow.interval)), 3nat),
{
    reveal_strlit("authorization_pending");
    reveal_strlit("slow_down");
    assert("authorization_pending"@.len() != "slow_down"@.len());
    let r1 = script.drop_first();
    let r2 = r1.drop_first();
    let r3 = r2.drop_first();
    assert(r1[0] == script[1] && r2[0] == script[2] && r3[0] == script[3]);
    let s2 = flow.with_interval(slowed(flow.interval));
    let f = s2.with_state(DeviceState::Completed(t));
    assert(f.drive(script.drop_first().drop_first().drop_first().drop_first()) == (f, 0nat));
    assert(s2.drive(script.drop_first().drop_first().drop_first()) == (f, 1nat));
    assert(flow.drive(script.drop_first().drop_first()) == (f, 2nat));
    assert(flow.drive(script.drop_first()) == (f, 3nat));
    let p = script.take(2);
    assert(p[0] == script[0] && p.drop_first()[0] == script[1]);
    assert(p.drop_first().drop_first() =~= Seq::<(i64, Classified)>::empty());
    assert(flow.drive(p.drop_first().drop_first()) == (flow, 0nat));
    assert(flow.drive(p.drop_first()) == (flow, 1nat));
    let q = script.take(3);
    assert(q[0] == script[0] && q.drop_first()[0] == script[1] && q.drop_first().drop_first()[0] == script[2]);
    assert(q.drop_first().drop_first().drop_first() =~= Seq::<(i64, Classified)>::empty());
    assert(s2.drive(q.drop_first().drop_first().drop_first()) == (s2, 0nat));
    assert(flow.drive(q.drop_first().drop_first()) == (s2, 1nat));
    assert(flow.drive(q.drop_first()) == (s2, 2nat));
}

/// An `access_denied` answer ends polling in `Denied` after that one poll,
/// whatever the script holds after it.
pub proof fn lemma_denied_stops(flow: DeviceFlow, script: Seq<(i64, Classified)>, e: ProviderError)
    requires
        flow.state is Polling,
        script.len() >= 1,
        script[0].0 < flow.expires_at,
        script[0].1 == Classified::Provider(e),
        e.error@ == "access_denied"@,
    ensures
        flow.drive(script) == (flow.with_state(DeviceState::Denied(e)), 1nat),
{
    reveal_strlit("authorization_pending");
    reveal_strlit("slow_down");
    reveal_strlit("access_denied");
    assert("access_denied"@.len() != "authorization_pending"@.len());
    assert("access_denied"@.len() != "slow_down"@.len());
    let f = flow.with_state(DeviceState::Denied(e));
    assert(f.drive(script.drop_first()) == (f, 0nat));
}

/// Polling that reaches the deadline ends in `Expired` without another poll,
/// whatever the provider would have answered.
pub proof fn lemma_deadline_expires(flow: DeviceFlow, script: Seq<(i64, Classified)>)
    requires
        flow.state is Polling,
        script.len() >= 1,
        script[0].0 >= flow.expires_at,
    ensures
        flow.drive(script) == (flow.with_state(DeviceState::Expired), 0nat),
{
}

/// An `authorization_pending` answer that arrives once the deadline has come
/// ends the flow in `Expired`.
pub proof fn lemma_pending_past_deadline_expires(flow: DeviceFlow, e: ProviderError, now: i64)
    requires
        flow.state is Polling,
        now >= flow.expires_at,
        e.error@ == "authorization_pending"@,
    ensures
        flow.after_response(Classified::Provider(e), now) == flow.with_state(DeviceState::Expired),
{
}

/// A flow in a final state sends no poll and stays as it is.
pub proof fn lemma_final_is_final(flow: DeviceFlow, script: Seq<(i64, Classified)>)
    requires
        is_final(flow.state),
    ensures
        flow.drive(script) == (flow, 0nat),
{
}

} // verus!
