//! The credential lifecycle manager: a bounded state machine, evaluated once
//! per invocation of the client.
//!
//! The manager owns the single live credential, decides whether it is usable
//! as it stands, usable after one refresh, or in need of interactive
//! authorization, and hands the surrounding program explicit commands. The
//! program performs the network call or the save, then feeds the reply back
//! as an event. The resource endpoint is only ever commanded with a
//! credential the manager has certified valid at call time, and at most one
//! refresh is attempted per invocation.

use vstd::prelude::*;

use crate::credential::{
    exchanged_credential, expiry_model, never_authorized, refreshed_credential, well_formed,
    Credential,
};

verus! {

/// The phase of the invocation in which a failure arose.
#[derive(Clone, Copy, Debug, PartialEq, Eq)]
pub enum Stage {
    Authorize,
    Refresh,
    Fetch,
    Save,
}

/// Everything that can go wrong in one invocation, one variant per kind so
/// the caller can tell "the server rejected us" from "the server sent
/// something we do not understand."
#[derive(Debug, PartialEq, Eq)]
pub enum LifecycleError {
    /// The persisted record could not be read or written.
    Store { detail: String },
    /// The authorization server answered with a structured error; both
    /// fields are carried verbatim.
    Authorization { error: String, error_description: String },
    /// No response was obtained from the server.
    Transport,
    /// A response body could not be decoded into the expected shape.
    Parse,
    /// The interactive authorization code was empty.
    Input,
    /// A refresh was asked of a credential that was never authorized.
    NotAuthorized,
    /// The credential was still expired after the one refresh this
    /// invocation allows.
    StillExpired,
}

/// The transport's decoded reply to the authorization-code exchange.
#[derive(Debug, PartialEq, Eq)]
pub enum ExchangeReply {
    /// A success status whose body carried all three fields.
    Granted { access_token: String, refresh_token: String, expires_in: u64 },
    /// A failure status whose body carried a structured error.
    Denied { error: String, error_description: String },
    /// A body that could be decoded as neither shape.
    Malformed,
    /// No response at all.
    NoResponse,
}

/// The transport's decoded reply to the refresh exchange. The server is not
/// obliged to return a refresh token; `refresh_token` is `None` when the
/// body omitted it.
#[derive(Debug, PartialEq, Eq)]
pub enum RefreshReply {
    Granted { access_token: String, refresh_token: Option<String>, expires_in: u64 },
    Denied { error: String, error_description: String },
    Malformed,
    NoResponse,
}

/// The transport's reply to the playback query: a status with the raw body,
/// or no response at all.
#[derive(Debug, PartialEq, Eq)]
pub enum FetchReply {
    Response { status: u16, body: String },
    NoResponse,
}

/// How the invocation ended.
#[derive(Debug, PartialEq, Eq)]
pub enum Outcome {
    /// The playback query went through: the body of a 200 reply, or `None`
    /// for any other status, which means "nothing to report", not an error.
    Playback { body: Option<String> },
    /// The invocation failed, and in which phase.
    Failed { stage: Stage, error: LifecycleError },
}

/// What the manager waits for next.
#[derive(Clone, Copy, Debug, PartialEq, Eq)]
pub enum Phase {
    AwaitCode,
    AwaitExchange,
    AwaitRefresh,
    AwaitSave,
    AwaitFetch,
    Done,
}

/// What the manager asks the surrounding program to do next.
#[derive(Debug, PartialEq, Eq)]
pub enum Command {
    /// Show the authorization URL and read one line of trimmed input.
    PromptCode,
    /// POST the authorization-code exchange for this code.
    Exchange { code: String },
    /// POST the refresh exchange for the current refresh token.
    Refresh,
    /// Persist the current credential.
    Save,
    /// GET the playback state with the current access token.
    Fetch,
    /// The invocation is over.
    Finish { outcome: Outcome },
}

/// What the surrounding program hands back after a command.
#[derive(Debug, PartialEq, Eq)]
pub enum Event {
    CodeEntered { code: String },
    Exchanged { reply: ExchangeReply },
    Refreshed { reply: RefreshReply },
    Saved { result: Result<(), String> },
    Fetched { reply: FetchReply },
}

/// The lifecycle manager: the live credential, the evaluation instant, the
/// phase, and whether the one permitted refresh has been spent.
#[derive(Debug)]
pub struct Manager {
    pub cred: Credential,
    pub now: u64,
    pub phase: Phase,
    pub refreshed: bool,
}

/// The token exchanger's verdict on a reply: the granted triple, or the
/// failure it maps to. A grant whose body carried an empty token is treated
/// as undecodable, so that no successful operation leaves the credential
/// with one token empty and the other not.
pub open spec fn exchange_verdict(reply: ExchangeReply) -> Result<
    (String, String, u64),
    LifecycleError,
> {
    match reply {
        ExchangeReply::Granted { access_token, refresh_token, expires_in } => {
            if access_token@.len() > 0 && refresh_token@.len() > 0 {
                Result::Ok((access_token, refresh_token, expires_in))
            } else {
                Result::Err(LifecycleError::Parse)
            }
        },
        ExchangeReply::Denied { error, error_description } => Result::Err(
            LifecycleError::Authorization { error, error_description },
        ),
        ExchangeReply::Malformed => Result::Err(LifecycleError::Parse),
        ExchangeReply::NoResponse => Result::Err(LifecycleError::Transport),
    }
}

/// The token refresher's verdict on a reply: the new access token, the
/// rotated refresh token if the server sent one, and the declared lifetime;
/// or the failure the reply maps to. An empty token, fresh or rotated,
/// counts as undecodable.
pub open spec fn refresh_verdict(reply: RefreshReply) -> Result<
    (String, Option<String>, u64),
    LifecycleError,
> {
    match reply {
        RefreshReply::Granted { access_token, refresh_token, expires_in } => {
            if access_token@.len() == 0 {
                Result::Err(LifecycleError::Parse)
            } else {
                match refresh_token {
                    Option::Some(rt) => if rt@.len() == 0 {
                        Result::Err(LifecycleError::Parse)
                    } else {
                        Result::Ok((access_token, Option::Some(rt), expires_in))
                    },
                    Option::None => Result::Ok((access_token, Option::None, expires_in)),
                }
            }
        },
        RefreshReply::Denied { error, error_description } => Result::Err(
            LifecycleError::Authorization { error, error_description },
        ),
        RefreshReply::Malformed => Result::Err(LifecycleError::Parse),
        RefreshReply::NoResponse => Result::Err(LifecycleError::Transport),
    }
}

/// The resource client's verdict on a reply: a 200 carries the playback
/// body; any other status means "no playback", not an error; only the
/// absence of a response is an error.
pub open spec fn fetch_verdict(reply: FetchReply) -> Outcome {
    match reply {
        FetchReply::Response { status, body } => {
            if status == 200 {
                Outcome::Playback { body: Option::Some(body) }
            } else {
                Outcome::Playback { body: Option::None }
            }
        },
        FetchReply::NoResponse => Outcome::Failed {
            stage: Stage::Fetch,
            error: LifecycleError::Transport,
        },
    }
}

/// One evaluation of the credential: route to interactive authorization
/// when no grant is on record, to the resource client while the access
/// token is still valid, to the refresher when it has expired and the one
/// permitted refresh is unspent, and otherwise give up for this invocation.
pub open spec fn dispatch(cred: Credential, now: u64, refreshed: bool) -> (Phase, Command) {
    if never_authorized(cred) {
        (Phase::AwaitCode, Command::PromptCode)
    } else if now < cred.expires_at {
        (Phase::AwaitFetch, Command::Fetch)
    } else if !refreshed {
        (Phase::AwaitRefresh, Command::Refresh)
    } else {
        (
            Phase::Done,
            Command::Finish {
                outcome: Outcome::Failed {
                    stage: Stage::Refresh,
                    error: LifecycleError::StillExpired,
                },
            },
        )
    }
}

/// The manager and first command that one invocation starts from.
pub open spec fn model_start(cred: Credential, now: u64) -> (Manager, Command) {
    let routed = dispatch(cred, now, false);
    (
        Manager {
            cred,
            now,
            phase: routed.0,
            refreshed: routed.1 == Command::Refresh,
        },
        routed.1,
    )
}

/// Which events answer which phase.
pub open spec fn accepts(phase: Phase, e: Event) -> bool {
    match (phase, e) {
        (Phase::AwaitCode, Event::CodeEntered { .. }) => true,
        (Phase::AwaitExchange, Event::Exchanged { .. }) => true,
        (Phase::AwaitRefresh, Event::Refreshed { .. }) => true,
        (Phase::AwaitSave, Event::Saved { .. }) => true,
        (Phase::AwaitFetch, Event::Fetched { .. }) => true,
        _ => false,
    }
}

/// The manager with its phase closed out, everything else as it was.
pub open spec fn closed(m: Manager) -> Manager {
    Manager { cred: m.cred, now: m.now, phase: Phase::Done, refreshed: m.refreshed }
}

/// One transition of the manager on the event that answers its phase.
pub open spec fn model_step(m: Manager, e: Event) -> (Manager, Command) {
    match (m.phase, e) {
        (Phase::AwaitCode, Event::CodeEntered { code }) => {
            if code@.len() == 0 {
                (
                    closed(m),
                    Command::Finish {
                        outcome: Outcome::Failed {
                            stage: Stage::Authorize,
                            error: LifecycleError::Input,
                        },
                    },
                )
            } else {
                (
                    Manager {
                        cred: m.cred,
                        now: m.now,
                        phase: Phase::AwaitExchange,
                        refreshed: m.refreshed,
                    },
                    Command::Exchange { code },
                )
            }
        },
        (Phase::AwaitExchange, Event::Exchanged { reply }) => {
            match exchange_verdict(reply) {
                Result::Ok(grant) => (
                    Manager {
                        cred: exchanged_credential(m.cred, grant.0, grant.1, grant.2, m.now),
                        now: m.now,
                        phase: Phase::AwaitSave,
                        refreshed: m.refreshed,
                    },
                    Command::Save,
                ),
                Result::Err(error) => (
                    closed(m),
                    Command::Finish {
                        outcome: Outcome::Failed { stage: Stage::Authorize, error },
                    },
                ),
            }
        },
        (Phase::AwaitRefresh, Event::Refreshed { reply }) => {
            match refresh_verdict(reply) {
                Result::Ok(grant) => (
                    Manager {
                        cred: refreshed_credential(m.cred, grant.0, grant.1, grant.2, m.now),
                        now: m.now,
                        phase: Phase::AwaitSave,
                        refreshed: m.refreshed,
                    },
                    Command::Save,
                ),
                Result::Err(error) => (
                    closed(m),
                    Command::Finish {
                        outcome: Outcome::Failed { stage: Stage::Refresh, error },
                    },
                ),
            }
        },
        (Phase::AwaitSave, Event::Saved { result }) => {
            match result {
                Result::Ok(_) => {
                    let routed = dispatch(m.cred, m.now, m.refreshed);
                    (
                        Manager {
                            cred: m.cred,
                            now: m.now,
                            phase: routed.0,
                            refreshed: m.refreshed || routed.1 == Command::Refresh,
                        },
                        routed.1,
                    )
                },
                Result::Err(detail) => (
                    closed(m),
                    Command::Finish {
                        outcome: Outcome::Failed {
                            stage: Stage::Save,
                            error: LifecycleError::Store { detail },
                        },
                    },
                ),
            }
        },
        (Phase::AwaitFetch, Event::Fetched { reply }) => (
            closed(m),
            Command::Finish { outcome: fetch_verdict(reply) },
        ),
        _ => (m, Command::PromptCode),
    }
}

/// The token exchanger's verdict, executably.
pub fn classify_exchange(reply: ExchangeReply) -> (r: Result<
    (String, String, u64),
    LifecycleError,
>)
    ensures
        r == exchange_verdict(reply),
{
    match reply {
        ExchangeReply::Granted { access_token, refresh_token, expires_in } => {
            if !access_token.as_str().is_empty() && !refresh_token.as_str().is_empty() {
                Result::Ok((access_token, refresh_token, expires_in))
            } else {
                Result::Err(LifecycleError::Parse)
            }
        },
        ExchangeReply::Denied { error, error_description } => Result::Err(
            LifecycleError::Authorization { error, error_description },
        ),
        ExchangeReply::Malformed => Result::Err(LifecycleError::Parse),
        ExchangeReply::NoResponse => Result::Err(LifecycleError::Transport),
    }
}

/// The token refresher's verdict, executably.
pub fn classify_refresh(reply: RefreshReply) -> (r: Result<
    (String, Option<String>, u64),
    LifecycleError,
>)
    ensures
        r == refresh_verdict(reply),
{
    match reply {
        RefreshReply::Granted { access_token, refresh_token, expires_in } => {
            if access_token.as_str().is_empty() {
                Result::Err(LifecycleError::Parse)
            } else {
                match refresh_token {
                    Option::Some(rt) => {
                        if rt.as_str().is_empty() {
                            Result::Err(LifecycleError::Parse)
                        } else {
                            Result::Ok((access_token, Option::Some(rt), expires_in))
                        }
                    },
                    Option::None => Result::Ok((access_token, Option::None, expires_in)),
                }
            }
        },
        RefreshReply::Denied { error, error_description } => Result::Err(
            LifecycleError::Authorization { error, error_description },
        ),
        RefreshReply::Malformed => Result::Err(LifecycleError::Parse),
        RefreshReply::NoResponse => Result::Err(LifecycleError::Transport),
    }
}

/// The resource client's verdict, executably.
pub fn classify_fetch(reply: FetchReply) -> (r: Outcome)
    ensures
        r == fetch_verdict(reply),
{
    match reply {
        FetchReply::Response { status, body } => {
            if status == 200 {
                Outcome::Playback { body: Option::Some(body) }
            } else {
                Outcome::Playback { body: Option::None }
            }
        },
        FetchReply::NoResponse => Outcome::Failed {
            stage: Stage::Fetch,
            error: LifecycleError::Transport,
        },
    }
}

impl Manager {
    /// Evaluates the loaded credential once and begins the invocation.
    /// `now` is the evaluation instant in seconds since the epoch; instant
    /// zero is reserved as the "no token ever issued" sentinel.
    pub fn start(cred: Credential, now: u64) -> (r: (Manager, Command))
        requires
            now >= 1,
        ensures
            r == model_start(cred, now),
    {
        if cred.is_never_authorized() {
            (
                Manager { cred, now, phase: Phase::AwaitCode, refreshed: false },
                Command::PromptCode,
            )
        } else if now < cred.expires_at {
            (
                Manager { cred, now, phase: Phase::AwaitFetch, refreshed: false },
                Command::Fetch,
            )
        } else {
            (
                Manager { cred, now, phase: Phase::AwaitRefresh, refreshed: true },
                Command::Refresh,
            )
        }
    }

    /// Whether this event answers the manager's current phase.
    pub fn accepts_event(&self, e: &Event) -> (r: bool)
        ensures
            r == accepts(self.phase, *e),
    {
        match (self.phase, e) {
            (Phase::AwaitCode, Event::CodeEntered { .. }) => true,
            (Phase::AwaitExchange, Event::Exchanged { .. }) => true,
            (Phase::AwaitRefresh, Event::Refreshed { .. }) => true,
            (Phase::AwaitSave, Event::Saved { .. }) => true,
            (Phase::AwaitFetch, Event::Fetched { .. }) => true,
            _ => false,
        }
    }

    /// One transition: consumes the event that answers the current phase,
    /// yields the manager as it stands afterwards and the next command.
    pub fn step(self, e: Event) -> (r: (Manager, Command))
        requires
            accepts(self.phase, e),
        ensures
            r == model_step(self, e),
    {
        match (self.phase, e) {
            (Phase::AwaitCode, Event::CodeEntered { code }) => {
                if code.as_str().is_empty() {
                    (
                        self.close(),
                        Command::Finish {
                            outcome: Outcome::Failed {
                                stage: Stage::Authorize,
                                error: LifecycleError::Input,
                            },
                        },
                    )
                } else {
                    (
                        Manager {
                            cred: self.cred,
                            now: self.now,
                            phase: Phase::AwaitExchange,
                            refreshed: self.refreshed,
                        },
                        Command::Exchange { code },
                    )
                }
            },
            (Phase::AwaitExchange, Event::Exchanged { reply }) => {
                match classify_exchange(reply) {
                    Result::Ok(grant) => {
                        let now = self.now;
                        let refreshed = self.refreshed;
                        let cred = self.cred.apply_exchange(grant.0, grant.1, grant.2, now);
                        (
                            Manager { cred, now, phase: Phase::AwaitSave, refreshed },
                            Command::Save,
                        )
                    },
                    Result::Err(error) => (
                        self.close(),
                        Command::Finish {
                            outcome: Outcome::Failed { stage: Stage::Authorize, error },
                        },
                    ),
                }
            },
            (Phase::AwaitRefresh, Event::Refreshed { reply }) => {
                match classify_refresh(reply) {
                    Result::Ok(grant) => {
                        let now = self.now;
                        let refreshed = self.refreshed;
                        let cred = self.cred.apply_refresh(grant.0, grant.1, grant.2, now);
                        (
                            Manager { cred, now, phase: Phase::AwaitSave, refreshed },
                            Command::Save,
                        )
                    },
                    Result::Err(error) => (
                        self.close(),
                        Command::Finish {
                            outcome: Outcome::Failed { stage: Stage::Refresh, error },
                        },
                    ),
                }
            },
            (Phase::AwaitSave, Event::Saved { result }) => {
                match result {
                    Result::Ok(_) => {
                        if self.cred.is_never_authorized() {
                            (
                                Manager {
                                    cred: self.cred,
                                    now: self.now,
                                    phase: Phase::AwaitCode,
                                    refreshed: self.refreshed,
                                },
                                Command::PromptCode,
                            )
                        } else if self.now < self.cred.expires_at {
                            (
                                Manager {
                                    cred: self.cred,
                                    now: self.now,
                                    phase: Phase::AwaitFetch,
                                    refreshed: self.refreshed,
                                },
                                Command::Fetch,
                            )
                        } else if !self.refreshed {
                            (
                                Manager {
                                    cred: self.cred,
                                    now: self.now,
                                    phase: Phase::AwaitRefresh,
                                    refreshed: true,
                                },
                                Command::Refresh,
                            )
                        } else {
                            (
                                self.close(),
                                Command::Finish {
                                    outcome: Outcome::Failed {
                                        stage: Stage::Refresh,
                                        error: LifecycleError::StillExpired,
                                    },
                                },
                            )
                        }
                    },
                    Result::Err(detail) => (
                        self.close(),
                        Command::Finish {
                            outcome: Outcome::Failed {
                                stage: Stage::Save,
                                error: LifecycleError::Store { detail },
                            },
                        },
                    ),
                }
            },
            (Phase::AwaitFetch, Event::Fetched { reply }) => {
                let outcome = classify_fetch(reply);
                (self.close(), Command::Finish { outcome })
            },
            (_, _) => (self, Command::PromptCode),
        }
    }

    /// This manager with its phase closed out.
    fn close(self) -> (r: Manager)
        ensures
            r == closed(self),
    {
        Manager { cred: self.cred, now: self.now, phase: Phase::Done, refreshed: self.refreshed }
    }
}

/// A credential with no refresh token on record is never sent to the
/// refresher: evaluation routes it to interactive authorization.
pub proof fn lemma_unauthorized_routes_to_authorization(cred: Credential, now: u64)
    requires
        cred.refresh_token@.len() == 0,
    ensures
        model_start(cred, now).1 == Command::PromptCode,
{
}

/// A refresh is only ever commanded of a credential that has been
/// authorized: both tokens on record and an expiry instant set.
pub proof fn lemma_refresh_commanded_only_with_grant(m: Manager, e: Event)
    ensures
        model_start(m.cred, m.now).1 == Command::Refresh ==> m.cred.access_token@.len() > 0
            && m.cred.refresh_token@.len() > 0 && m.cred.expires_at >= 1,
        model_step(m, e).1 == Command::Refresh ==> model_step(m, e).0.cred.access_token@.len() > 0
            && model_step(m, e).0.cred.refresh_token@.len() > 0
            && model_step(m, e).0.cred.expires_at >= 1,
{
}

/// An expired credential with a refresh token on record is refreshed, and
/// the start marks the one permitted refresh as spent.
pub proof fn lemma_expired_credential_is_refreshed(cred: Credential, now: u64)
    requires
        well_formed(cred@),
        cred.refresh_token@.len() > 0,
        now >= cred.expires_at,
    ensures
        model_start(cred, now).1 == Command::Refresh,
        model_start(cred, now).0.refreshed,
{
}

/// At most one refresh per invocation: once the refresh is spent, no later
/// step commands another, and the marker never clears.
pub proof fn lemma_refresh_at_most_once(m: Manager, e: Event)
    requires
        m.refreshed,
    ensures
        model_step(m, e).1 != Command::Refresh,
        model_step(m, e).0.refreshed,
{
}

/// The resource client is only ever commanded with a credential the manager
/// has certified valid at call time: unexpired, with an access token on
/// record.
pub proof fn lemma_fetch_commanded_only_when_valid(m: Manager, e: Event)
    ensures
        model_start(m.cred, m.now).1 == Command::Fetch ==> m.now < m.cred.expires_at
            && m.cred.access_token@.len() > 0,
        model_step(m, e).1 == Command::Fetch ==> model_step(m, e).0.now
            < model_step(m, e).0.cred.expires_at
            && model_step(m, e).0.cred.access_token@.len() > 0,
{
}

/// Fetching with a still-valid access token mutates nothing: the credential
/// is handed over as it stands, and neither the routing step nor the fetch
/// step commands a save.
pub proof fn lemma_valid_fetch_is_pure(cred: Credential, now: u64, reply: FetchReply)
    requires
        !never_authorized(cred),
        now < cred.expires_at,
    ensures
        model_start(cred, now).1 == Command::Fetch,
        model_start(cred, now).0.cred == cred,
        ({
            let after = model_step(model_start(cred, now).0, Event::Fetched { reply });
            after.0.cred == cred && after.1 != Command::Save && after.1 == (Command::Finish {
                outcome: fetch_verdict(reply),
            })
        }),
{
}

/// A failed exchange is terminal for the invocation: the credential is left
/// untouched and no save is commanded.
pub proof fn lemma_failed_exchange_saves_nothing(m: Manager, reply: ExchangeReply)
    requires
        m.phase == Phase::AwaitExchange,
        exchange_verdict(reply) is Err,
    ensures
        model_step(m, Event::Exchanged { reply }).0.cred == m.cred,
        model_step(m, Event::Exchanged { reply }).1 == (Command::Finish {
            outcome: Outcome::Failed {
                stage: Stage::Authorize,
                error: exchange_verdict(reply)->Err_0,
            },
        }),
{
}

/// A failed refresh does not clear the stored refresh token: the credential
/// is left exactly as it was, and no save is commanded.
pub proof fn lemma_failed_refresh_keeps_credential(m: Manager, reply: RefreshReply)
    requires
        m.phase == Phase::AwaitRefresh,
        refresh_verdict(reply) is Err,
    ensures
        model_step(m, Event::Refreshed { reply }).0.cred == m.cred,
        model_step(m, Event::Refreshed { reply }).1 == (Command::Finish {
            outcome: Outcome::Failed {
                stage: Stage::Refresh,
                error: refresh_verdict(reply)->Err_0,
            },
        }),
{
}

/// A successful exchange leaves the credential well formed: both tokens on
/// record and an expiry instant set, whatever the credential held before.
pub proof fn lemma_exchange_success_leaves_well_formed(m: Manager, reply: ExchangeReply)
    requires
        m.now >= 1,
        m.phase == Phase::AwaitExchange,
        exchange_verdict(reply) is Ok,
    ensures
        well_formed(model_step(m, Event::Exchanged { reply }).0.cred@),
{
}

/// A successful refresh of a credential with a refresh token on record
/// leaves the credential well formed, whether or not the token was rotated.
pub proof fn lemma_refresh_success_leaves_well_formed(m: Manager, reply: RefreshReply)
    requires
        m.now >= 1,
        m.phase == Phase::AwaitRefresh,
        m.cred.refresh_token@.len() > 0,
        refresh_verdict(reply) is Ok,
    ensures
        well_formed(model_step(m, Event::Refreshed { reply }).0.cred@),
{
}

/// The whole expired path: an expired, once-authorized credential is
/// refreshed exactly once, the refreshed credential is saved, and the fetch
/// is then commanded with the access token the refresh granted.
pub proof fn lemma_expired_path_refreshes_then_fetches(
    cred: Credential,
    now: u64,
    reply: RefreshReply,
)
    requires
        well_formed(cred@),
        cred.refresh_token@.len() > 0,
        now >= cred.expires_at,
        refresh_verdict(reply) is Ok,
        now < expiry_model(now, refresh_verdict(reply)->Ok_0.2),
    ensures
        ({
            let started = model_start(cred, now);
            let granted = model_step(started.0, Event::Refreshed { reply });
            let saved = model_step(granted.0, Event::Saved { result: Result::Ok(()) });
            started.1 == Command::Refresh && granted.1 == Command::Save && saved.1
                == Command::Fetch && saved.0.cred.access_token == refresh_verdict(reply)->Ok_0.0
                && saved.0.refreshed
        }),
{
}

} // verus!
