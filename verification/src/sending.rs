//! A request on its way to Spotify, from waiting for its turn to its answer.

use vstd::prelude::*;

use crate::client::ApiClient;
use crate::error::{
    canonical_reason_of, failure_text, quota_in, said_in, ApiError, ApiResult,
};
use crate::request::{Body, HttpRequest};
use crate::transport::{
    address, address_of, framing, framing_of, success, Cooldown, Delivery, Framing, Method,
    OnLimit, OnStatus, BASE_URL, RATE_LIMIT_RETRIES, SERVER_ERROR_PAUSE_MS,
};

verus! {

/// What a request is waiting for.
#[derive(Debug, PartialEq, Eq)]
pub enum Stage {
    /// A place among the few requests that are sent side by side.
    Place,
    /// The end of the time for which Spotify asked the session to wait.
    Cooldown,
    Token,
    Answer,
    /// That a refused token is thrown away.
    NoToken,
    /// The reason for a rate limit. The header said how long to wait.
    Limit { retry_after: Option<String> },
    Pause,
    Body { status: u16 },
    Ended,
}

/// What has happened.
#[derive(Debug, PartialEq, Eq)]
pub enum Happened {
    /// The request has a place.
    Entered,
    /// No place can be had any more.
    Closed,
    Slept,
    Token(ApiResult<String>),
    /// The answer's status and, where it has one, its `Retry-After` header.
    Answered { status: u16, retry_after: Option<String> },
    /// No answer came.
    Unanswered(ApiError),
    TokenDropped,
    /// The body of an answer that says to wait; empty when it could not be
    /// read.
    LimitRead(String),
    BodyRead(ApiResult<String>),
}

/// What is to be done next.
#[allow(inconsistent_fields)]
#[derive(Debug, PartialEq, Eq)]
pub enum Action {
    /// Give up the place, if there is one, and wait for another.
    Enter,
    /// Keep the place and sleep.
    Sleep { ms: u128 },
    GetToken,
    Send { token: String },
    /// Give up the place and throw the token away, so that the next one is
    /// fresh.
    DropToken,
    ReadLimit,
    /// Give up the place and sleep.
    Pause { ms: u64 },
    ReadBody,
    Finish(ApiResult<String>),
}

/// What is to be done next, a refusal by the words it is told in.
pub ghost enum Next {
    Do(Action),
    Refuse { status: u16, text: Seq<char> },
}

impl Action {
    pub open spec fn is(self, next: Next) -> bool {
        match next {
            Next::Do(action) => self == action,
            Next::Refuse { status, text } => self matches Action::Finish(
                Err(ApiError::Status { status: told, message }),
            ) && told == status && message@ == text,
        }
    }
}

/// A request on its way.
#[derive(Debug)]
pub struct Sending {
    pub address: String,
    pub framing: Framing,
    pub delivery: Delivery,
    pub stage: Stage,
}

/// Where a request stands after something has happened, and what is next.
pub ghost struct Turn {
    pub delivery: Delivery,
    pub stage: Stage,
    pub cooldown: Cooldown,
    pub next: Next,
}

/// What tells a body from another: how it is framed.
pub open spec fn body_framing(method: Method, body: Body) -> Framing {
    framing(method, body is Jpeg, !(body is Empty))
}

pub open spec fn header(text: Option<String>) -> Option<Seq<char>> {
    match text {
        Some(text) => Some(text@),
        None => None,
    }
}

impl Sending {
    /// A request that ends.
    pub open spec fn end(self, cooldown: Cooldown, next: Next) -> Turn {
        Turn { delivery: self.delivery, stage: Stage::Ended, cooldown, next }
    }

    /// A request that goes on as part of the same attempt.
    pub open spec fn go(self, cooldown: Cooldown, stage: Stage, action: Action) -> Turn {
        Turn { delivery: self.delivery, stage, cooldown, next: Next::Do(action) }
    }

    /// A request that starts over.
    pub open spec fn again(self, cooldown: Cooldown) -> Turn {
        Turn {
            delivery: self.delivery.counted(),
            stage: Stage::Place,
            cooldown,
            next: Next::Do(Action::Enter),
        }
    }

    /// A request that has a place waits out the cooldown and gets its token.
    pub open spec fn placed(self, cooldown: Cooldown, now_ms: u64) -> Turn {
        if cooldown.until_ms >= now_ms {
            self.go(
                cooldown,
                Stage::Cooldown,
                Action::Sleep { ms: (cooldown.until_ms - now_ms) as u128 },
            )
        } else {
            self.go(cooldown, Stage::Token, Action::GetToken)
        }
    }

    pub open spec fn answered(
        self,
        cooldown: Cooldown,
        status: u16,
        retry_after: Option<String>,
    ) -> Turn {
        match self.delivery.on_status_spec(status) {
            OnStatus::RefreshToken => self.go(cooldown, Stage::NoToken, Action::DropToken),
            OnStatus::ReadLimit => self.go(
                cooldown,
                Stage::Limit { retry_after },
                Action::ReadLimit,
            ),
            OnStatus::PauseAndRetry => self.go(
                cooldown,
                Stage::Pause,
                Action::Pause { ms: SERVER_ERROR_PAUSE_MS },
            ),
            OnStatus::ReadBody => self.go(cooldown, Stage::Body { status }, Action::ReadBody),
        }
    }

    pub open spec fn limited(
        self,
        cooldown: Cooldown,
        quota: bool,
        retry_after: Option<Seq<char>>,
        now_ms: u64,
    ) -> Turn {
        match self.delivery.on_limit_spec(quota, retry_after) {
            OnLimit::QuotaExhausted => self.end(
                cooldown,
                Next::Do(Action::Finish(Err(ApiError::QuotaExhausted))),
            ),
            OnLimit::Retry { wait_ms } => self.again(cooldown.extended(now_ms, wait_ms)),
            OnLimit::GiveUp { wait_ms } => self.end(
                cooldown.extended(now_ms, wait_ms),
                Next::Do(Action::Finish(Err(ApiError::RateLimited))),
            ),
        }
    }

    pub open spec fn finished(self, cooldown: Cooldown, status: u16, body: String) -> Turn {
        if success(status) {
            self.end(cooldown, Next::Do(Action::Finish(Ok(body))))
        } else {
            self.end(
                cooldown,
                Next::Refuse {
                    status,
                    text: failure_text(said_in(body@), canonical_reason_of(status)),
                },
            )
        }
    }

    pub open spec fn failed(self, cooldown: Cooldown, error: ApiError) -> Turn {
        self.end(cooldown, Next::Do(Action::Finish(Err(error))))
    }

    /// What follows on what has happened; nothing does on what the request
    /// was not waiting for.
    pub open spec fn turn(self, cooldown: Cooldown, happened: Happened, now_ms: u64) -> Option<
        Turn,
    > {
        match (self.stage, happened) {
            (Stage::Place, Happened::Closed) => Some(self.failed(cooldown, ApiError::NotSignedIn)),
            (Stage::Place, Happened::Entered) => Some(self.placed(cooldown, now_ms)),
            (Stage::Cooldown, Happened::Slept) => Some(self.placed(cooldown, now_ms)),
            (Stage::Token, Happened::Token(Ok(token))) => Some(
                self.go(cooldown, Stage::Answer, Action::Send { token }),
            ),
            (Stage::Token, Happened::Token(Err(error))) => Some(self.failed(cooldown, error)),
            (Stage::Answer, Happened::Unanswered(error)) => Some(self.failed(cooldown, error)),
            (Stage::Answer, Happened::Answered { status, retry_after }) => Some(
                self.answered(cooldown, status, retry_after),
            ),
            (Stage::NoToken, Happened::TokenDropped) => Some(self.again(cooldown)),
            (Stage::Limit { retry_after }, Happened::LimitRead(body)) => Some(
                self.limited(
                    cooldown,
                    quota_in(body@),
                    header(retry_after),
                    now_ms,
                ),
            ),
            (Stage::Pause, Happened::Slept) => Some(self.again(cooldown)),
            (Stage::Body { status }, Happened::BodyRead(Ok(body))) => Some(
                self.finished(cooldown, status, body),
            ),
            (Stage::Body { .. }, Happened::BodyRead(Err(error))) => Some(
                self.failed(cooldown, error),
            ),
            _ => None,
        }
    }

    /// Sets a request on its way. Nobody who is not signed in sends one.
    pub fn start(client: &ApiClient, request: &HttpRequest) -> (r: ApiResult<Sending>)
        ensures
            match r {
                Err(error) => client.tokens is None && error == ApiError::NotSignedIn,
                Ok(sending) => {
                    &&& client.tokens is Some
                    &&& sending.address@ == address(BASE_URL@, request.path@)
                    &&& sending.framing == body_framing(request.method, request.body)
                    &&& sending.delivery == Delivery::starting(
                        request.method,
                        request.path@,
                    ).counted()
                    &&& sending.stage == Stage::Place
                },
            },
    {
        match client.provider() {
            Err(error) => {
                return Err(error);
            },
            Ok(_) => {},
        }
        let (jpeg, body) = match &request.body {
            Body::Empty => (false, false),
            Body::Json(_) => (false, true),
            Body::Jpeg(_) => (true, true),
        };
        let mut delivery = Delivery::new(request.method, request.path.as_str());
        delivery.begin_attempt();
        Ok(
            Sending {
                address: address_of(BASE_URL, request.path.as_str()),
                framing: framing_of(request.method, jpeg, body),
                delivery,
                stage: Stage::Place,
            },
        )
    }

    /// Takes what has happened and says what is to be done next. The cooldown
    /// is the session's: all of its requests wait for it.
    pub fn step(&mut self, cooldown: &mut Cooldown, happened: Happened, now_ms: u64) -> (r: Option<
        Action,
    >)
        ensures
            final(self).address == old(self).address,
            final(self).framing == old(self).framing,
            match old(self).turn(*old(cooldown), happened, now_ms) {
                Some(turn) => {
                    &&& final(self).delivery == turn.delivery
                    &&& final(self).stage == turn.stage
                    &&& *final(cooldown) == turn.cooldown
                    &&& r is Some
                    &&& r->0.is(turn.next)
                },
                None => {
                    &&& *final(self) == *old(self)
                    &&& *final(cooldown) == *old(cooldown)
                    &&& r is None
                },
            },
    {
        let mut stage = Stage::Ended;
        std::mem::swap(&mut stage, &mut self.stage);
        match (stage, happened) {
            (Stage::Place, Happened::Closed) => Some(
                Action::Finish(Err(ApiError::NotSignedIn)),
            ),
            (Stage::Place, Happened::Entered) | (Stage::Cooldown, Happened::Slept) => {
                match cooldown.remaining(now_ms) {
                    Some(ms) => {
                        self.stage = Stage::Cooldown;
                        Some(Action::Sleep { ms })
                    },
                    None => {
                        self.stage = Stage::Token;
                        Some(Action::GetToken)
                    },
                }
            },
            (Stage::Token, Happened::Token(answer)) => match answer {
                Ok(token) => {
                    self.stage = Stage::Answer;
                    Some(Action::Send { token })
                },
                Err(error) => Some(Action::Finish(Err(error))),
            },
            (Stage::Answer, Happened::Unanswered(error)) => Some(Action::Finish(Err(error))),
            (Stage::Answer, Happened::Answered { status, retry_after }) => {
                match self.delivery.on_status(status) {
                    OnStatus::RefreshToken => {
                        self.stage = Stage::NoToken;
                        Some(Action::DropToken)
                    },
                    OnStatus::ReadLimit => {
                        self.stage = Stage::Limit { retry_after };
                        Some(Action::ReadLimit)
                    },
                    OnStatus::PauseAndRetry => {
                        self.stage = Stage::Pause;
                        Some(Action::Pause { ms: SERVER_ERROR_PAUSE_MS })
                    },
                    OnStatus::ReadBody => {
                        self.stage = Stage::Body { status };
                        Some(Action::ReadBody)
                    },
                }
            },
            (Stage::NoToken, Happened::TokenDropped) | (Stage::Pause, Happened::Slept) => {
                self.delivery.begin_attempt();
                self.stage = Stage::Place;
                Some(Action::Enter)
            },
            (Stage::Limit { retry_after }, Happened::LimitRead(body)) => {
                let asked = match &retry_after {
                    Some(text) => Some(text.as_str()),
                    None => None,
                };
                match self.delivery.on_limit(asked, body.as_str()) {
                    OnLimit::QuotaExhausted => Some(
                        Action::Finish(Err(ApiError::QuotaExhausted)),
                    ),
                    OnLimit::Retry { wait_ms } => {
                        cooldown.extend(now_ms, wait_ms);
                        self.delivery.begin_attempt();
                        self.stage = Stage::Place;
                        Some(Action::Enter)
                    },
                    OnLimit::GiveUp { wait_ms } => {
                        cooldown.extend(now_ms, wait_ms);
                        Some(Action::Finish(Err(ApiError::RateLimited)))
                    },
                }
            },
            (Stage::Body { status }, Happened::BodyRead(read)) => match read {
                Ok(body) => Some(Action::Finish(self.delivery.on_body(status, body))),
                Err(error) => Some(Action::Finish(Err(error))),
            },
            (stage, _) => {
                self.stage = stage;
                None
            },
        }
    }
}

impl Sending {
    /// What holds of a request all the way: an ordinary one is sent four
    /// times at most, and only a read is sent again after a server error.
    pub open spec fn bounded(self) -> bool {
        &&& self.delivery.attempt >= 1
        &&& !self.delivery.queue_write ==> self.delivery.attempt <= RATE_LIMIT_RETRIES + 1
        &&& self.stage is NoToken ==> self.delivery.attempt == 1
        &&& self.stage is Pause ==> self.delivery.attempt == 1 && self.delivery.method
            == Method::Get
    }
}

/// A request starts within its bounds, and nothing that happens takes it out
/// of them.
pub proof fn a_request_stays_within_its_bounds(
    method: Method,
    path: Seq<char>,
    sending: Sending,
    cooldown: Cooldown,
    happened: Happened,
    now_ms: u64,
)
    ensures
        sending.delivery == Delivery::starting(method, path).counted() && sending.stage
            == Stage::Place ==> sending.bounded(),
        sending.bounded() ==> (sending.turn(cooldown, happened, now_ms) matches Some(turn) ==> (
        Sending { delivery: turn.delivery, stage: turn.stage, ..sending }).bounded()),
{
}

/// A request that has ended stays ended, and every other one waits for
/// something: when that comes, there is something to do.
pub proof fn a_request_ends_once(
    sending: Sending,
    cooldown: Cooldown,
    happened: Happened,
    now_ms: u64,
)
    ensures
        sending.stage is Ended ==> sending.turn(cooldown, happened, now_ms) is None,
        sending.turn(cooldown, happened, now_ms) matches Some(turn) ==> (turn.stage is Ended) == (
        turn.next is Refuse || turn.next->Do_0 is Finish),
{
}

/// No request gets a token to send while its session is asked to wait, and
/// what one request is told about waiting holds for all of them.
pub proof fn requests_wait_for_their_session(
    sending: Sending,
    cooldown: Cooldown,
    happened: Happened,
    now_ms: u64,
)
    ensures
        sending.turn(cooldown, happened, now_ms) matches Some(turn) ==> {
            &&& turn.stage is Token ==> cooldown.until_ms < now_ms
            &&& turn.cooldown.until_ms >= cooldown.until_ms
            &&& turn.cooldown != cooldown ==> sending.stage is Limit
        },
{
}

} // verus!
