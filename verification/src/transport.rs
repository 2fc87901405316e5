//! Deciding, answer by answer, how one request to the Web API goes on: when
//! it waits, when it is sent again, and what it comes to.

use vstd::prelude::*;

use crate::error::{
    canonical_reason_of, failed_status, failure_text, is_quota_exhausted, json_part, json_part_at,
    quota_in, said_in, ApiError, ApiResult, PartModel,
};
use crate::text::{chars_of, has_prefix, is_blank, join2, same_text, starts_with, trim, trimmed};

verus! {

pub const BASE_URL: &'static str = "https://api.spotify.com/v1";

/// How many requests may be on the wire at once.
pub const MAX_IN_FLIGHT: usize = 6;

/// How often a request is sent again after the server asked it to wait.
pub const RATE_LIMIT_RETRIES: u32 = 3;

/// The longest wait, in milliseconds, that the server can ask of a request
/// that is not a queue write.
pub const MAX_RETRY_AFTER_MS: u128 = 30_000;

/// The pause, in milliseconds, before a read is repeated after a server error.
pub const SERVER_ERROR_PAUSE_MS: u64 = 800;

#[derive(Clone, Copy, Debug, PartialEq, Eq, Structural)]
pub enum Method {
    Get,
    Put,
    Post,
    Delete,
}

/// Where a request goes: a full address as it is, a path below the base.
pub open spec fn address(base: Seq<char>, path: Seq<char>) -> Seq<char> {
    if has_prefix(path, "http"@) {
        path
    } else {
        base + path
    }
}

pub fn address_of(base: &str, path: &str) -> (url: String)
    ensures
        url@ == address(base@, path@),
{
    if starts_with(path, "http") {
        path.to_owned()
    } else {
        join2(base, path)
    }
}

/// How the body of a request travels.
#[derive(Clone, Copy, Debug, PartialEq, Eq, Structural)]
pub enum Framing {
    Jpeg,
    Json,
    /// A write without a body says so, with a length of nothing.
    EmptyLength,
    Bare,
}

pub open spec fn framing(method: Method, jpeg: bool, body: bool) -> Framing {
    if jpeg {
        Framing::Jpeg
    } else if body {
        Framing::Json
    } else if method != Method::Get {
        Framing::EmptyLength
    } else {
        Framing::Bare
    }
}

pub fn framing_of(method: Method, jpeg: bool, body: bool) -> (r: Framing)
    ensures
        r == framing(method, jpeg, body),
{
    if jpeg {
        Framing::Jpeg
    } else if body {
        Framing::Json
    } else if method != Method::Get {
        Framing::EmptyLength
    } else {
        Framing::Bare
    }
}

/// The value of a run of decimal digits; `None` when a character is no digit.
pub open spec fn digits_value(digits: Seq<char>) -> Option<nat>
    decreases digits.len(),
{
    if digits.len() == 0 {
        Some(0)
    } else if !('0' <= digits.last() <= '9') {
        None
    } else {
        match digits_value(digits.drop_last()) {
            Some(value) => Some(value * 10 + (digits.last() as nat - '0' as nat) as nat),
            None => None,
        }
    }
}

/// The number that a text spells: digits, at least one, perhaps behind a plus
/// sign, and no more than 64 bits of value.
pub open spec fn spelled_number(text: Seq<char>) -> Option<u64> {
    let digits = if text.len() > 0 && text[0] == '+' {
        text.drop_first()
    } else {
        text
    };
    if digits.len() == 0 {
        None
    } else {
        match digits_value(digits) {
            Some(value) if value <= u64::MAX => Some(value as u64),
            _ => None,
        }
    }
}

proof fn digits_value_grows(digits: Seq<char>, upto: int)
    requires
        0 <= upto <= digits.len(),
    ensures
        digits_value(digits) matches Some(whole) ==> (digits_value(digits.take(upto)) matches Some(
            part,
        ) && part <= whole),
    decreases digits.len() - upto,
{
    if upto == digits.len() {
        assert(digits.take(upto) =~= digits);
    } else {
        digits_value_grows(digits, upto + 1);
        assert(digits.take(upto + 1).drop_last() =~= digits.take(upto));
    }
}

/// Reads a number of seconds the way `u64` does.
pub fn read_number(text: &str) -> (r: Option<u64>)
    ensures
        r == spelled_number(text@),
{
    let chars = chars_of(text);
    let start: usize = if chars.len() > 0 && chars[0] == '+' {
        1
    } else {
        0
    };
    let ghost digits = if start == 1 {
        text@.drop_first()
    } else {
        text@
    };
    if start == chars.len() {
        return None;
    }
    let mut value: u64 = 0;
    let mut i: usize = start;
    assert(digits.take(0) =~= Seq::<char>::empty());
    while i < chars.len()
        invariant
            chars@ == text@,
            start <= i <= chars@.len(),
            start == 0 || start == 1,
            start < chars@.len(),
            start == 1 <==> text@.len() > 0 && text@[0] == '+',
            digits == if start == 1 {
                text@.drop_first()
            } else {
                text@
            },
            digits_value(digits.take(i - start)) == Some(value as nat),
        decreases chars.len() - i,
    {
        let c = chars[i];
        proof {
            assert(digits.take(i - start + 1).drop_last() =~= digits.take(i - start));
            assert(digits.take(i - start + 1).last() == c);
            digits_value_grows(digits, i - start + 1);
        }
        if c < '0' || c > '9' {
            return None;
        }
        let digit: u64 = c as u64 - '0' as u64;
        if value > (u64::MAX - digit) / 10 {
            assert(value * 10 + digit > u64::MAX);
            return None;
        }
        value = value * 10 + digit;
        i += 1;
    }
    assert(digits.take(i - start) =~= digits);
    Some(value)
}

/// What to do with an answer once its status is known.
#[derive(Clone, Copy, Debug, PartialEq, Eq, Structural)]
pub enum OnStatus {
    /// The token was refused: get a fresh one and send again.
    RefreshToken,
    /// The server asked to wait: read the body, if any, to see why.
    ReadLimit,
    /// Pause, then send again.
    PauseAndRetry,
    /// Read the body: it is the answer.
    ReadBody,
}

/// What a rate limit comes to.
#[derive(Clone, Copy, Debug, PartialEq, Eq, Structural)]
pub enum OnLimit {
    /// No wait will help.
    QuotaExhausted,
    /// Keep every request of this session back for `wait_ms`, then send again.
    Retry { wait_ms: u128 },
    /// Keep every request of this session back for `wait_ms`, and give this
    /// one up.
    GiveUp { wait_ms: u128 },
}

/// One request on its way, over all the times that it is sent.
#[derive(Clone, Copy, Debug, PartialEq, Eq, Structural)]
pub struct Delivery {
    pub method: Method,
    /// Whether the request appends to the player's queue.
    pub queue_write: bool,
    /// How often the request was sent.
    pub attempt: u32,
}

/// Whether a status is a server error.
pub open spec fn server_error(status: u16) -> bool {
    500 <= status <= 599
}

/// Whether a status is a success.
pub open spec fn success(status: u16) -> bool {
    200 <= status <= 299
}

/// How long the server asked to wait: what the header spells, else a second.
pub open spec fn asked_wait_ms(retry_after: Option<Seq<char>>) -> u128 {
    match retry_after {
        Some(text) => match spelled_number(text) {
            Some(seconds) => (seconds * 1000) as u128,
            None => 1000,
        },
        None => 1000,
    }
}

impl Delivery {
    pub open spec fn starting(method: Method, path: Seq<char>) -> Delivery {
        Delivery {
            method,
            queue_write: method == Method::Post && path == "/me/player/queue"@,
            attempt: 0,
        }
    }

    /// How long every request is held back: as long as asked for a queue
    /// write, and no longer than half a minute for any other.
    pub open spec fn wait_ms(self, retry_after: Option<Seq<char>>) -> u128 {
        let asked = asked_wait_ms(retry_after);
        if self.queue_write || asked <= MAX_RETRY_AFTER_MS {
            asked
        } else {
            MAX_RETRY_AFTER_MS
        }
    }

    pub open spec fn on_status_spec(self, status: u16) -> OnStatus {
        if status == 401 && self.attempt == 1 {
            OnStatus::RefreshToken
        } else if status == 429 {
            OnStatus::ReadLimit
        } else if server_error(status) && self.method == Method::Get && self.attempt == 1 {
            OnStatus::PauseAndRetry
        } else {
            OnStatus::ReadBody
        }
    }

    pub open spec fn on_limit_spec(self, quota: bool, retry_after: Option<Seq<char>>) -> OnLimit {
        if quota {
            OnLimit::QuotaExhausted
        } else if !self.queue_write && self.attempt > RATE_LIMIT_RETRIES {
            OnLimit::GiveUp { wait_ms: self.wait_ms(retry_after) }
        } else {
            OnLimit::Retry { wait_ms: self.wait_ms(retry_after) }
        }
    }

    /// A request that was not sent yet.
    pub fn new(method: Method, path: &str) -> (delivery: Delivery)
        ensures
            delivery == Delivery::starting(method, path@),
    {
        Delivery {
            method,
            queue_write: method == Method::Post && same_text(path, "/me/player/queue"),
            attempt: 0,
        }
    }

    /// A request that was sent once more. The count stops at its end.
    pub open spec fn counted(self) -> Delivery {
        Delivery {
            attempt: if self.attempt == u32::MAX {
                u32::MAX
            } else {
                (self.attempt + 1) as u32
            },
            ..self
        }
    }

    /// Counts one more sending.
    pub fn begin_attempt(&mut self)
        ensures
            *final(self) == old(self).counted(),
    {
        self.attempt = self.attempt.saturating_add(1);
    }

    /// What to do with an answer, by its status.
    pub fn on_status(&self, status: u16) -> (r: OnStatus)
        ensures
            r == self.on_status_spec(status),
    {
        if status == 401 && self.attempt == 1 {
            OnStatus::RefreshToken
        } else if status == 429 {
            OnStatus::ReadLimit
        } else if status >= 500 && status <= 599 && self.method == Method::Get && self.attempt
            == 1 {
            OnStatus::PauseAndRetry
        } else {
            OnStatus::ReadBody
        }
    }

    /// What a rate limit comes to, once it is known whether it is a quota.
    pub fn on_limit_known(&self, quota: bool, retry_after: Option<&str>) -> (r: OnLimit)
        ensures
            r == self.on_limit_spec(
                quota,
                match retry_after {
                    Some(text) => Some(text@),
                    None => None,
                },
            ),
    {
        if quota {
            return OnLimit::QuotaExhausted;
        }
        let asked: u128 = match retry_after {
            Some(text) => match read_number(text) {
                Some(seconds) => seconds as u128 * 1000,
                None => 1000,
            },
            None => 1000,
        };
        let wait_ms: u128 = if self.queue_write || asked <= MAX_RETRY_AFTER_MS {
            asked
        } else {
            MAX_RETRY_AFTER_MS
        };
        if !self.queue_write && self.attempt > RATE_LIMIT_RETRIES {
            OnLimit::GiveUp { wait_ms }
        } else {
            OnLimit::Retry { wait_ms }
        }
    }

    /// What a rate limit comes to. `body` is empty when it could not be read.
    pub fn on_limit(&self, retry_after: Option<&str>, body: &str) -> (r: OnLimit)
        ensures
            r == self.on_limit_spec(
                quota_in(body@),
                match retry_after {
                    Some(text) => Some(text@),
                    None => None,
                },
            ),
    {
        self.on_limit_known(is_quota_exhausted(body), retry_after)
    }

    /// What an answer that was read to its end comes to.
    pub fn on_body(&self, status: u16, body: String) -> (r: ApiResult<String>)
        ensures
            success(status) ==> r == ApiResult::<String>::Ok(body),
            !success(status) ==> (r matches Err(ApiError::Status { status: s, message }) && s
                == status && message@ == failure_text(
                said_in(body@),
                canonical_reason_of(status),
            )),
    {
        if status >= 200 && status <= 299 {
            Ok(body)
        } else {
            Err(failed_status(status, body.as_str()))
        }
    }
}

/// A request whose token is refused is sent again once, with a fresh token;
/// a second refusal is its answer.
pub proof fn a_refused_token_is_replaced_once(delivery: Delivery)
    ensures
        (delivery.on_status_spec(401) == OnStatus::RefreshToken) == (delivery.attempt == 1),
        delivery.attempt != 1 ==> delivery.on_status_spec(401) == OnStatus::ReadBody,
{
}

/// After a server error a read is repeated once, and a write never.
pub proof fn only_reads_repeat_after_a_server_error(delivery: Delivery, status: u16)
    requires
        server_error(status),
    ensures
        (delivery.on_status_spec(status) == OnStatus::PauseAndRetry) == (delivery.method
            == Method::Get && delivery.attempt == 1),
{
}

/// An ordinary request waits no longer than half a minute at a time and is
/// given up at the fourth limit; a queue write waits as long as it was asked
/// to and is never given up for a limit.
pub proof fn rate_limits_are_bounded(delivery: Delivery, retry_after: Option<Seq<char>>)
    ensures
        !delivery.queue_write ==> delivery.wait_ms(retry_after) <= MAX_RETRY_AFTER_MS,
        !delivery.queue_write ==> (delivery.on_limit_spec(false, retry_after) is GiveUp)
            == (delivery.attempt > RATE_LIMIT_RETRIES),
        delivery.queue_write ==> delivery.wait_ms(retry_after) == asked_wait_ms(retry_after),
        delivery.queue_write ==> delivery.on_limit_spec(false, retry_after) is Retry,
        delivery.on_limit_spec(true, retry_after) is QuotaExhausted,
{
}

/// A request that is no queue write is not sent again once it was sent four
/// times, whatever the answer.
pub proof fn an_ordinary_request_is_sent_at_most_four_times(
    delivery: Delivery,
    status: u16,
    quota: bool,
    retry_after: Option<Seq<char>>,
)
    requires
        !delivery.queue_write,
        delivery.attempt > RATE_LIMIT_RETRIES,
    ensures
        delivery.on_status_spec(status) is ReadLimit || delivery.on_status_spec(status) is ReadBody,
        !(delivery.on_limit_spec(quota, retry_after) is Retry),
{
}

/// Until when the requests of one session are held back.
#[derive(Clone, Copy, Debug, PartialEq, Eq, Structural)]
pub struct Cooldown {
    pub until_ms: u128,
}

impl Cooldown {
    /// A session that was never asked to wait.
    pub fn new(now_ms: u64) -> (cooldown: Cooldown)
        ensures
            cooldown.until_ms == now_ms,
    {
        Cooldown { until_ms: now_ms as u128 }
    }

    pub open spec fn extended(self, now_ms: u64, wait_ms: u128) -> Cooldown {
        let until = now_ms + wait_ms;
        if until > self.until_ms {
            Cooldown { until_ms: until as u128 }
        } else {
            self
        }
    }

    /// Holds requests back for `wait_ms` from now, unless they are held back
    /// for longer already.
    pub fn extend(&mut self, now_ms: u64, wait_ms: u128)
        requires
            now_ms + wait_ms <= u128::MAX,
        ensures
            *final(self) == old(self).extended(now_ms, wait_ms),
    {
        let until: u128 = now_ms as u128 + wait_ms;
        if until > self.until_ms {
            self.until_ms = until;
        }
    }

    /// How long a request still has to wait; `None` when it may go.
    pub fn remaining(&self, now_ms: u64) -> (wait: Option<u128>)
        ensures
            wait == if self.until_ms >= now_ms {
                Some((self.until_ms - now_ms) as u128)
            } else {
                None
            },
    {
        if self.until_ms >= now_ms as u128 {
            Some(self.until_ms - now_ms as u128)
        } else {
            None
        }
    }
}

/// A cooldown never gets shorter, and covers the wait that was asked for.
pub proof fn a_cooldown_only_grows(cooldown: Cooldown, now_ms: u64, wait_ms: u128)
    requires
        now_ms + wait_ms <= u128::MAX,
    ensures
        cooldown.extended(now_ms, wait_ms).until_ms >= cooldown.until_ms,
        cooldown.extended(now_ms, wait_ms).until_ms >= now_ms + wait_ms,
        cooldown.extended(now_ms, wait_ms).until_ms == cooldown.until_ms || cooldown.extended(
            now_ms,
            wait_ms,
        ).until_ms == now_ms + wait_ms,
{
}

/// The client's traffic, for an interface that shows when it is waiting for
/// Spotify rather than being slow itself.
#[derive(Debug)]
pub struct NetActivity {
    in_flight: usize,
    /// When the current burst of requests began.
    busy_since_ms: u64,
}

impl Default for NetActivity {
    fn default() -> (r: Self)
        ensures
            r.requests() == 0,
            r.since() == 0,
    {
        NetActivity { in_flight: 0, busy_since_ms: 0 }
    }
}

impl NetActivity {
    /// How many requests are under way.
    pub closed spec fn requests(&self) -> nat {
        self.in_flight as nat
    }

    /// When the burst of requests began.
    pub closed spec fn since(&self) -> u64 {
        self.busy_since_ms
    }

    /// A request starts. The first of a burst marks its beginning.
    pub fn begin(&mut self, now_ms: u64)
        requires
            old(self).requests() < usize::MAX,
        ensures
            final(self).requests() == old(self).requests() + 1,
            final(self).since() == if old(self).requests() == 0 {
                now_ms
            } else {
                old(self).since()
            },
    {
        if self.in_flight == 0 {
            self.busy_since_ms = now_ms;
        }
        self.in_flight = self.in_flight + 1;
    }

    /// A request ends.
    pub fn end(&mut self)
        requires
            old(self).requests() > 0,
        ensures
            final(self).requests() == old(self).requests() - 1,
            final(self).since() == old(self).since(),
    {
        self.in_flight = self.in_flight - 1;
    }

    /// Requests have been under way without a break for at least
    /// `for_at_least_ms`.
    pub fn busy(&self, now_ms: u64, for_at_least_ms: u64) -> (r: bool)
        ensures
            r == (self.requests() > 0 && (if now_ms >= self.since() {
                now_ms - self.since()
            } else {
                0
            }) >= for_at_least_ms),
    {
        self.in_flight > 0 && now_ms.saturating_sub(self.busy_since_ms) >= for_at_least_ms
    }
}

/// What the body of a successful read is.
#[derive(Clone, Copy, Debug, PartialEq, Eq, Structural)]
pub enum Payload {
    /// Nothing was sent: the value is JSON's `null`.
    Null,
    /// The text is the value's JSON.
    Json,
}

/// How the body of a read is taken: an empty one stands for `null`.
pub fn read_payload(body: &str) -> (r: Payload)
    ensures
        r == if crate::text::blank(body@) {
            Payload::Null
        } else {
            Payload::Json
        },
{
    if is_blank(body) {
        Payload::Null
    } else {
        Payload::Json
    }
}

/// Whether the body of a read that may have nothing to say says something.
pub fn has_optional_payload(body: &str) -> (r: bool)
    ensures
        r == !(crate::text::blank(body@) || trimmed(body@) == "null"@),
{
    !(is_blank(body) || same_text(trim(body), "null"))
}

/// The snapshot that an edit of a playlist left, when the answer names one.
/// Whatever else the body of a successful write holds is not looked at.
pub fn snapshot(body: &str) -> (r: Option<String>)
    ensures
        match r {
            Some(text) => json_part_at(body@, "/snapshot_id"@) == PartModel::Text(text@),
            None => !(json_part_at(body@, "/snapshot_id"@) is Text),
        },
{
    json_part(body, "/snapshot_id").text()
}

} // verus!
