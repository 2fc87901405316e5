//! How a request travels: where it goes, when it is sent again, and with which token.

use vstd::prelude::*;

use crate::credentials::{has_word, Ledger, Lease, Refresh, Slot, StoredToken, TokenStep, WebTokens};
use crate::error::{
    canonical_reason_of, error_body, failure_text, json_part_at, names_quota, quota_in, said_in,
    ApiError, ApiResult, ErrorModel, PartModel,
};
use crate::sending::{Action, Happened, Next, Sending, Stage};
use crate::text::{decimal, trimmed, whitespace};
use crate::text_laws::a_number_is_spelled_in_decimal;
use crate::transport::{
    address, asked_wait_ms, digits_value, framing, has_optional_payload, read_payload, snapshot,
    spelled_number, Cooldown, Delivery, Framing, Method, Payload,
};

verus! {

/// A path is one below the base; a full address is itself.
pub proof fn a_path_leads_below_the_base(base: Seq<char>, path: Seq<char>)
    ensures
        path.len() >= 4 && path.take(4) == seq!['h', 't', 't', 'p'] ==> address(base, path) == path,
        path.len() < 4 || path.take(4) != seq!['h', 't', 't', 'p'] ==> address(base, path) == base
            + path,
{
    reveal_strlit("http");
    assert("http"@ =~= seq!['h', 't', 't', 'p']);
}

/// A picture travels as one, any other body as JSON, and a write without a body says
/// that it has none.
pub proof fn a_body_travels_as_what_it_is(method: Method)
    ensures
        framing(method, true, true) == Framing::Jpeg,
        framing(method, false, true) == Framing::Json,
        framing(Method::Get, false, false) == Framing::Bare,
        method != Method::Get ==> framing(method, false, false) == Framing::EmptyLength,
{
}

proof fn digits_are_read_back(value: nat)
    ensures
        digits_value(decimal(value)) == Some(value),
        decimal(value).len() > 0,
        '0' <= decimal(value)[0] <= '9',
    decreases value,
{
    let (tens, last) = (value / 10, value % 10);
    a_number_is_spelled_in_decimal(tens, last);
    if value < 10 {
        let text = decimal(value);
        assert(text.drop_last() =~= Seq::<char>::empty());
        assert(digits_value(text.drop_last()) == Some(0nat));
    } else {
        digits_are_read_back(tens);
        let text = decimal(value);
        assert(text.drop_last() =~= decimal(tens));
        assert(text[0] == decimal(tens)[0]);
    }
}

/// A number that is spelled out is read as that number, behind a plus sign as well,
/// unless it is too large to be held. What holds anything else is no number.
pub proof fn a_number_is_read_as_it_is_spelled(value: nat, text: Seq<char>, at: int)
    ensures
        value <= u64::MAX ==> spelled_number(decimal(value)) == Some(value as u64),
        value <= u64::MAX ==> spelled_number(seq!['+'] + decimal(value)) == Some(value as u64),
        value > u64::MAX ==> spelled_number(decimal(value)) is None,
        0 < at < text.len() && !('0' <= text[at] <= '9') ==> spelled_number(text) is None,
        text.len() == 0 ==> spelled_number(text) is None,
{
    digits_are_read_back(value);
    let signed = seq!['+'] + decimal(value);
    assert(signed.drop_first() =~= decimal(value));
    if 0 < at < text.len() && !('0' <= text[at] <= '9') {
        other_characters_spell_no_number(text, at);
        assert(text.drop_first()[at - 1] == text[at]);
        other_characters_spell_no_number(text.drop_first(), at - 1);
    }
}

proof fn other_characters_spell_no_number(text: Seq<char>, at: int)
    requires
        0 <= at < text.len(),
        !('0' <= text[at] <= '9'),
    ensures
        digits_value(text) is None,
    decreases text.len(),
{
    if at < text.len() - 1 {
        other_characters_spell_no_number(text.drop_last(), at);
    }
}

/// A request that has a place and need not wait gets its token and is sent with it;
/// a success brings its body, and the body is the answer.
pub proof fn a_request_gets_its_answer(
    sending: Sending,
    cooldown: Cooldown,
    token: String,
    body: String,
    status: u16,
    retry_after: Option<String>,
    error: ApiError,
    now_ms: u64,
)
    ensures
        sending.stage is Place && cooldown.until_ms < now_ms ==> (sending.turn(
            cooldown,
            Happened::Entered,
            now_ms,
        ) matches Some(turn) && turn.stage == Stage::Token && turn.next == Next::Do(
            Action::GetToken,
        ) && turn.cooldown == cooldown && turn.delivery == sending.delivery),
        sending.stage is Place && cooldown.until_ms >= now_ms ==> (sending.turn(
            cooldown,
            Happened::Entered,
            now_ms,
        ) matches Some(turn) && turn.stage == Stage::Cooldown && turn.next == Next::Do(
            Action::Sleep { ms: (cooldown.until_ms - now_ms) as u128 },
        )),
        sending.stage is Token ==> (sending.turn(cooldown, Happened::Token(Ok(token)), now_ms)
            matches Some(turn) && turn.stage == Stage::Answer && turn.next == Next::Do(
            Action::Send { token },
        )),
        sending.stage is Token ==> (sending.turn(cooldown, Happened::Token(Err(error)), now_ms)
            matches Some(turn) && turn.next == Next::Do(Action::Finish(Err(error)))),
        sending.stage is Answer && 200 <= status <= 299 ==> (sending.turn(
            cooldown,
            Happened::Answered { status, retry_after },
            now_ms,
        ) matches Some(turn) && turn.stage == (Stage::Body { status }) && turn.next == Next::Do(
            Action::ReadBody,
        ) && turn.cooldown == cooldown),
        sending.stage == (Stage::Body { status }) && 200 <= status <= 299 ==> (sending.turn(
            cooldown,
            Happened::BodyRead(Ok(body)),
            now_ms,
        ) matches Some(turn) && turn.next == Next::Do(Action::Finish(Ok(body)))),
        sending.stage == (Stage::Body { status }) ==> (sending.turn(
            cooldown,
            Happened::BodyRead(Err(error)),
            now_ms,
        ) matches Some(turn) && turn.next == Next::Do(Action::Finish(Err(error)))),
        sending.stage is Answer ==> (sending.turn(cooldown, Happened::Unanswered(error), now_ms)
            matches Some(turn) && turn.next == Next::Do(Action::Finish(Err(error)))),
{
}

/// A token that was refused is thrown away once, and the request is sent again. A read
/// that met a server error pauses and is sent again once. Any other failure, and these
/// at the next sending, are the answer, with its status.
pub proof fn a_request_is_sent_again_when_that_may_help(
    sending: Sending,
    cooldown: Cooldown,
    status: u16,
    retry_after: Option<String>,
    body: String,
    now_ms: u64,
)
    requires
        sending.delivery.attempt < u32::MAX,
    ensures
        sending.stage is Answer && status != 429 ==> (sending.turn(
            cooldown,
            Happened::Answered { status, retry_after },
            now_ms,
        ) matches Some(turn) && turn.cooldown == cooldown && turn.next == Next::Do(
            if status == 401 && sending.delivery.attempt == 1 {
                Action::DropToken
            } else if 500 <= status <= 599 && sending.delivery.method == Method::Get
                && sending.delivery.attempt == 1 {
                Action::Pause { ms: 800 }
            } else {
                Action::ReadBody
            },
        )),
        sending.stage is NoToken ==> (sending.turn(cooldown, Happened::TokenDropped, now_ms)
            matches Some(turn) && turn.stage == Stage::Place && turn.next == Next::Do(Action::Enter)
            && turn.delivery.attempt == sending.delivery.attempt + 1),
        sending.stage is Pause ==> (sending.turn(cooldown, Happened::Slept, now_ms) matches Some(
            turn,
        ) && turn.stage == Stage::Place && turn.next == Next::Do(Action::Enter)
            && turn.delivery.attempt == sending.delivery.attempt + 1),
        sending.stage == (Stage::Body { status }) && !(200 <= status <= 299) ==> (sending.turn(
            cooldown,
            Happened::BodyRead(Ok(body)),
            now_ms,
        ) matches Some(turn) && turn.stage == Stage::Ended && (turn.next matches Next::Refuse {
            status: told,
            text,
        } && told == status && text == failure_text(said_in(body@), canonical_reason_of(status)))),
        sending.stage is Answer ==> (sending.turn(
            cooldown,
            Happened::Answered { status: 429, retry_after },
            now_ms,
        ) matches Some(turn) && turn.stage == (Stage::Limit { retry_after }) && turn.next
            == Next::Do(Action::ReadLimit)),
        sending.stage == (Stage::Limit { retry_after }) ==> sending.turn(
            cooldown,
            Happened::LimitRead(body),
            now_ms,
        ) == Some(
            sending.limited(
                cooldown,
                quota_in(body@),
                match retry_after {
                    Some(text) => Some(text@),
                    None => None,
                },
                now_ms,
            ),
        ),
{
}

/// How long a limit holds the session back: as many seconds as Spotify asks for, one
/// when it does not say, and for anything but a song for the queue half a minute at
/// most. A limit is waited out three times, for a song for the queue always; then the
/// request is given up, and the others still wait.
pub proof fn a_limit_is_waited_out(
    delivery: Delivery,
    seconds: u64,
    sending: Sending,
    cooldown: Cooldown,
    now_ms: u64,
)
    requires
        now_ms + seconds * 1000 <= u64::MAX,
    ensures
        asked_wait_ms(Some(decimal(seconds as nat))) == seconds * 1000,
        asked_wait_ms(None) == 1000,
        delivery.queue_write || seconds <= 30 ==> delivery.wait_ms(Some(decimal(seconds as nat)))
            == seconds * 1000,
        !delivery.queue_write && seconds > 30 ==> delivery.wait_ms(Some(decimal(seconds as nat)))
            == 30_000,
        ({
            let turn = sending.limited(cooldown, false, Some(decimal(seconds as nat)), now_ms);
            let wait: int = if sending.delivery.queue_write || seconds <= 30 {
                seconds * 1000
            } else {
                30_000
            };
            &&& turn.cooldown.until_ms == if cooldown.until_ms >= now_ms + wait {
                cooldown.until_ms as int
            } else {
                now_ms + wait
            }
            &&& sending.delivery.queue_write || sending.delivery.attempt <= 3 ==> turn.stage
                == Stage::Place && turn.next == Next::Do(Action::Enter)
            &&& !sending.delivery.queue_write && sending.delivery.attempt > 3 ==> turn.stage
                == Stage::Ended && turn.next == Next::Do(
                Action::Finish(Err(ApiError::RateLimited)),
            )
        }),
        ({
            let turn = sending.limited(cooldown, true, Some(decimal(seconds as nat)), now_ms);
            turn.next == Next::Do(Action::Finish(Err(ApiError::QuotaExhausted))) && turn.cooldown
                == cooldown
        }),
{
    a_number_is_read_as_it_is_spelled(seconds as nat, Seq::empty(), 0);
}

/// Only a song that is appended to the queue is waited for without end.
pub proof fn only_the_queue_is_waited_for(method: Method, path: Seq<char>)
    ensures
        Delivery::starting(method, path).queue_write == (method == Method::Post && path
            == "/me/player/queue"@),
        Delivery::starting(method, path).method == method,
        Delivery::starting(method, path).attempt == 0,
{
}

/// What failed is told in Spotify's words where there are any, else by the name of the
/// status, else plainly.
pub proof fn a_failure_is_told_in_the_best_words(said: Seq<char>, phrase: Seq<char>)
    ensures
        said.len() > 0 ==> failure_text(Some(said), Some(phrase)) == said && failure_text(
            Some(said),
            None,
        ) == said,
        failure_text(None, Some(phrase)) == phrase,
        failure_text(Some(Seq::empty()), Some(phrase)) == phrase,
        failure_text(None, None) == "request failed"@,
{
}

/// A body says that the quota is used up by its reason alone, and says nothing when one
/// of its parts is not what it should be.
pub proof fn a_quota_is_named_by_its_reason(
    message: Seq<char>,
    reason: Seq<char>,
    body: Seq<char>,
)
    ensures
        quota_in(body) == (error_body(
            json_part_at(body, "/error/message"@),
            json_part_at(body, "/error/reason"@),
        ) matches Some(said) && said.reason == Some("QUOTA_EXCEEDED"@)),
        said_in(body) == (match error_body(
            json_part_at(body, "/error/message"@),
            json_part_at(body, "/error/reason"@),
        ) {
            Some(said) => Some(said.message),
            None => None,
        }),
        names_quota(Some(reason)) == (reason == "QUOTA_EXCEEDED"@),
        !names_quota(None),
        error_body(PartModel::Text(message), PartModel::Text(reason)) == Some(
            ErrorModel { message, reason: Some(reason) },
        ),
        error_body(PartModel::Missing, PartModel::Text(reason)) == Some(
            ErrorModel { message: Seq::empty(), reason: Some(reason) },
        ),
        error_body(PartModel::Text(message), PartModel::Missing) == Some(
            ErrorModel { message, reason: None },
        ),
        error_body(PartModel::Text(message), PartModel::Null) == Some(
            ErrorModel { message, reason: None },
        ),
        error_body(PartModel::Other, PartModel::Text(reason)) is None,
        error_body(PartModel::Null, PartModel::Text(reason)) is None,
        error_body(PartModel::Text(message), PartModel::Other) is None,
{
}

/// A grant that counts gives its token while that is fresh; one that ages or was refused
/// is renewed. What a renewal brings is used, held, and stored once the account is known.
/// While the old token has not run out, it is used when no new one is to be had.
pub proof fn a_grant_gives_its_token(
    tokens: WebTokens,
    ledger: Ledger,
    updated: StoredToken,
    detail: String,
    force: bool,
    expired: bool,
)
    requires
        (match tokens.lease.slot {
            Slot::Shared => tokens.lease.epoch == ledger.shared,
            Slot::Personal => tokens.lease.epoch == ledger.personal,
            Slot::Playback => tokens.lease.epoch == ledger.playback,
            Slot::Proxy => tokens.lease.epoch == ledger.proxy,
        }),
    ensures
        tokens.token_step(ledger, false, false) == TokenStep::UseHeld,
        tokens.token_step(ledger, true, false) == TokenStep::Refresh,
        tokens.token_step(ledger, false, true) == TokenStep::Refresh,
        ({
            let outcome = Refresh::Renewed(updated);
            &&& tokens.answer_after(ledger, outcome, force, expired) == ApiResult::<String>::Ok(
                updated.access_token,
            )
            &&& tokens.held_after(ledger, outcome) == updated
            &&& tokens.remember ==> tokens.store_after(ledger, outcome) == Some(updated)
            &&& !tokens.remember ==> tokens.store_after(ledger, outcome) is None
        }),
        tokens.answer_after(ledger, Refresh::Unreachable(detail), false, false) == ApiResult::<
            String,
        >::Ok(tokens.token.access_token),
        force || expired ==> tokens.answer_after(
            ledger,
            Refresh::Unreachable(detail),
            force,
            expired,
        ) == ApiResult::<String>::Err(ApiError::Network(detail)),
        tokens.answer_after(ledger, Refresh::Rejected, force, expired) == ApiResult::<String>::Err(
            ApiError::SignInExpired { api_source: tokens.source },
        ),
        tokens.answer_after(ledger, Refresh::Unusable, force, expired) == ApiResult::<String>::Ok(
            tokens.token.access_token,
        ),
        tokens.answer_after(ledger, Refresh::NoClient(detail), force, expired) == ApiResult::<
            String,
        >::Err(ApiError::Network(detail)),
        tokens.held_after(ledger, Refresh::Rejected) == tokens.token,
        tokens.store_after(ledger, Refresh::Rejected) is None,
{
}

/// A lease counts exactly while its slot was not withdrawn since, and withdrawing one
/// slot leaves the others alone.
pub proof fn a_lease_counts_until_it_is_withdrawn(ledger: Ledger, slot: Slot, lease: Lease)
    requires
        ledger.shared < u64::MAX,
        ledger.personal < u64::MAX,
        ledger.playback < u64::MAX,
        ledger.proxy < u64::MAX,
    ensures
        ledger.holds(ledger.lease_of(slot)),
        ledger.lease_of(slot).slot == slot,
        !ledger.invalidated(slot).holds(ledger.lease_of(slot)),
        lease.slot != slot ==> ledger.invalidated(slot).holds(lease) == ledger.holds(lease),
        ledger.holds(lease) ==> lease == ledger.lease_of(lease.slot),
        slot != Slot::Proxy ==> !ledger.without_spotify().holds(ledger.lease_of(slot)),
        ledger.without_spotify().holds(ledger.lease_of(Slot::Proxy)),
{
}

/// A permission is found between blanks, at the beginning and at the end, and never as a
/// part of another one.
pub proof fn a_permission_is_a_whole_word(
    before: Seq<char>,
    word: Seq<char>,
    after: Seq<char>,
    text: Seq<char>,
)
    requires
        before.len() > 0 ==> whitespace(before.last()),
        after.len() > 0 ==> whitespace(after.first()),
    ensures
        has_word(before + word + after, word),
        has_word(text, word) ==> exists|left: Seq<char>, right: Seq<char>|
            text == #[trigger] (left + word + right) && (left.len() > 0 ==> whitespace(left.last()))
                && (right.len() > 0 ==> whitespace(right.first())),
        whitespace(' '),
        word.len() > 0 && (forall|i: int| 0 <= i < word.len() ==> !whitespace(#[trigger] word[i]))
            ==> !has_word(Seq::empty(), word),
{
    let whole = before + word + after;
    let at = before.len() as int;
    assert(whole.subrange(at, at + word.len()) =~= word);
    if at > 0 {
        assert(whole[at - 1] == before.last());
    }
    if after.len() > 0 {
        assert(whole[at + word.len()] == after.first());
    }
    if has_word(text, word) {
        let k = choose|k: int|
            0 <= k <= text.len() - word.len() && #[trigger] text.subrange(k, k + word.len()) == word
                && (k == 0 || whitespace(text[k - 1])) && (k + word.len() == text.len()
                || whitespace(text[k + word.len()]));
        let (left, right) = (text.take(k), text.skip(k + word.len()));
        assert(text =~= left + word + right);
        assert(left.len() > 0 ==> left.last() == text[k - 1]);
        assert(right.len() > 0 ==> right.first() == text[k + word.len()]);
    }
}

/// The body of a success is the answer; any other status is an error with that status.
pub proof fn a_body_is_the_answer_of_a_success(
    delivery: Delivery,
    status: u16,
    body: String,
    r: ApiResult<String>,
)
    requires
        call_ensures(Delivery::on_body, (&delivery, status, body), r),
    ensures
        200 <= status <= 299 ==> r == ApiResult::<String>::Ok(body),
        !(200 <= status <= 299) ==> (r matches Err(ApiError::Status { status: told, message })
            && told == status && message@ == failure_text(
            said_in(body@),
            canonical_reason_of(status),
        )),
{
}

/// A body of blanks stands for nothing, and so does a `null` where nothing may be said. The
/// snapshot that an edit left is the one that its answer names.
pub proof fn an_empty_body_says_nothing(
    body: &str,
    payload: Payload,
    says: bool,
    left: Option<String>,
)
    requires
        call_ensures(read_payload, (body,), payload),
        call_ensures(has_optional_payload, (body,), says),
        call_ensures(snapshot, (body,), left),
    ensures
        (forall|i: int| 0 <= i < body@.len() ==> whitespace(#[trigger] body@[i])) ==> payload
            == Payload::Null && !says,
        (exists|i: int| 0 <= i < body@.len() && !whitespace(#[trigger] body@[i])) ==> payload
            == Payload::Json && says == (trimmed(body@) != "null"@),
        left matches Some(text) ==> json_part_at(body@, "/snapshot_id"@) == PartModel::Text(text@),
        json_part_at(body@, "/snapshot_id"@) is Text ==> left is Some,
{
}

} // verus!
