//! What requests, logins, texts and errors come down to, said in plain values.

use crate::api_client::{
    addressed, filled, login_error, login_status, login_token, login_verdict, odds_request,
    orders_by, plain_book_request, refused, runners_request, RestClient,
};
use crate::decimal::{decimal_of, zero};
use crate::dto::rpc::{ApiError, InteractiveLoginResponse};
use crate::dto::{
    market, streaming, ListCurrentOrdersRequest, ListMarketBookRequest, ListMarketCatalogueRequest,
    MarketProjection, PriceData,
};
use crate::error::{api_error_form, ClientError};
use crate::text::{
    debug_form, digits, quoted, quoted_list, signed_digits, text_of, texts, trimmed,
};
use crate::transport::{
    credentials, form_pairs, header_pairs, header_refused, header_text_ok,
    interactive_header_pairs, login_header_pairs, rpc_header_pairs, success_code, FormField,
    Header, RpcCall, ACCOUNT_URL, BETTING_URL, INTERACTIVE_LOGIN_URL, LOGIN_URL,
};
use vstd::prelude::*;

verus! {

// ---------------------------------------------------------------------------------------------
// Texts
// ---------------------------------------------------------------------------------------------

/// The number that a text of decimal digits stands for.
pub open spec fn number_read(text: Seq<char>) -> int
    decreases text.len(),
{
    if text.len() == 0 {
        0
    } else {
        10 * number_read(text.drop_last()) + (text.last() as int - '0' as int)
    }
}

/// A number that is written in decimal reads back as itself. It is written in digits alone, and
/// only zero begins with a zero.
pub proof fn law_decimal_reads_back(number: nat)
    ensures
        number_read(digits(number)) == number,
        digits(number).len() > 0,
        forall|i: int|
            0 <= i < digits(number).len() ==> '0' as int <= #[trigger] digits(number)[i] as int
                <= '9' as int,
        number > 0 ==> digits(number)[0] != '0',
        digits(0) == seq!['0'],
    decreases number,
{
    reveal_with_fuel(number_read, 2);
    if number < 10 {
        assert(digits(number).drop_last() =~= Seq::empty());
        assert(digits(number).last() as int == 48 + number);
    } else {
        law_decimal_reads_back(number / 10);
        assert(digits(number).drop_last() =~= digits(number / 10));
        assert(digits(number).last() as int == 48 + number % 10);
        assert(digits(number)[0] == digits(number / 10)[0]);
        assert forall|i: int| 0 <= i < digits(number).len() implies '0' as int
            <= #[trigger] digits(number)[i] as int <= '9' as int by {
            if i < digits(number / 10).len() {
                assert(digits(number)[i] == digits(number / 10)[i]);
            }
        }
    }
    assert(digits(0) =~= seq!['0']);
}

/// A negative number is a minus sign and its magnitude; any other is written as without a sign.
pub proof fn law_signed_decimal(number: int)
    ensures
        number < 0 ==> signed_digits(number).len() > 1 && signed_digits(number)[0] == '-'
            && number_read(signed_digits(number).skip(1)) == -number,
        number >= 0 ==> number_read(signed_digits(number)) == number && signed_digits(number)[0]
            != '-',
{
    reveal_strlit("-");
    if number < 0 {
        law_decimal_reads_back((-number) as nat);
        assert(signed_digits(number).skip(1) =~= digits((-number) as nat));
    } else {
        law_decimal_reads_back(number as nat);
        assert('0' as int <= digits(number as nat)[0] as int);
    }
}

/// A quoted text is the text between two quotes.
pub proof fn law_quotes_enclose(text: Seq<char>)
    ensures
        quoted(text) == seq!['"'] + text + seq!['"'],
{
    reveal_strlit("\"");
    assert(quoted(text) =~= seq!['"'] + text + seq!['"']);
}

/// A quoted list names every item, in order: one more item adds a comma and that item in quotes,
/// whatever the list before, and takes nothing away.
pub proof fn law_quoted_list_names_all(items: Seq<Seq<char>>, item: Seq<char>)
    ensures
        quoted_list(Seq::empty()) == Seq::<char>::empty(),
        quoted_list(seq![item]) == seq!['"'] + item + seq!['"'],
        items.len() > 0 ==> quoted_list(items.push(item)) == quoted_list(items) + seq![',', '"']
            + item + seq!['"'],
{
    law_quotes_enclose(item);
    reveal_strlit(",");
    assert(seq![item][0] == item);
    if items.len() > 0 {
        assert(items.push(item).drop_last() =~= items);
        assert(items.push(item).last() == item);
        assert(quoted_list(items.push(item)) =~= quoted_list(items) + seq![',', '"'] + item
            + seq!['"']);
    }
}

/// Every item of a quoted list stands in it between quotes.
pub proof fn law_quoted_list_holds_each(items: Seq<Seq<char>>, i: int)
    requires
        0 <= i < items.len(),
    ensures
        exists|start: int|
            0 <= start && start + items[i].len() + 2 <= quoted_list(items).len() && #[trigger]
                quoted_list(items).subrange(start, start + items[i].len() + 2) == seq!['"']
                + items[i] + seq!['"'],
    decreases items.len(),
{
    let whole = quoted_list(items);
    let last = items.last();
    law_quotes_enclose(items[i]);
    if items.len() == 1 {
        let start: int = 0;
        assert(whole.subrange(start, start + items[i].len() + 2) =~= seq!['"'] + items[i]
            + seq!['"']);
    } else {
        let front = items.drop_last();
        law_quoted_list_names_all(front, last);
        assert(front.push(last) =~= items);
        if i < front.len() {
            law_quoted_list_holds_each(front, i);
            let start = choose|start: int|
                0 <= start && start + front[i].len() + 2 <= quoted_list(front).len() && #[trigger]
                    quoted_list(front).subrange(start, start + front[i].len() + 2) == seq!['"']
                    + front[i] + seq!['"'];
            assert(whole.subrange(start, start + items[i].len() + 2) =~= quoted_list(
                front,
            ).subrange(start, start + front[i].len() + 2));
        } else {
            let start = (quoted_list(front).len() + 1) as int;
            assert(whole.subrange(start, start + items[i].len() + 2) =~= seq!['"'] + items[i]
                + seq!['"']);
        }
    }
}

/// The texts of strings are those of each string, in place.
pub proof fn law_texts_in_place(items: Seq<String>, item: Option<String>)
    ensures
        texts(items).len() == items.len(),
        forall|i: int| 0 <= i < items.len() ==> #[trigger] texts(items)[i] == items[i]@,
        text_of(item) is Some <==> item is Some,
        item matches Some(text) ==> text_of(item) == Some(text@),
{
}

/// What is left of a trimmed text stands in it as it is, and neither begins nor ends with a blank,
/// a tab or a line break; a text that neither begins nor ends with whitespace is left whole.
pub proof fn law_trimmed_ends(text: Seq<char>, rest: Seq<char>)
    requires
        trimmed(text, rest),
    ensures
        rest.len() <= text.len(),
        exists|start: int|
            0 <= start <= text.len() - rest.len() && #[trigger] text.subrange(
                start,
                start + rest.len(),
            ) == rest,
        rest.len() > 0 ==> rest[0] != ' ' && rest[0] != '\t' && rest[0] != '\r' && rest[0] != '\n',
        rest.len() > 0 ==> rest.last() != ' ' && rest.last() != '\t' && rest.last() != '\r'
            && rest.last() != '\n',
        text.len() > 0 && '!' as int <= text[0] as int <= '~' as int && '!' as int
            <= text.last() as int <= '~' as int ==> rest == text,
{
    let (start, end) = choose|start: int, end: int|
        #[trigger] crate::text::trimmed_at(text, rest, start, end);
    assert(text.subrange(start, start + rest.len()) =~= rest);
    if text.len() > 0 && '!' as int <= text[0] as int <= '~' as int && '!' as int
        <= text.last() as int <= '~' as int {
        assert(start == 0 || crate::text::white_space(text[0]));
        assert(end == text.len() || crate::text::white_space(text[text.len() - 1]));
        assert(rest =~= text);
    }
}

// ---------------------------------------------------------------------------------------------
// What is sent
// ---------------------------------------------------------------------------------------------

/// Where logins and calls go.
pub proof fn law_addresses()
    ensures
        LOGIN_URL@ == "https://identitysso-cert.betfair.com/api/certlogin"@,
        INTERACTIVE_LOGIN_URL@ == "https://identitysso.betfair.com/api/login"@,
        BETTING_URL@ == "https://api.betfair.com/exchange/betting/json-rpc/v1"@,
        ACCOUNT_URL@ == "https://api.betfair.com/exchange/account/json-rpc/v1"@,
{
}

/// A header value may hold a tab and what can be printed, and neither a line break nor any other
/// character below the blank.
pub proof fn law_header_values(text: Seq<char>, i: int)
    requires
        0 <= i < text.len(),
    ensures
        header_text_ok(text) ==> text[i] != '\n' && text[i] != '\r' && text[i] as u32 != 127 && (
        text[i] as u32 >= 32 || text[i] == '\t'),
        (forall|j: int| 0 <= j < text.len() ==> 32 <= #[trigger] text[j] as u32 && text[j] as u32
            != 127) ==> header_text_ok(text),
        header_text_ok(Seq::empty()),
{
}

/// Headers and form fields are told apart by their names and values, in place.
pub proof fn law_pairs_in_place(headers: Seq<Header>, fields: Seq<FormField>)
    ensures
        header_pairs(headers).len() == headers.len(),
        forall|i: int|
            0 <= i < headers.len() ==> #[trigger] header_pairs(headers)[i] == (
                headers[i].name@,
                headers[i].value@,
            ),
        form_pairs(fields).len() == fields.len(),
        forall|i: int|
            0 <= i < fields.len() ==> #[trigger] form_pairs(fields)[i] == (
                fields[i].name@,
                fields[i].value@,
            ),
{
}

/// A login sends the name and the password, each under its own name, and nothing else.
pub proof fn law_login_form(username: Seq<char>, password: Seq<char>)
    ensures
        credentials(username, password).len() == 2,
        credentials(username, password)[0] == ("username"@, username),
        credentials(username, password)[1] == ("password"@, password),
{
}

/// A certificate login goes out under the key, as a form, and under a tag that ends in the number
/// that was drawn.
pub proof fn law_certificate_login_headers(api_key: Seq<char>, number: nat)
    ensures
        ({
            let headers = login_header_pairs(api_key, number);
            let tag = headers[2].1;
            &&& headers.len() == 3
            &&& headers[0] == ("X-Application"@, api_key)
            &&& headers[1] == ("Content-Type"@, "application/x-www-form-urlencoded"@)
            &&& headers[2].0 == "X-Application"@
            &&& tag.len() > 4
            &&& tag.take(4) == seq!['a', 'p', 'p', '_']
            &&& number_read(tag.skip(4)) == number
        }),
{
    reveal_strlit("app_");
    law_decimal_reads_back(number);
    let tag = login_header_pairs(api_key, number)[2].1;
    assert(tag.take(4) =~= seq!['a', 'p', 'p', '_']);
    assert(tag.skip(4) =~= digits(number));
}

/// An interactive login goes out under the key, as a form, and asks for JSON.
pub proof fn law_interactive_login_headers(api_key: Seq<char>)
    ensures
        interactive_header_pairs(api_key).len() == 3,
        interactive_header_pairs(api_key)[0] == ("X-Application"@, api_key),
        interactive_header_pairs(api_key)[1] == (
            "Content-Type"@,
            "application/x-www-form-urlencoded"@,
        ),
        interactive_header_pairs(api_key)[2] == ("Accept"@, "application/json"@),
{
}

/// A call goes out under the key and the session token, as JSON.
pub proof fn law_call_headers(api_key: Seq<char>, session_token: Seq<char>)
    ensures
        rpc_header_pairs(api_key, session_token).len() == 3,
        rpc_header_pairs(api_key, session_token)[0] == ("X-Application"@, api_key),
        rpc_header_pairs(api_key, session_token)[1] == ("X-Authentication"@, session_token),
        rpc_header_pairs(api_key, session_token)[2] == ("Content-Type"@, "application/json"@),
{
}

/// A call is refused without a session, and only then. With one, it goes to the address and names
/// the method that it was made for, under the key and the token of the client.
pub proof fn law_calls_are_addressed<T>(
    client: RestClient,
    url: Seq<char>,
    method: Seq<char>,
    call: Result<RpcCall<T>, ClientError>,
)
    requires
        addressed(client, url, method, call),
    ensures
        call is Ok <==> client.session_token is Some,
        call matches Err(error) ==> error is NotLoggedIn,
        call matches Ok(call) ==> {
            &&& call.url@ == url
            &&& call.api_key@ == client.config.betfair.api_key@
            &&& call.session_token@ == client.session_token->0@
            &&& call.body.jsonrpc@ == "2.0"@
            &&& call.body.method@ == method
            &&& call.body.id == 1
        },
{
}

/// Setting a token changes the token alone.
pub proof fn law_setting_a_token(client: RestClient, token: String)
    ensures
        client.with_token(token).session_token == Some(token),
        client.with_token(token).config == client.config,
{
}

/// A status code tells of success from 200 to 299, and only there.
pub proof fn law_success_codes(code: u16)
    ensures
        success_code(code) <==> 200 <= code <= 299,
{
}

/// The filter that lets every market pass restricts nothing: none of its fields is there.
pub proof fn law_no_filter_restricts_nothing()
    ensures
        ({
            let filter = market::MarketFilter::unrestricted();
            &&& filter.text_query is None
            &&& filter.exchange_ids is None
            &&& filter.event_type_ids is None
            &&& filter.event_ids is None
            &&& filter.competition_ids is None
            &&& filter.market_ids is None
            &&& filter.venues is None
            &&& filter.bsp_only is None
            &&& filter.turn_in_play_enabled is None
            &&& filter.in_play_only is None
            &&& filter.market_betting_types is None
            &&& filter.market_countries is None
            &&& filter.market_type_codes is None
            &&& filter.market_start_time is None
            &&& filter.with_orders is None
        }),
        ({
            let filter = streaming::MarketFilter::unrestricted();
            &&& filter.market_ids is None
            &&& filter.bsp_market is None
            &&& filter.betting_types is None
            &&& filter.event_type_ids is None
            &&& filter.event_ids is None
            &&& filter.competition_ids is None
            &&& filter.turn_in_play_enabled is None
            &&& filter.market_types is None
            &&& filter.venues is None
            &&& filter.country_codes is None
            &&& filter.race_types is None
        }),
{
}

/// The zero of prices and sizes is nought without decimals.
pub proof fn law_zero_is_nought()
    ensures
        zero() == decimal_of(0, 0),
{
}

/// A request for orders by bets or markets carries those lists and nothing else.
pub proof fn law_orders_by_lists(
    request: ListCurrentOrdersRequest,
    bet_ids: Option<Vec<String>>,
    market_ids: Option<Vec<String>>,
)
    requires
        orders_by(request, bet_ids, market_ids),
    ensures
        request.bet_ids == bet_ids,
        request.market_ids == market_ids,
        request.order_projection is None,
        request.customer_order_refs is None,
        request.customer_strategy_refs is None,
        request.date_range is None,
        request.order_by is None,
        request.sort_dir is None,
        request.from_record is None,
        request.record_count is None,
{
}

/// A plain request for market books carries nothing beyond markets and prices.
pub proof fn law_plain_book_request(request: ListMarketBookRequest)
    requires
        plain_book_request(request),
    ensures
        request.order_projection is None,
        request.match_projection is None,
        request.include_overall_position is None,
        request.partition_matched_by_strategy_ref is None,
        request.customer_strategy_refs is None,
        request.currency_code is None,
        request.locale is None,
        request.matched_since is None,
        request.bet_ids is None,
{
}

/// The odds of a market are asked for that market alone, with best, all and traded prices, three
/// levels deep and rolled up by stake.
pub proof fn law_odds_request(request: ListMarketBookRequest, market_id: String)
    requires
        odds_request(request, market_id),
    ensures
        plain_book_request(request),
        request.market_ids@.len() == 1,
        request.market_ids@[0] == market_id,
        ({
            let projection = request.price_projection->0;
            let data = projection.price_data->0@;
            let overrides = projection.ex_best_offers_overrides->0;
            &&& request.price_projection is Some
            &&& projection.price_data is Some
            &&& data.len() == 3
            &&& data[0] == PriceData::ExBestOffers
            &&& data[1] == PriceData::ExAllOffers
            &&& data[2] == PriceData::ExTraded
            &&& projection.ex_best_offers_overrides is Some
            &&& overrides.best_prices_depth == Some(3i32)
            &&& overrides.rollup_model is Some
            &&& overrides.rollup_model->0@ == "STAKE"@
            &&& overrides.rollup_limit is None
            &&& overrides.rollup_liability_threshold is None
            &&& overrides.rollup_liability_factor is None
            &&& projection.virtualise == Some(true)
            &&& projection.rollover_stakes == Some(false)
        }),
{
}

/// The runners of a market are asked for by that market alone, with their names and metadata, the
/// event and the description, one result in English.
pub proof fn law_runners_request(request: ListMarketCatalogueRequest, market_id: Seq<char>)
    requires
        runners_request(request, market_id),
    ensures
        request.filter.market_ids is Some,
        request.filter.market_ids->0@.len() == 1,
        request.filter.market_ids->0@[0]@ == market_id,
        request.filter.text_query is None,
        request.filter.exchange_ids is None,
        request.filter.event_type_ids is None,
        request.filter.event_ids is None,
        request.filter.competition_ids is None,
        request.filter.venues is None,
        request.filter.bsp_only is None,
        request.filter.turn_in_play_enabled is None,
        request.filter.in_play_only is None,
        request.filter.market_betting_types is None,
        request.filter.market_countries is None,
        request.filter.market_type_codes is None,
        request.filter.market_start_time is None,
        request.filter.with_orders is None,
        request.market_projection is Some,
        request.market_projection->0@.len() == 4,
        request.market_projection->0@[0] == MarketProjection::RunnerDescription,
        request.market_projection->0@[1] == MarketProjection::RunnerMetadata,
        request.market_projection->0@[2] == MarketProjection::Event,
        request.market_projection->0@[3] == MarketProjection::MarketDescription,
        request.sort is None,
        request.max_results == Some(1i32),
        request.locale is Some,
        request.locale->0@ == "en"@,
{
    let ids = request.filter.market_ids->0@;
    assert(texts(ids).len() == 1);
    assert(texts(ids)[0] == ids[0]@);
}

// ---------------------------------------------------------------------------------------------
// Logins
// ---------------------------------------------------------------------------------------------

/// The token of an interactive login is its session token, or where that is missing or empty its
/// other token, or where that is too nothing. No other field counts.
pub proof fn law_login_token(response: InteractiveLoginResponse, text: String)
    ensures
        filled(Some(text)) <==> text@.len() > 0,
        !filled(None),
        response.session_token == Some(text) && text@.len() > 0 ==> login_token(response) == text@,
        (response.session_token is None || response.session_token->0@.len() == 0)
            && response.token == Some(text) ==> login_token(response) == text@,
        (response.session_token is None || response.session_token->0@.len() == 0)
            && response.token is None ==> login_token(response).len() == 0,
{
    assert(text@.len() == 0 ==> text@ =~= Seq::empty());
}

/// The status of an interactive login is the first of its three status fields that is there and
/// not empty, or nothing. No other field counts.
pub proof fn law_login_status(response: InteractiveLoginResponse, text: String)
    requires
        text@.len() > 0,
    ensures
        response.login_status == Some(text) ==> login_status(response) == text@,
        (response.login_status is None || response.login_status->0@.len() == 0) && response.status
            == Some(text) ==> login_status(response) == text@,
        (response.login_status is None || response.login_status->0@.len() == 0) && (
        response.status is None || response.status->0@.len() == 0) && response.status_code == Some(
            text,
        ) ==> login_status(response) == text@,
        (response.login_status is None || response.login_status->0@.len() == 0) && (
        response.status is None || response.status->0@.len() == 0) && (
        response.status_code is None || response.status_code->0@.len() == 0) ==> login_status(
            response,
        ).len() == 0,
{
}

/// The reason of a refused login is its error, or where there is none its error details, or where
/// there are none a wording that ends in the status.
pub proof fn law_login_error(
    response: InteractiveLoginResponse,
    text: String,
    status: Seq<char>,
)
    ensures
        response.error == Some(text) ==> login_error(response, status) == text@,
        response.error is None && response.error_details == Some(text) ==> login_error(
            response,
            status,
        ) == text@,
        response.error is None && response.error_details is None ==> login_error(response, status)
            == "Login failed with status: "@ + status,
{
}

/// An interactive login is refused by a status that is there and is not `SUCCESS` in capitals; one
/// that is not refused is accepted if and only if it brings a token, and every error says why.
pub proof fn law_login_verdict(
    response: InteractiveLoginResponse,
    upper_status: Seq<char>,
    verdict: Result<String, ClientError>,
)
    requires
        login_verdict(response, upper_status, verdict),
    ensures
        refused(login_status(response), upper_status) <==> login_status(response).len() > 0
            && upper_status != "SUCCESS"@,
        login_status(response).len() > 0 && upper_status != "SUCCESS"@ ==> (
        verdict matches Err(ClientError::InteractiveRefused { status, reason }) && status@
            == login_status(response) && reason@ == login_error(response, login_status(response))),
        (login_status(response).len() == 0 || upper_status == "SUCCESS"@) && login_token(
            response,
        ).len() == 0 ==> (verdict matches Err(error) && error is MissingToken),
        (login_status(response).len() == 0 || upper_status == "SUCCESS"@) && login_token(
            response,
        ).len() > 0 ==> (verdict matches Ok(token) && token@ == login_token(response)),
{
}

// ---------------------------------------------------------------------------------------------
// Errors
// ---------------------------------------------------------------------------------------------

/// The refusal of a header value is worded as the `http` crate words it.
pub proof fn law_header_refusal(error: ClientError)
    ensures
        header_refused(error) <==> error is InvalidHeader && error.wording()
            == "failed to parse header value"@,
{
}

/// Errors that carry nothing have a fixed wording.
pub proof fn law_fixed_wordings()
    ensures
        ClientError::NotLoggedIn.wording() == "Not logged in"@,
        ClientError::MissingToken.wording()
            == "Interactive login response did not include a session token"@,
        ClientError::StreamingNotInitialized.wording()
            == "Streaming client not initialized. Call login() first."@,
        ClientError::SessionTokenNotSet.wording()
            == "Session token not set. Call set_session_token() first."@,
        ClientError::StreamingNotStarted.wording() == "Streaming client not started"@,
        ClientError::EmptyMarketList.wording() == "Cannot subscribe to empty market list"@,
        ClientError::NoMessageSender.wording() == "Message sender not available"@,
        ClientError::NoReadySignal.wording() == "Failed to receive ready signal"@,
{
}

/// Errors that carry texts show all of them, in order.
pub proof fn law_wordings_show_everything(one: String, other: String, api_error: ApiError)
    ensures
        (ClientError::InvalidHeader { error: one }).wording() == one@,
        (ClientError::PemUnreadable { path: one, error: other }).wording()
            == "Failed to read PEM file "@ + one@ + ": "@ + other@,
        (ClientError::PemInvalid { error: one }).wording() == "Failed to parse PEM identity: "@
            + one@,
        (ClientError::LoginUnreadable { error: one, body: other }).wording()
            == "Failed to deserialize login response: "@ + one@ + "\nResponse body: "@ + other@,
        (ClientError::InteractiveStatus { status: one, body: other }).wording()
            == "Interactive login failed with status "@ + one@ + ": "@ + other@,
        (ClientError::InteractiveRefused { status: one, reason: other }).wording()
            == "Interactive login "@ + one@ + ": "@ + other@,
        (ClientError::ApiStatus { status: one, body: other }).wording()
            == "API request failed with status "@ + one@ + ": "@ + other@,
        (ClientError::NoResult { error: None }).wording() == "No result in response: "@ + "None"@,
        (ClientError::NoResult { error: Some(api_error) }).wording() == "No result in response: "@
            + ("Some(ApiError { code: "@ + debug_form(api_error.code@) + ", message: "@
            + debug_form(api_error.message@) + " })"@),
        api_error_form(None) == "None"@,
        (ClientError::Json { error: one }).wording() == one@,
        (ClientError::Transport { error: one }).wording() == one@,
        (ClientError::CommandNotSent { error: one }).wording()
            == "Failed to send subscription command: "@ + one@,
        (ClientError::ConnectionFailed { error: one }).wording() == "Connection failed: "@ + one@,
{
}

} // verus!
