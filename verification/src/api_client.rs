//! The REST side of a client: logins, and the calls that a session can make.

use crate::config::Config;
use crate::decimal::{decimal_or_zero, decimal_zero, zero};
use crate::dto::rpc::{InteractiveLoginResponse, JsonRpcRequest, LoginResponse};
use crate::dto::{
    CancelInstruction, CancelOrdersRequest, ExBestOffersOverrides, GetAccountDetailsRequest,
    GetAccountFundsRequest, LimitOrder, ListCompetitionsRequest, ListCurrencyRatesRequest,
    ListCurrentOrdersRequest, ListEventTypesRequest, ListEventsRequest, ListMarketBookRequest,
    ListMarketCatalogueRequest, MarketFilter, MarketProjection, MarketSort, OrderType,
    PersistenceType, PlaceInstruction, PlaceOrdersRequest, PriceData, PriceProjectionDto, Side,
    TransferFundsRequest,
};
use crate::error::ClientError;
use crate::text::{copied_text, same_text, text_of, texts, uppercase};
use crate::transport::{
    ApiRequest, InteractiveLoginCall, LoginCall, RateClass, RpcCall, ACCOUNT_URL, BETTING_URL,
    INTERACTIVE_LOGIN_URL, LOGIN_URL,
};
use rust_decimal::Decimal;
use vstd::prelude::*;
use vstd::string::StringExecFns;

verus! {

/// A client of the REST interface. It knows what to send and what to make of an answer; sending
/// and receiving are left to the caller.
#[derive(Debug)]
pub struct RestClient {
    pub config: Config,
    pub session_token: Option<String>,
}

/// Whether an optional text is there and not empty.
pub open spec fn filled(text: Option<String>) -> bool {
    text matches Some(text) && text@.len() > 0
}

/// The token of an interactive login: the first of its two token fields that is not empty, and
/// nothing where both are.
pub open spec fn login_token(response: InteractiveLoginResponse) -> Seq<char> {
    if filled(response.session_token) {
        response.session_token->0@
    } else if filled(response.token) {
        response.token->0@
    } else {
        Seq::empty()
    }
}

/// The status of an interactive login: the first of its three status fields that is not empty, and
/// nothing where all are.
pub open spec fn login_status(response: InteractiveLoginResponse) -> Seq<char> {
    if filled(response.login_status) {
        response.login_status->0@
    } else if filled(response.status) {
        response.status->0@
    } else if filled(response.status_code) {
        response.status_code->0@
    } else {
        Seq::empty()
    }
}

/// Why an interactive login was refused: the first of its two error fields that is there, and
/// otherwise the status.
pub open spec fn login_error(response: InteractiveLoginResponse, status: Seq<char>) -> Seq<char> {
    match (response.error, response.error_details) {
        (Some(error), _) => error@,
        (None, Some(error)) => error@,
        (None, None) => "Login failed with status: "@ + status,
    }
}

/// Whether the status of an interactive login, given with its uppercase form, refuses it.
pub open spec fn refused(status: Seq<char>, upper_status: Seq<char>) -> bool {
    status.len() > 0 && upper_status != "SUCCESS"@
}

/// What comes of an interactive login whose status has the given uppercase form: a token, or an
/// error.
pub open spec fn login_verdict(
    response: InteractiveLoginResponse,
    upper_status: Seq<char>,
    verdict: Result<String, ClientError>,
) -> bool {
    let status = login_status(response);
    if refused(status, upper_status) {
        verdict matches Err(ClientError::InteractiveRefused { status: shown, reason }) && shown@
            == status && reason@ == login_error(response, status)
    } else if login_token(response).len() == 0 {
        verdict matches Err(error) && error is MissingToken
    } else {
        verdict matches Ok(token) && token@ == login_token(response)
    }
}

/// Whether `call` is what a client makes of a method behind an address: refused without a
/// session, and otherwise under the client's key and token.
pub open spec fn addressed<T>(
    client: RestClient,
    url: Seq<char>,
    method: Seq<char>,
    call: Result<RpcCall<T>, ClientError>,
) -> bool {
    match client.session_token {
        None => call matches Err(error) && error is NotLoggedIn,
        Some(token) => call matches Ok(call) && call.url@ == url && call.api_key@
            == client.config.betfair.api_key@ && call.session_token@ == token@
            && call.body.jsonrpc@ == "2.0"@ && call.body.method@ == method && call.body.id == 1,
    }
}

/// Whether a request carries nothing but the given list of bets or markets.
pub open spec fn orders_by(
    request: ListCurrentOrdersRequest,
    bet_ids: Option<Vec<String>>,
    market_ids: Option<Vec<String>>,
) -> bool {
    request == (ListCurrentOrdersRequest {
        bet_ids,
        market_ids,
        order_projection: None,
        customer_order_refs: None,
        customer_strategy_refs: None,
        date_range: None,
        order_by: None,
        sort_dir: None,
        from_record: None,
        record_count: None,
    })
}

/// Whether a request for market books restricts nothing but markets and prices.
pub open spec fn plain_book_request(request: ListMarketBookRequest) -> bool {
    &&& request.order_projection is None
    &&& request.match_projection is None
    &&& request.include_overall_position is None
    &&& request.partition_matched_by_strategy_ref is None
    &&& request.customer_strategy_refs is None
    &&& request.currency_code is None
    &&& request.locale is None
    &&& request.matched_since is None
    &&& request.bet_ids is None
}

/// Whether a request asks for the full price ladder of a market.
pub open spec fn odds_request(request: ListMarketBookRequest, market_id: String) -> bool {
    &&& request.market_ids@ == seq![market_id]
    &&& plain_book_request(request)
    &&& request.price_projection matches Some(projection)
    &&& projection.price_data matches Some(data)
    &&& data@ == seq![
        PriceData::ExBestOffers,
        PriceData::ExAllOffers,
        PriceData::ExTraded,
    ]
    &&& projection.ex_best_offers_overrides matches Some(overrides)
    &&& overrides.best_prices_depth == Some(3i32)
    &&& text_of(overrides.rollup_model) == Some("STAKE"@)
    &&& overrides.rollup_limit is None
    &&& overrides.rollup_liability_threshold is None
    &&& overrides.rollup_liability_factor is None
    &&& projection.virtualise == Some(true)
    &&& projection.rollover_stakes == Some(false)
}

/// Whether a request asks for the runners of a market.
pub open spec fn runners_request(
    request: ListMarketCatalogueRequest,
    market_id: Seq<char>,
) -> bool {
    &&& request.filter.market_ids matches Some(market_ids)
    &&& texts(market_ids@) == seq![market_id]
    &&& request.filter == (MarketFilter {
        market_ids: request.filter.market_ids,
        ..MarketFilter::unrestricted()
    })
    &&& request.market_projection matches Some(projection)
    &&& projection@ == seq![
        MarketProjection::RunnerDescription,
        MarketProjection::RunnerMetadata,
        MarketProjection::Event,
        MarketProjection::MarketDescription,
    ]
    &&& request.sort is None
    &&& request.max_results == Some(1i32)
    &&& text_of(request.locale) == Some("en"@)
}

impl RestClient {
    /// The client with another session token.
    pub open spec fn with_token(self, token: String) -> RestClient {
        RestClient { session_token: Some(token), ..self }
    }

    /// Makes a client that is not logged in.
    pub fn new(config: Config) -> (client: Self)
        ensures
            client.config == config,
            client.session_token is None,
    {
        RestClient { config, session_token: None }
    }

    /// What to send for a login with a client certificate.
    pub fn login_request(&self) -> (call: LoginCall)
        ensures
            call.url@ == LOGIN_URL@,
            call.pem_path@ == self.config.betfair.pem_path@,
            call.api_key@ == self.config.betfair.api_key@,
            call.username@ == self.config.betfair.username@,
            call.password@ == self.config.betfair.password@,
    {
        LoginCall {
            url: LOGIN_URL.to_string(),
            pem_path: self.config.betfair.pem_path.clone(),
            api_key: self.config.betfair.api_key.clone(),
            username: self.config.betfair.username.clone(),
            password: self.config.betfair.password.clone(),
        }
    }

    /// Takes the answer to a login with a client certificate. The token is kept where the status
    /// is exactly `SUCCESS`.
    pub fn login(&mut self, response: &LoginResponse)
        ensures
            final(self).config == old(self).config,
            text_of(final(self).session_token) == (if response.login_status@ == "SUCCESS"@ {
                Some(response.session_token@)
            } else {
                text_of(old(self).session_token)
            }),
            response.login_status@ != "SUCCESS"@ ==> *final(self) == *old(self),
    {
        if same_text(response.login_status.as_str(), "SUCCESS") {
            self.session_token = Some(response.session_token.clone());
        }
    }

    /// What to send for a login by name and password.
    pub fn login_interactive_request(
        &self,
        username: String,
        password: String,
    ) -> (call: InteractiveLoginCall)
        ensures
            call.url@ == INTERACTIVE_LOGIN_URL@,
            call.api_key@ == self.config.betfair.api_key@,
            call.username@ == username@,
            call.password@ == password@,
    {
        InteractiveLoginCall {
            url: INTERACTIVE_LOGIN_URL.to_string(),
            api_key: self.config.betfair.api_key.clone(),
            username,
            password,
        }
    }

    /// Takes the answer to a login by name and password. The token is kept where the status does
    /// not refuse the login and there is a token.
    pub fn login_interactive(
        &mut self,
        response: &InteractiveLoginResponse,
    ) -> (outcome: Result<(), ClientError>)
        ensures
            final(self).config == old(self).config,
            match outcome {
                Ok(_) => final(self).session_token matches Some(token) && login_verdict(
                    *response,
                    uppercase(login_status(*response)),
                    Ok(token),
                ),
                Err(error) => *final(self) == *old(self) && login_verdict(
                    *response,
                    uppercase(login_status(*response)),
                    Err(error),
                ),
            },
    {
        let upper_status = self.get_login_status(response).as_str().to_uppercase();
        match self.judge_login(response, upper_status.as_str()) {
            Ok(token) => {
                self.session_token = Some(token);
                Ok(())
            },
            Err(error) => Err(error),
        }
    }

    /// What comes of an interactive login whose status has the given uppercase form.
    pub fn judge_login(
        &self,
        response: &InteractiveLoginResponse,
        upper_status: &str,
    ) -> (verdict: Result<String, ClientError>)
        ensures
            login_verdict(*response, upper_status@, verdict),
    {
        let token = match self.extract_session_token(response) {
            Ok(token) => token,
            Err(error) => return Err(error),
        };
        let status = self.get_login_status(response);
        if !status.as_str().is_empty() && !same_text(upper_status, "SUCCESS") {
            let reason = self.get_error_message(response, status.as_str());
            return Err(ClientError::InteractiveRefused { status, reason });
        }
        if token.as_str().is_empty() {
            return Err(ClientError::MissingToken);
        }
        Ok(token)
    }

    /// The token of an interactive login, empty where there is none.
    pub fn extract_session_token(
        &self,
        response: &InteractiveLoginResponse,
    ) -> (token: Result<String, ClientError>)
        ensures
            token matches Ok(token) && token@ == login_token(*response),
    {
        if let Some(token) = &response.session_token {
            if !token.as_str().is_empty() {
                return Ok(token.clone());
            }
        }
        if let Some(token) = &response.token {
            if !token.as_str().is_empty() {
                return Ok(token.clone());
            }
        }
        Ok(String::new())
    }

    /// The status of an interactive login, empty where there is none.
    pub fn get_login_status(&self, response: &InteractiveLoginResponse) -> (status: String)
        ensures
            status@ == login_status(*response),
    {
        if let Some(status) = &response.login_status {
            if !status.as_str().is_empty() {
                return status.clone();
            }
        }
        if let Some(status) = &response.status {
            if !status.as_str().is_empty() {
                return status.clone();
            }
        }
        if let Some(status) = &response.status_code {
            if !status.as_str().is_empty() {
                return status.clone();
            }
        }
        String::new()
    }

    /// Why an interactive login with the given status was refused.
    pub fn get_error_message(
        &self,
        response: &InteractiveLoginResponse,
        status: &str,
    ) -> (message: String)
        ensures
            message@ == login_error(*response, status@),
    {
        if let Some(error) = &response.error {
            error.clone()
        } else if let Some(error) = &response.error_details {
            error.clone()
        } else {
            let mut message = "Login failed with status: ".to_string();
            message.append(status);
            message
        }
    }

    /// The current session token.
    pub fn get_session_token(&self) -> (token: Option<String>)
        ensures
            token == self.session_token,
    {
        copied_text(&self.session_token)
    }

    /// Sets the session token, for a session that was opened before.
    pub fn set_session_token(&mut self, token: String)
        ensures
            *final(self) == old(self).with_token(token),
    {
        self.session_token = Some(token);
    }

    /// Puts a call of a method together.
    fn make_json_rpc_request<T>(&self, url: &str, method: &str, params: T) -> (call: Result<
        RpcCall<T>,
        ClientError,
    >)
        ensures
            addressed(*self, url@, method@, call),
            call matches Ok(call) ==> call.body.params == params,
    {
        match &self.session_token {
            None => Err(ClientError::NotLoggedIn),
            Some(token) => Ok(
                RpcCall {
                    url: url.to_string(),
                    api_key: self.config.betfair.api_key.clone(),
                    session_token: token.clone(),
                    body: JsonRpcRequest {
                        jsonrpc: "2.0".to_string(),
                        method: method.to_string(),
                        params,
                        id: 1,
                    },
                },
            ),
        }
    }

    /// Lists the catalogue entries of markets.
    pub fn list_market_catalogue(&self, request: ListMarketCatalogueRequest) -> (api: ApiRequest<
        ListMarketCatalogueRequest,
    >)
        ensures
            api.limits@ == seq![RateClass::Navigation],
            addressed(*self, BETTING_URL@, "SportsAPING/v1.0/listMarketCatalogue"@, api.call),
            api.call matches Ok(call) ==> call.body.params == request,
    {
        ApiRequest {
            limits: vec![RateClass::Navigation],
            call: self.make_json_rpc_request(
                BETTING_URL,
                "SportsAPING/v1.0/listMarketCatalogue",
                request,
            ),
        }
    }

    /// Lists the books of markets.
    pub fn list_market_book(&self, request: ListMarketBookRequest) -> (api: ApiRequest<
        ListMarketBookRequest,
    >)
        ensures
            api.limits@ == seq![RateClass::Navigation],
            addressed(*self, BETTING_URL@, "SportsAPING/v1.0/listMarketBook"@, api.call),
            api.call matches Ok(call) ==> call.body.params == request,
    {
        ApiRequest {
            limits: vec![RateClass::Navigation],
            call: self.make_json_rpc_request(
                BETTING_URL,
                "SportsAPING/v1.0/listMarketBook",
                request,
            ),
        }
    }

    /// Places orders.
    pub fn place_orders(&self, request: PlaceOrdersRequest) -> (api: ApiRequest<PlaceOrdersRequest>)
        ensures
            api.limits@ == seq![RateClass::Transaction],
            addressed(*self, BETTING_URL@, "SportsAPING/v1.0/placeOrders"@, api.call),
            api.call matches Ok(call) ==> call.body.params == request,
    {
        ApiRequest {
            limits: vec![RateClass::Transaction],
            call: self.make_json_rpc_request(BETTING_URL, "SportsAPING/v1.0/placeOrders", request),
        }
    }

    /// Cancels orders.
    pub fn cancel_orders(&self, request: CancelOrdersRequest) -> (api: ApiRequest<
        CancelOrdersRequest,
    >)
        ensures
            api.limits@ == seq![RateClass::Transaction],
            addressed(*self, BETTING_URL@, "SportsAPING/v1.0/cancelOrders"@, api.call),
            api.call matches Ok(call) ==> call.body.params == request,
    {
        ApiRequest {
            limits: vec![RateClass::Transaction],
            call: self.make_json_rpc_request(BETTING_URL, "SportsAPING/v1.0/cancelOrders", request),
        }
    }

    /// Lists the orders that are current.
    pub fn list_current_orders(&self, request: ListCurrentOrdersRequest) -> (api: ApiRequest<
        ListCurrentOrdersRequest,
    >)
        ensures
            api.limits@ == seq![RateClass::Data],
            addressed(*self, BETTING_URL@, "SportsAPING/v1.0/listCurrentOrders"@, api.call),
            api.call matches Ok(call) ==> call.body.params == request,
    {
        ApiRequest {
            limits: vec![RateClass::Data],
            call: self.make_json_rpc_request(
                BETTING_URL,
                "SportsAPING/v1.0/listCurrentOrders",
                request,
            ),
        }
    }

    /// Lists the orders that are settled. What is asked for is up to the caller.
    pub fn list_cleared_orders<T>(&self, request: T) -> (api: ApiRequest<T>)
        ensures
            api.limits@ == seq![RateClass::Data],
            addressed(*self, BETTING_URL@, "SportsAPING/v1.0/listClearedOrders"@, api.call),
            api.call matches Ok(call) ==> call.body.params == request,
    {
        ApiRequest {
            limits: vec![RateClass::Data],
            call: self.make_json_rpc_request(
                BETTING_URL,
                "SportsAPING/v1.0/listClearedOrders",
                request,
            ),
        }
    }

    /// Asks for the funds of the account.
    pub fn get_account_funds(&self, request: GetAccountFundsRequest) -> (api: ApiRequest<
        GetAccountFundsRequest,
    >)
        ensures
            api.limits@ == seq![RateClass::Data],
            addressed(*self, ACCOUNT_URL@, "AccountAPING/v1.0/getAccountFunds"@, api.call),
            api.call matches Ok(call) ==> call.body.params == request,
    {
        ApiRequest {
            limits: vec![RateClass::Data],
            call: self.make_json_rpc_request(
                ACCOUNT_URL,
                "AccountAPING/v1.0/getAccountFunds",
                request,
            ),
        }
    }

    /// Asks for the details of the account.
    pub fn get_account_details(&self) -> (api: ApiRequest<GetAccountDetailsRequest>)
        ensures
            api.limits@ == seq![RateClass::Data],
            addressed(*self, ACCOUNT_URL@, "AccountAPING/v1.0/getAccountDetails"@, api.call),
    {
        ApiRequest {
            limits: vec![RateClass::Data],
            call: self.make_json_rpc_request(
                ACCOUNT_URL,
                "AccountAPING/v1.0/getAccountDetails",
                GetAccountDetailsRequest {  },
            ),
        }
    }

    /// Moves money between wallets.
    pub fn transfer_funds(&self, request: TransferFundsRequest) -> (api: ApiRequest<
        TransferFundsRequest,
    >)
        ensures
            api.limits@ == seq![RateClass::Transaction],
            addressed(*self, ACCOUNT_URL@, "AccountAPING/v1.0/transferFunds"@, api.call),
            api.call matches Ok(call) ==> call.body.params == request,
    {
        ApiRequest {
            limits: vec![RateClass::Transaction],
            call: self.make_json_rpc_request(
                ACCOUNT_URL,
                "AccountAPING/v1.0/transferFunds",
                request,
            ),
        }
    }

    /// Lists exchange rates from one currency. Only GBP is supported as that currency.
    pub fn list_currency_rates(&self, request: ListCurrencyRatesRequest) -> (api: ApiRequest<
        ListCurrencyRatesRequest,
    >)
        ensures
            api.limits@ == seq![RateClass::Data],
            addressed(*self, ACCOUNT_URL@, "AccountAPING/v1.0/listCurrencyRates"@, api.call),
            api.call matches Ok(call) ==> call.body.params == request,
    {
        ApiRequest {
            limits: vec![RateClass::Data],
            call: self.make_json_rpc_request(
                ACCOUNT_URL,
                "AccountAPING/v1.0/listCurrencyRates",
                request,
            ),
        }
    }

    /// Places one back or lay order at a price limit. A price or a size that is no decimal counts
    /// as zero.
    pub fn place_simple_order(
        &self,
        market_id: String,
        selection_id: i64,
        side: Side,
        price: Option<Decimal>,
        size: Option<Decimal>,
    ) -> (api: ApiRequest<PlaceOrdersRequest>)
        ensures
            api.limits@ == seq![RateClass::Transaction],
            addressed(*self, BETTING_URL@, "SportsAPING/v1.0/placeOrders"@, api.call),
            api.call matches Ok(call) ==> {
                let request = call.body.params;
                &&& request.market_id == market_id
                &&& request.instructions@ == seq![
                    PlaceInstruction {
                        order_type: OrderType::Limit,
                        selection_id,
                        handicap: Some(zero()),
                        side,
                        limit_order: Some(
                            LimitOrder {
                                size: (match size {
                                    Some(size) => size,
                                    None => zero(),
                                }),
                                price: (match price {
                                    Some(price) => price,
                                    None => zero(),
                                }),
                                persistence_type: PersistenceType::Lapse,
                                time_in_force: None,
                                min_fill_size: None,
                                bet_target_type: None,
                                bet_target_size: None,
                            },
                        ),
                        limit_on_close_order: None,
                        market_on_close_order: None,
                        customer_order_ref: None,
                    },
                ]
                &&& request.customer_ref is None
                &&& request.market_version is None
                &&& request.customer_strategy_ref is None
                &&& request.async_ is None
            },
    {
        let request = PlaceOrdersRequest {
            market_id,
            instructions: vec![
                PlaceInstruction {
                    order_type: OrderType::Limit,
                    selection_id,
                    handicap: Some(decimal_zero()),
                    side,
                    limit_order: Some(
                        LimitOrder {
                            size: decimal_or_zero(size),
                            price: decimal_or_zero(price),
                            persistence_type: PersistenceType::Lapse,
                            time_in_force: None,
                            min_fill_size: None,
                            bet_target_type: None,
                            bet_target_size: None,
                        },
                    ),
                    limit_on_close_order: None,
                    market_on_close_order: None,
                    customer_order_ref: None,
                },
            ],
            customer_ref: None,
            market_version: None,
            customer_strategy_ref: None,
            async_: None,
        };
        self.place_orders(request)
    }

    /// Cancels one bet wholly.
    pub fn cancel_bet(&self, market_id: String, bet_id: String) -> (api: ApiRequest<
        CancelOrdersRequest,
    >)
        ensures
            api.limits@ == seq![RateClass::Transaction],
            addressed(*self, BETTING_URL@, "SportsAPING/v1.0/cancelOrders"@, api.call),
            api.call matches Ok(call) ==> {
                let request = call.body.params;
                &&& request.market_id == market_id
                &&& request.instructions@ == seq![
                    CancelInstruction { bet_id, size_reduction: None },
                ]
                &&& request.customer_ref is None
            },
    {
        let request = CancelOrdersRequest {
            market_id,
            instructions: vec![CancelInstruction { bet_id, size_reduction: None }],
            customer_ref: None,
        };
        self.cancel_orders(request)
    }

    /// Lists the current orders of the given bets.
    pub fn get_orders_by_bet_ids(&self, bet_ids: Vec<String>) -> (api: ApiRequest<
        ListCurrentOrdersRequest,
    >)
        ensures
            api.limits@ == seq![RateClass::Data],
            addressed(*self, BETTING_URL@, "SportsAPING/v1.0/listCurrentOrders"@, api.call),
            api.call matches Ok(call) ==> orders_by(call.body.params, Some(bet_ids), None),
    {
        let request = ListCurrentOrdersRequest {
            bet_ids: Some(bet_ids),
            market_ids: None,
            order_projection: None,
            customer_order_refs: None,
            customer_strategy_refs: None,
            date_range: None,
            order_by: None,
            sort_dir: None,
            from_record: None,
            record_count: None,
        };
        self.list_current_orders(request)
    }

    /// Lists the current orders on the given markets.
    pub fn get_orders_by_market_ids(&self, market_ids: Vec<String>) -> (api: ApiRequest<
        ListCurrentOrdersRequest,
    >)
        ensures
            api.limits@ == seq![RateClass::Data],
            addressed(*self, BETTING_URL@, "SportsAPING/v1.0/listCurrentOrders"@, api.call),
            api.call matches Ok(call) ==> orders_by(call.body.params, None, Some(market_ids)),
    {
        let request = ListCurrentOrdersRequest {
            bet_ids: None,
            market_ids: Some(market_ids),
            order_projection: None,
            customer_order_refs: None,
            customer_strategy_refs: None,
            date_range: None,
            order_by: None,
            sort_dir: None,
            from_record: None,
            record_count: None,
        };
        self.list_current_orders(request)
    }

    /// Asks for the best prices on the given markets.
    pub fn get_market_prices(&self, market_ids: Vec<String>) -> (api: ApiRequest<
        ListMarketBookRequest,
    >)
        ensures
            api.limits@ == seq![RateClass::Navigation],
            addressed(*self, BETTING_URL@, "SportsAPING/v1.0/listMarketBook"@, api.call),
            api.call matches Ok(call) ==> {
                let request = call.body.params;
                &&& request.market_ids == market_ids
                &&& plain_book_request(request)
                &&& request.price_projection matches Some(projection)
                &&& projection.price_data matches Some(data)
                &&& data@ == seq![PriceData::ExBestOffers]
                &&& projection.ex_best_offers_overrides is None
                &&& projection.virtualise is None
                &&& projection.rollover_stakes is None
            },
    {
        let request = ListMarketBookRequest {
            market_ids,
            price_projection: Some(
                PriceProjectionDto {
                    price_data: Some(vec![PriceData::ExBestOffers]),
                    ex_best_offers_overrides: None,
                    virtualise: None,
                    rollover_stakes: None,
                },
            ),
            order_projection: None,
            match_projection: None,
            include_overall_position: None,
            partition_matched_by_strategy_ref: None,
            customer_strategy_refs: None,
            currency_code: None,
            locale: None,
            matched_since: None,
            bet_ids: None,
        };
        self.list_market_book(request)
    }

    /// Asks for the full price ladder of a market.
    pub fn get_odds(&self, market_id: String) -> (api: ApiRequest<ListMarketBookRequest>)
        ensures
            api.limits@ == seq![RateClass::Navigation],
            addressed(*self, BETTING_URL@, "SportsAPING/v1.0/listMarketBook"@, api.call),
            api.call matches Ok(call) ==> odds_request(call.body.params, market_id),
    {
        let market_ids = vec![market_id];
        let price_data =
            vec![PriceData::ExBestOffers, PriceData::ExAllOffers, PriceData::ExTraded];
        proof {
            assert(market_ids@ =~= seq![market_id]);
            assert(price_data@ =~= seq![
                PriceData::ExBestOffers,
                PriceData::ExAllOffers,
                PriceData::ExTraded,
            ]);
        }
        let request = ListMarketBookRequest {
            market_ids,
            price_projection: Some(
                PriceProjectionDto {
                    price_data: Some(price_data),
                    ex_best_offers_overrides: Some(
                        ExBestOffersOverrides {
                            best_prices_depth: Some(3),
                            rollup_model: Some("STAKE".to_string()),
                            rollup_limit: None,
                            rollup_liability_threshold: None,
                            rollup_liability_factor: None,
                        },
                    ),
                    virtualise: Some(true),
                    rollover_stakes: Some(false),
                },
            ),
            order_projection: None,
            match_projection: None,
            include_overall_position: None,
            partition_matched_by_strategy_ref: None,
            customer_strategy_refs: None,
            currency_code: None,
            locale: None,
            matched_since: None,
            bet_ids: None,
        };
        self.list_market_book(request)
    }

    /// Looks for markets by a text, those that start first in front.
    pub fn search_markets(&self, text_query: String, max_results: Option<i32>) -> (api: ApiRequest<
        ListMarketCatalogueRequest,
    >)
        ensures
            api.limits@ == seq![RateClass::Navigation],
            addressed(*self, BETTING_URL@, "SportsAPING/v1.0/listMarketCatalogue"@, api.call),
            api.call matches Ok(call) ==> {
                let request = call.body.params;
                &&& request.filter == (MarketFilter {
                    text_query: Some(text_query),
                    ..MarketFilter::unrestricted()
                })
                &&& request.market_projection matches Some(projection)
                &&& projection@ == seq![
                    MarketProjection::Competition,
                    MarketProjection::Event,
                    MarketProjection::MarketStartTime,
                    MarketProjection::MarketDescription,
                ]
                &&& request.sort == Some(MarketSort::FirstToStart)
                &&& request.max_results == max_results
                &&& request.locale is None
            },
    {
        let request = ListMarketCatalogueRequest {
            filter: MarketFilter { text_query: Some(text_query), ..MarketFilter::default() },
            market_projection: Some(
                vec![
                    MarketProjection::Competition,
                    MarketProjection::Event,
                    MarketProjection::MarketStartTime,
                    MarketProjection::MarketDescription,
                ],
            ),
            sort: Some(MarketSort::FirstToStart),
            max_results,
            locale: None,
        };
        self.list_market_catalogue(request)
    }

    /// Lists the sports that a filter lets pass, all of them where there is none.
    pub fn list_sports(&self, filter: Option<MarketFilter>) -> (api: ApiRequest<
        ListEventTypesRequest,
    >)
        ensures
            api.limits@ == seq![RateClass::Navigation],
            addressed(*self, BETTING_URL@, "SportsAPING/v1.0/listEventTypes"@, api.call),
            api.call matches Ok(call) ==> text_of(call.body.params.locale) == Some("en"@)
                && call.body.params.filter == (match filter {
                Some(filter) => filter,
                None => MarketFilter::unrestricted(),
            }),
    {
        ApiRequest {
            limits: vec![RateClass::Navigation],
            call: self.make_json_rpc_request(
                BETTING_URL,
                "SportsAPING/v1.0/listEventTypes",
                ListEventTypesRequest {
                    filter: MarketFilter::or_unrestricted(filter),
                    locale: Some("en".to_string()),
                },
            ),
        }
    }

    /// Lists the events that a filter lets pass, all of them where there is none.
    pub fn list_events(&self, filter: Option<MarketFilter>) -> (api: ApiRequest<ListEventsRequest>)
        ensures
            api.limits@ == seq![RateClass::Navigation],
            addressed(*self, BETTING_URL@, "SportsAPING/v1.0/listEvents"@, api.call),
            api.call matches Ok(call) ==> text_of(call.body.params.locale) == Some("en"@)
                && call.body.params.filter == (match filter {
                Some(filter) => filter,
                None => MarketFilter::unrestricted(),
            }),
    {
        ApiRequest {
            limits: vec![RateClass::Navigation],
            call: self.make_json_rpc_request(
                BETTING_URL,
                "SportsAPING/v1.0/listEvents",
                ListEventsRequest {
                    filter: MarketFilter::or_unrestricted(filter),
                    locale: Some("en".to_string()),
                },
            ),
        }
    }

    /// Lists the competitions that a filter lets pass, all of them where there is none.
    pub fn list_competitions(&self, filter: Option<MarketFilter>) -> (api: ApiRequest<
        ListCompetitionsRequest,
    >)
        ensures
            api.limits@ == seq![RateClass::Navigation],
            addressed(*self, BETTING_URL@, "SportsAPING/v1.0/listCompetitions"@, api.call),
            api.call matches Ok(call) ==> text_of(call.body.params.locale) == Some("en"@)
                && call.body.params.filter == (match filter {
                Some(filter) => filter,
                None => MarketFilter::unrestricted(),
            }),
    {
        ApiRequest {
            limits: vec![RateClass::Navigation],
            call: self.make_json_rpc_request(
                BETTING_URL,
                "SportsAPING/v1.0/listCompetitions",
                ListCompetitionsRequest {
                    filter: MarketFilter::or_unrestricted(filter),
                    locale: Some("en".to_string()),
                },
            ),
        }
    }

    /// Lists the runners of a market, with their names and metadata. This draws on the navigation
    /// budget twice: once for the runners and once for the catalogue that they come with.
    pub fn list_runners(&self, market_id: &str) -> (api: ApiRequest<ListMarketCatalogueRequest>)
        ensures
            api.limits@ == seq![RateClass::Navigation, RateClass::Navigation],
            addressed(*self, BETTING_URL@, "SportsAPING/v1.0/listMarketCatalogue"@, api.call),
            api.call matches Ok(call) ==> runners_request(call.body.params, market_id@),
    {
        let market_ids = vec![market_id.to_string()];
        proof {
            assert(texts(market_ids@) =~= seq![market_id@]);
        }
        let request = ListMarketCatalogueRequest {
            filter: MarketFilter { market_ids: Some(market_ids), ..MarketFilter::default() },
            market_projection: Some(
                vec![
                    MarketProjection::RunnerDescription,
                    MarketProjection::RunnerMetadata,
                    MarketProjection::Event,
                    MarketProjection::MarketDescription,
                ],
            ),
            sort: None,
            max_results: Some(1),
            locale: Some("en".to_string()),
        };
        let catalogue = self.list_market_catalogue(request);
        ApiRequest {
            limits: vec![RateClass::Navigation, RateClass::Navigation],
            call: catalogue.call,
        }
    }
}

} // verus!
