use betfair_rs::config::{BetfairConfig, Config};
use betfair_rs::dto::rpc::{InteractiveLoginResponse, LoginResponse};
use betfair_rs::error::ClientError;
use betfair_rs::streaming_client::StreamingCommand;
use betfair_rs::transport::RateClass;
use betfair_rs::unified_client::BetfairClient;

fn create_test_config() -> Config {
    Config {
        betfair: BetfairConfig {
            username: "test_user".to_string(),
            password: "test_pass".to_string(),
            api_key: "test_api_key".to_string(),
            pem_path: "/tmp/test.pem".to_string(),
        },
    }
}

#[test]
fn test_unified_client_creation() {
    let config = create_test_config();
    let client = BetfairClient::new(config);

    assert!(client.get_session_token().is_none());
    assert!(!client.is_streaming_connected());
}

#[test]
fn test_get_and_set_session_token() {
    let config = create_test_config();
    let mut client = BetfairClient::new(config);

    assert!(client.get_session_token().is_none());

    client.set_session_token("test_token".to_string());
    assert_eq!(client.get_session_token(), Some("test_token".to_string()));
}

#[test]
fn test_get_streaming_orderbooks() {
    let config = create_test_config();
    let client = BetfairClient::new(config);

    let ob1 = client.get_streaming_orderbooks();
    let ob2 = client.get_streaming_orderbooks();

    assert!(ob1.is_none());
    assert!(ob2.is_none());
}

#[test]
fn test_get_streaming_orderbooks_empty() {
    let config = create_test_config();
    let client = BetfairClient::new(config);

    let orderbooks = client.get_streaming_orderbooks();
    assert!(orderbooks.is_none());
}

#[test]
fn test_market_last_update_time_not_available() {
    let config = create_test_config();
    let client = BetfairClient::new(config);

    let time = client.get_market_last_update_time("1.123456");
    assert!(time.is_none());
}

#[test]
fn test_streaming_not_connected_initially() {
    let config = create_test_config();
    let client = BetfairClient::new(config);

    assert!(!client.is_streaming_connected());
}

#[test]
fn test_unified_client_streaming_orderbooks_initialization() {
    let config = create_test_config();
    let client = BetfairClient::new(config);

    let orderbooks = client.get_streaming_orderbooks();
    assert!(orderbooks.is_none());
}

#[test]
fn a_login_opens_both_sides() {
    let mut client = BetfairClient::new(create_test_config());
    assert!(!client.login(&LoginResponse {
        session_token: "t".to_string(),
        login_status: "FAIL".to_string(),
    }));
    assert!(client.streaming_client.is_none());
    assert!(client.login(&LoginResponse {
        session_token: "t".to_string(),
        login_status: "SUCCESS".to_string(),
    }));
    assert_eq!(client.get_session_token(), Some("t".to_string()));
    let streaming = client.streaming_client.as_ref().unwrap();
    assert_eq!(streaming.api_key, "test_api_key");
    assert_eq!(streaming.session_token, Some("t".to_string()));
    assert!(client.get_streaming_orderbooks().unwrap().is_empty());
}

#[test]
fn an_interactive_login_opens_both_sides() {
    let mut client = BetfairClient::new(create_test_config());
    let mut response = InteractiveLoginResponse {
        session_token: None,
        token: Some("i".to_string()),
        login_status: Some("locked".to_string()),
        status: None,
        status_code: None,
        error: None,
        error_details: Some("ACCOUNT".to_string()),
    };
    let error = client.login_interactive(&response).unwrap_err();
    assert_eq!(error.message(), "Interactive login locked: ACCOUNT");
    assert!(client.streaming_client.is_none());
    response.login_status = Some("SUCCESS".to_string());
    client.login_interactive(&response).unwrap();
    assert_eq!(client.get_session_token(), Some("i".to_string()));
    assert_eq!(
        client.streaming_client.as_ref().unwrap().session_token,
        Some("i".to_string())
    );
}

#[test]
fn setting_a_token_keeps_streaming_going() {
    let mut client = BetfairClient::new(create_test_config());
    client.set_session_token("one".to_string());
    client.start_streaming().unwrap();
    client.set_session_token("two".to_string());
    let streaming = client.streaming_client.as_ref().unwrap();
    assert!(streaming.has_command_sender);
    assert_eq!(streaming.session_token, Some("two".to_string()));
}

#[test]
fn streaming_needs_a_login() {
    let mut client = BetfairClient::new(create_test_config());
    assert!(matches!(
        client.start_streaming().unwrap_err(),
        ClientError::StreamingNotInitialized
    ));
    assert!(matches!(
        client.subscribe_to_market("1.1".to_string(), 3).unwrap_err(),
        ClientError::StreamingNotInitialized
    ));
    assert!(client.subscribe_to_markets(vec!["1.1".to_string()], 3).is_err());
    assert!(client.unsubscribe_from_market("1.1".to_string()).is_err());
    assert!(client.set_orderbook_callback().is_err());
    assert!(client.stop_streaming().is_none());
    client.set_session_token("t".to_string());
    assert!(client.set_orderbook_callback().is_ok());
    assert!(matches!(
        client.subscribe_to_market("1.1".to_string(), 3).unwrap_err(),
        ClientError::StreamingNotStarted
    ));
    client.start_streaming().unwrap();
    assert!(client.subscribe_to_market("1.1".to_string(), 3).is_ok());
    assert!(matches!(client.stop_streaming(), Some(StreamingCommand::Stop)));
}

#[test]
fn updates_follow_a_placement_that_succeeded() {
    let mut client = BetfairClient::new(create_test_config());
    client.set_session_token("t".to_string());
    assert!(client.place_order_with_updates("FAILURE", "1.1".to_string(), 3).is_none());
    assert!(client.place_order_with_updates("SUCCESS", "1.1".to_string(), 3).unwrap().is_err());
    client.start_streaming().unwrap();
    assert!(matches!(
        client.place_order_with_updates("SUCCESS", "1.1".to_string(), 3).unwrap().unwrap(),
        StreamingCommand::Subscribe(market, 3) if market == "1.1"
    ));
}

#[test]
fn rest_calls_are_handed_on() {
    let mut client = BetfairClient::new(create_test_config());
    assert!(matches!(
        client.list_sports(None).call.unwrap_err(),
        ClientError::NotLoggedIn
    ));
    client.set_session_token("t".to_string());
    let runners = client.list_runners("1.1");
    assert_eq!(runners.limits, vec![RateClass::Navigation, RateClass::Navigation]);
    assert_eq!(runners.call.unwrap().session_token, "t");
    let odds = client.get_odds("1.1".to_string());
    assert_eq!(odds.call.unwrap().body.params.market_ids, vec!["1.1".to_string()]);
    let details = client.get_account_details();
    assert_eq!(details.call.unwrap().body.method, "AccountAPING/v1.0/getAccountDetails");
}
