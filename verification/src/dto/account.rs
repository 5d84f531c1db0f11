//! Requests about an account, and what they are answered with.

use super::common::Wallet;
use rust_decimal::Decimal;
use vstd::prelude::*;

verus! {

/// The funds of an account, in the older form.
#[derive(Debug, Clone)]
pub struct AccountFundsResponse {
    pub available_to_bet_balance: Decimal,
    pub exposure: Decimal,
    pub retained_commission: Decimal,
    pub exposure_limit: Decimal,
    pub discount_rate: Decimal,
    pub points_balance: Decimal,
    pub wallet: String,
}

/// Asks for the funds of an account.
#[derive(Debug, Clone)]
pub struct GetAccountFundsRequest {
    pub wallet: Option<Wallet>,
}

/// The funds of an account.
#[derive(Debug, Clone)]
pub struct GetAccountFundsResponse {
    pub available_to_bet_balance: Decimal,
    pub exposure: Decimal,
    pub retained_commission: Decimal,
    pub exposure_limit: Decimal,
    pub discount_rate: Option<Decimal>,
    pub points_balance: i32,
    pub wallet: Option<String>,
}

/// Asks for the details of an account.
#[derive(Debug, Clone)]
pub struct GetAccountDetailsRequest {}

/// The details of an account.
#[derive(Debug, Clone)]
pub struct GetAccountDetailsResponse {
    pub currency_code: Option<String>,
    pub first_name: Option<String>,
    pub last_name: Option<String>,
    pub locale_code: Option<String>,
    pub region: Option<String>,
    pub timezone: Option<String>,
    pub discount_rate: Option<Decimal>,
    pub points_balance: Option<i32>,
    pub country_code: Option<String>,
}

/// Moves money between two wallets.
#[derive(Debug, Clone)]
pub struct TransferFundsRequest {
    pub from: Wallet,
    pub to: Wallet,
    pub amount: Decimal,
}

/// Names the transaction that moved money between two wallets.
#[derive(Debug, Clone)]
pub struct TransferFundsResponse {
    pub transaction_id: String,
}

/// Asks for exchange rates.
#[derive(Debug, Clone)]
pub struct ListCurrencyRatesRequest {
    /// The currency that the rates start from. Only "GBP" is supported.
    pub from_currency: Option<String>,
}

/// The exchange rate of one currency.
#[derive(Debug, Clone)]
pub struct CurrencyRate {
    /// Three letter ISO 4217 code.
    pub currency_code: String,
    /// Exchange rate for the currency.
    pub rate: Decimal,
}

} // verus!
