use vstd::prelude::*;
use crate::lookup::{find_last, last_index_of};
use crate::market::{MarketError, TokenData};

verus! {

/// A decoded price response: for each token identifier, its quoted fields by
/// name, each value in millionths.
pub type PriceResponse = Vec<(String, Vec<(String, i64)>)>;

pub open spec fn url_prefix() -> Seq<char> {
    "https://api.coingecko.com/api/v3/simple/price?ids="@
}

pub open spec fn url_suffix() -> Seq<char> {
    "&vs_currencies=usd&include_market_cap=true&include_24hr_vol=true&include_24hr_change=true"@
}

/// The address of the price request for one token.
pub fn price_request_url(token_id: &str) -> (r: String)
    ensures
        r@ == url_prefix() + token_id@ + url_suffix(),
{
    let mut url = String::from_str("https://api.coingecko.com/api/v3/simple/price?ids=");
    url.append(token_id);
    url.append(
        "&vs_currencies=usd&include_market_cap=true&include_24hr_vol=true&include_24hr_change=true",
    );
    url
}

/// The value of the field `name`, or 0 where the field is absent.
pub open spec fn field_or_zero(fields: Seq<(String, i64)>, name: Seq<char>) -> i64 {
    match last_index_of(fields, name) {
        Some(i) => fields[i].1,
        None => 0,
    }
}

/// The snapshot made of a token's quoted fields.
pub open spec fn snapshot_of(fields: Seq<(String, i64)>) -> TokenData {
    TokenData {
        price: field_or_zero(fields, "usd"@),
        market_cap: field_or_zero(fields, "usd_market_cap"@),
        volume_24h: field_or_zero(fields, "usd_24h_vol"@),
        price_change_24h: field_or_zero(fields, "usd_24h_change"@),
    }
}

/// A snapshot whose volume field is missing has a volume of 0.
pub proof fn lemma_missing_volume_reads_zero(fields: Seq<(String, i64)>)
    requires
        last_index_of(fields, "usd_24h_vol"@) is None,
    ensures
        snapshot_of(fields).volume_24h == 0,
{
}

fn field_value(fields: &Vec<(String, i64)>, name: &str) -> (r: i64)
    ensures
        r == field_or_zero(fields@, name@),
{
    match find_last(fields, name) {
        Some(i) => fields[i].1,
        None => 0,
    }
}

/// Reads the snapshot of `token_id` out of a decoded price response. Fails with
/// `TokenNotFound` exactly when the response holds no entry for the token; a
/// field missing from the entry reads as 0.
pub fn snapshot_from_response(response: &PriceResponse, token_id: &str) -> (r: Result<
    TokenData,
    MarketError,
>)
    ensures
        match last_index_of(response@, token_id@) {
            Some(i) => r == Ok::<TokenData, MarketError>(snapshot_of(response@[i].1@)),
            None => r == Err::<TokenData, MarketError>(MarketError::TokenNotFound),
        },
{
    match find_last(response, token_id) {
        Some(i) => {
            let fields = &response[i].1;
            Ok(
                TokenData {
                    price: field_value(fields, "usd"),
                    market_cap: field_value(fields, "usd_market_cap"),
                    volume_24h: field_value(fields, "usd_24h_vol"),
                    price_change_24h: field_value(fields, "usd_24h_change"),
                },
            )
        },
        None => Err(MarketError::TokenNotFound),
    }
}

} // verus!
