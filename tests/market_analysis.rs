use social_ai_agent::market::{Fetched, SENTIMENT_PLACEHOLDER};
use social_ai_agent::{CategoryAnalysis, MarketAnalyzer, MarketError, TokenData};

const MILLION: f64 = 1_000_000.0;

fn snapshot(market_cap_usd: f64, volume_usd: f64, change_pct: f64) -> Fetched {
    Ok(TokenData {
        price: 1_000_000,
        market_cap: (market_cap_usd * MILLION) as i64,
        volume_24h: (volume_usd * MILLION) as i64,
        price_change_24h: (change_pct * MILLION) as i64,
    })
}

fn analyze(category: &str, fetched: Vec<Fetched>) -> CategoryAnalysis {
    MarketAnalyzer::new().analyze_category(category, &fetched).unwrap()
}

#[test]
fn defi_with_one_failed_fetch() {
    let a = analyze(
        "defi",
        vec![
            snapshot(1e9, 1e8, 6.0),
            snapshot(5e8, 5e7, 2.0),
            Err(MarketError::NetworkError),
        ],
    );
    assert_eq!(a.category, "defi");
    assert!((a.average_return_24h as f64 / MILLION - 2.667).abs() < 1e-3);
    assert_eq!(a.average_return_24h, 2_666_666);
    assert_eq!(a.total_market_cap, 1_500_000_000_000_000);
    assert_eq!(a.total_volume, 150_000_000_000_000);
    assert_eq!(a.top_performers, vec!["aave".to_string()]);
    assert_eq!(a.sentiment_score, SENTIMENT_PLACEHOLDER);
    assert_eq!(a.sentiment_score, 750_000);
}

#[test]
fn average_divides_by_configured_count() {
    let a = analyze(
        "ai",
        vec![
            snapshot(1.0, 1.0, 9.0),
            Err(MarketError::DecodeError),
            Err(MarketError::TokenNotFound),
        ],
    );
    assert_eq!(a.average_return_24h, 3_000_000);
    assert_eq!(a.total_market_cap, 1_000_000);
    assert_eq!(a.total_volume, 1_000_000);
}

#[test]
fn negative_average_rounds_toward_zero() {
    let a = analyze(
        "l2",
        vec![
            Ok(TokenData { price: 0, market_cap: 0, volume_24h: 0, price_change_24h: -7_000_001 }),
            snapshot(0.0, 0.0, 0.0),
            snapshot(0.0, 0.0, 0.0),
        ],
    );
    assert_eq!(a.average_return_24h, -2_333_333);
    assert!(a.top_performers.is_empty());
}

#[test]
fn unknown_category_is_rejected() {
    let m = MarketAnalyzer::new();
    let r = m.analyze_category("memes", &vec![]);
    assert!(matches!(r, Err(MarketError::CategoryNotFound)));
    assert!(matches!(m.category_tokens("memes"), Err(MarketError::CategoryNotFound)));
    assert!(matches!(m.category_tokens("DeFi"), Err(MarketError::CategoryNotFound)));
    assert!(matches!(m.category_tokens(""), Err(MarketError::CategoryNotFound)));
}

#[test]
fn registry_holds_the_built_in_categories() {
    let m = MarketAnalyzer::new();
    assert_eq!(
        m.category_tokens("ai").unwrap(),
        &vec!["fetch-ai".to_string(), "singularitynet".to_string(), "ocean-protocol".to_string()]
    );
    assert_eq!(
        m.category_tokens("defi").unwrap(),
        &vec!["aave".to_string(), "uniswap".to_string(), "compound-governance-token".to_string()]
    );
    assert_eq!(
        m.category_tokens("l2").unwrap(),
        &vec!["arbitrum".to_string(), "optimism".to_string(), "polygon".to_string()]
    );
}

#[test]
fn top_performers_keep_registry_order_and_exclude_threshold() {
    let a = analyze(
        "l2",
        vec![snapshot(0.0, 0.0, 12.5), snapshot(0.0, 0.0, 5.0), snapshot(0.0, 0.0, 5.000001)],
    );
    assert_eq!(a.top_performers, vec!["arbitrum".to_string(), "polygon".to_string()]);
}

#[test]
fn failed_fetch_is_never_a_top_performer() {
    let a = analyze(
        "ai",
        vec![Err(MarketError::NetworkError), snapshot(0.0, 0.0, 20.0), Err(MarketError::NetworkError)],
    );
    assert_eq!(a.top_performers, vec!["singularitynet".to_string()]);
}

#[test]
fn all_fetches_failed_still_succeeds() {
    let a = analyze(
        "defi",
        vec![
            Err(MarketError::NetworkError),
            Err(MarketError::TokenNotFound),
            Err(MarketError::DecodeError),
        ],
    );
    assert_eq!(a.average_return_24h, 0);
    assert_eq!(a.total_market_cap, 0);
    assert_eq!(a.total_volume, 0);
    assert!(a.top_performers.is_empty());
}

#[test]
fn largest_values_do_not_overflow() {
    let big = Ok(TokenData {
        price: i64::MAX,
        market_cap: i64::MAX,
        volume_24h: i64::MAX,
        price_change_24h: i64::MAX,
    });
    let a = analyze("ai", vec![big, big, big]);
    assert_eq!(a.total_market_cap, 3 * i64::MAX as i128);
    assert_eq!(a.average_return_24h, i64::MAX);
    let small = Ok(TokenData {
        price: i64::MIN,
        market_cap: i64::MIN,
        volume_24h: i64::MIN,
        price_change_24h: i64::MIN,
    });
    let b = analyze("ai", vec![small, small, small]);
    assert_eq!(b.total_volume, 3 * i64::MIN as i128);
    assert_eq!(b.average_return_24h, i64::MIN);
}
