use vstd::prelude::*;
use crate::lookup::{find_last, last_index_of};

verus! {

/// A token is a top performer when its 24h change exceeds this (5%, in millionths).
pub const TOP_PERFORMER_THRESHOLD: i64 = 5_000_000;

/// Sentiment score given to every category (0.75, in millionths).
pub const SENTIMENT_PLACEHOLDER: i64 = 750_000;

/// Market snapshot of one token; every field is in millionths (of a US dollar,
/// or of a percentage point for the change).
#[derive(Clone, Copy, Debug, PartialEq, Eq, Structural)]
pub struct TokenData {
    pub price: i64,
    pub market_cap: i64,
    pub volume_24h: i64,
    pub price_change_24h: i64,
}

/// The ways an analysis or a token fetch can fail.
#[derive(Clone, Copy, Debug, PartialEq, Eq, Structural)]
pub enum MarketError {
    CategoryNotFound,
    TokenNotFound,
    NetworkError,
    DecodeError,
}

/// Summary statistics of one category. Amounts are in millionths.
#[derive(Debug)]
pub struct CategoryAnalysis {
    pub category: String,
    pub average_return_24h: i64,
    pub total_market_cap: i128,
    pub total_volume: i128,
    pub top_performers: Vec<String>,
    pub sentiment_score: i64,
}

/// The outcome of fetching one token.
pub type Fetched = Result<TokenData, MarketError>;

pub open spec fn change_of(f: Fetched) -> int {
    match f {
        Ok(d) => d.price_change_24h as int,
        Err(_) => 0,
    }
}

pub open spec fn cap_of(f: Fetched) -> int {
    match f {
        Ok(d) => d.market_cap as int,
        Err(_) => 0,
    }
}

pub open spec fn volume_of(f: Fetched) -> int {
    match f {
        Ok(d) => d.volume_24h as int,
        Err(_) => 0,
    }
}

/// Whether a fetch succeeded with a 24h change strictly above the threshold.
pub open spec fn is_top(f: Fetched) -> bool {
    f matches Ok(d) && d.price_change_24h > TOP_PERFORMER_THRESHOLD
}

/// Sum of the 24h changes of the first `n` outcomes; a failed fetch adds 0.
pub open spec fn sum_changes(f: Seq<Fetched>, n: nat) -> int
    decreases n,
{
    if n == 0 { 0 } else { sum_changes(f, (n - 1) as nat) + change_of(f[n - 1]) }
}

/// Sum of the market caps of the first `n` outcomes; a failed fetch adds 0.
pub open spec fn sum_caps(f: Seq<Fetched>, n: nat) -> int
    decreases n,
{
    if n == 0 { 0 } else { sum_caps(f, (n - 1) as nat) + cap_of(f[n - 1]) }
}

/// Sum of the volumes of the first `n` outcomes; a failed fetch adds 0.
pub open spec fn sum_volumes(f: Seq<Fetched>, n: nat) -> int
    decreases n,
{
    if n == 0 { 0 } else { sum_volumes(f, (n - 1) as nat) + volume_of(f[n - 1]) }
}

/// The tokens among the first `n` whose fetch made them top performers, in order.
pub open spec fn top_tokens(tokens: Seq<Seq<char>>, f: Seq<Fetched>, n: nat) -> Seq<Seq<char>>
    decreases n,
{
    if n == 0 {
        Seq::empty()
    } else if is_top(f[n - 1]) {
        top_tokens(tokens, f, (n - 1) as nat).push(tokens[n - 1])
    } else {
        top_tokens(tokens, f, (n - 1) as nat)
    }
}

/// Integer division rounded toward zero.
pub open spec fn div_toward_zero(a: int, n: int) -> int {
    if a >= 0 { a / n } else { -((-a) / n) }
}

/// What the analysis of `category`, made of `tokens` with the fetch outcomes `f`
/// (one per token, in order), holds.
pub open spec fn analysis_of(
    a: CategoryAnalysis,
    category: Seq<char>,
    tokens: Seq<Seq<char>>,
    f: Seq<Fetched>,
) -> bool {
    let n = tokens.len();
    &&& a.category@ == category
    &&& a.average_return_24h == div_toward_zero(sum_changes(f, n), n as int)
    &&& a.total_market_cap == sum_caps(f, n)
    &&& a.total_volume == sum_volumes(f, n)
    &&& a.top_performers@.map_values(|t: String| t@) == top_tokens(tokens, f, n)
    &&& a.sentiment_score == SENTIMENT_PLACEHOLDER
}

/// The views of a list of token identifiers.
pub open spec fn ids_view(v: Seq<String>) -> Seq<Seq<char>> {
    v.map_values(|t: String| t@)
}

/// Whether `t` is one of the first `n` tokens and its fetch made it a top performer.
pub open spec fn is_top_token(tokens: Seq<Seq<char>>, f: Seq<Fetched>, n: nat, t: Seq<char>) -> bool {
    exists|j: int| 0 <= j < n && #[trigger] is_top(f[j]) && tokens[j] == t
}

/// The top performers are exactly the tokens whose fetch succeeded with a 24h
/// change strictly above the threshold; a failed fetch never yields one.
pub proof fn lemma_top_tokens_exact(tokens: Seq<Seq<char>>, f: Seq<Fetched>, n: nat)
    requires
        n <= f.len(),
        n <= tokens.len(),
    ensures
        forall|j: int| 0 <= j < n && #[trigger] is_top(f[j]) ==> top_tokens(tokens, f, n).contains(
            tokens[j],
        ),
        forall|k: int|
            0 <= k < top_tokens(tokens, f, n).len() ==> is_top_token(
                tokens,
                f,
                n,
                #[trigger] top_tokens(tokens, f, n)[k],
            ),
    decreases n,
{
    if n > 0 {
        let m = (n - 1) as nat;
        lemma_top_tokens_exact(tokens, f, m);
        let prev = top_tokens(tokens, f, m);
        let cur = top_tokens(tokens, f, n);
        assert forall|j: int| 0 <= j < n && #[trigger] is_top(f[j]) implies cur.contains(tokens[j]) by {
            if j < m {
                let k = choose|k: int| 0 <= k < prev.len() && prev[k] == tokens[j];
                assert(cur[k] == tokens[j]);
            } else {
                assert(cur[cur.len() - 1] == tokens[j]);
            }
        }
        assert forall|k: int| 0 <= k < cur.len() implies is_top_token(tokens, f, n, #[trigger] cur[k]) by {
            if k < prev.len() {
                assert(cur[k] == prev[k]);
                assert(is_top_token(tokens, f, m, prev[k]));
                let j = choose|j: int| 0 <= j < m && #[trigger] is_top(f[j]) && tokens[j] == prev[k];
                assert(0 <= j < n && is_top(f[j]) && tokens[j] == cur[k]);
            } else {
                assert(is_top(f[m as int]));
                assert(cur[k] == tokens[m as int]);
            }
        }
    }
}

proof fn lemma_all_failed_prefix(tokens: Seq<Seq<char>>, f: Seq<Fetched>, n: nat)
    requires
        n <= f.len(),
        forall|i: int| 0 <= i < f.len() ==> #[trigger] f[i] is Err,
    ensures
        sum_changes(f, n) == 0,
        sum_caps(f, n) == 0,
        sum_volumes(f, n) == 0,
        top_tokens(tokens, f, n).len() == 0,
    decreases n,
{
    if n > 0 {
        lemma_all_failed_prefix(tokens, f, (n - 1) as nat);
        assert(f[n - 1] is Err);
    }
}

/// When every fetch of a category fails, its analysis still exists and has a zero
/// average return, zero totals and no top performer.
pub proof fn lemma_all_fetches_failed(
    a: CategoryAnalysis,
    category: Seq<char>,
    tokens: Seq<Seq<char>>,
    f: Seq<Fetched>,
)
    requires
        tokens.len() > 0,
        f.len() == tokens.len(),
        forall|i: int| 0 <= i < f.len() ==> #[trigger] f[i] is Err,
        analysis_of(a, category, tokens, f),
    ensures
        a.average_return_24h == 0,
        a.total_market_cap == 0,
        a.total_volume == 0,
        a.top_performers@.len() == 0,
{
    lemma_all_failed_prefix(tokens, f, tokens.len());
    assert(a.top_performers@.map_values(|t: String| t@).len() == 0);
}

/// Groups tokens into named categories and summarises each category.
pub struct MarketAnalyzer {
    categories: Vec<(String, Vec<String>)>,
}

impl MarketAnalyzer {
    /// The tokens configured for `category`, if it is configured.
    pub closed spec fn tokens_of(&self, category: Seq<char>) -> Option<Seq<Seq<char>>> {
        match last_index_of(self.categories@, category) {
            Some(i) => Some(ids_view(self.categories@[i].1@)),
            None => None,
        }
    }

    /// Every configured category has at least one token.
    pub closed spec fn wf(&self) -> bool {
        forall|i: int| 0 <= i < self.categories@.len() ==> #[trigger] self.categories@[i].1@.len() > 0
    }

    /// An analyzer with the built-in categories "ai", "defi" and "l2", three tokens each.
    pub fn new() -> (r: Self)
        ensures
            r.wf(),
            r.tokens_of("ai"@) == Some(seq!["fetch-ai"@, "singularitynet"@, "ocean-protocol"@]),
            r.tokens_of("defi"@) == Some(seq!["aave"@, "uniswap"@, "compound-governance-token"@]),
            r.tokens_of("l2"@) == Some(seq!["arbitrum"@, "optimism"@, "polygon"@]),
            forall|c: Seq<char>|
                c != "ai"@ && c != "defi"@ && c != "l2"@ ==> #[trigger] r.tokens_of(c) is None,
    {
        let mut categories: Vec<(String, Vec<String>)> = Vec::new();
        categories.push(
            (
                String::from_str("ai"),
                vec![
                    String::from_str("fetch-ai"),
                    String::from_str("singularitynet"),
                    String::from_str("ocean-protocol"),
                ],
            ),
        );
        categories.push(
            (
                String::from_str("defi"),
                vec![
                    String::from_str("aave"),
                    String::from_str("uniswap"),
                    String::from_str("compound-governance-token"),
                ],
            ),
        );
        categories.push(
            (
                String::from_str("l2"),
                vec![
                    String::from_str("arbitrum"),
                    String::from_str("optimism"),
                    String::from_str("polygon"),
                ],
            ),
        );
        let r = MarketAnalyzer { categories };
        proof {
            reveal_strlit("ai");
            reveal_strlit("defi");
            reveal_strlit("l2");
            let c = r.categories@;
            assert("ai"@[0] != "l2"@[0]);
            assert("defi"@[0] != "l2"@[0]);
            assert("ai"@[0] != "defi"@[0]);
            reveal_with_fuel(last_index_of, 4);
            assert(c.drop_last().drop_last().drop_last() =~= Seq::<(String, Vec<String>)>::empty());
            assert(ids_view(c[0].1@) =~= seq!["fetch-ai"@, "singularitynet"@, "ocean-protocol"@]);
            assert(ids_view(c[1].1@) =~= seq!["aave"@, "uniswap"@, "compound-governance-token"@]);
            assert(ids_view(c[2].1@) =~= seq!["arbitrum"@, "optimism"@, "polygon"@]);
            assert(c.drop_last().last() == c[1]);
            assert(c.drop_last().drop_last().last() == c[0]);
            assert(r.tokens_of("ai"@) == Some(ids_view(c[0].1@)));
            assert(r.tokens_of("defi"@) == Some(ids_view(c[1].1@)));
        }
        r
    }

    /// The tokens configured for `category`, in order; fails with `CategoryNotFound`
    /// exactly when the category is not configured.
    pub fn category_tokens(&self, category: &str) -> (r: Result<&Vec<String>, MarketError>)
        requires
            self.wf(),
        ensures
            match self.tokens_of(category@) {
                Some(t) => r matches Ok(v) && ids_view(v@) == t && t.len() > 0,
                None => r == Err::<&Vec<String>, MarketError>(MarketError::CategoryNotFound),
            },
    {
        match find_last(&self.categories, category) {
            Some(i) => Ok(&self.categories[i].1),
            None => Err(MarketError::CategoryNotFound),
        }
    }

    /// Analyses `category` from the outcomes of fetching each of its tokens, given
    /// in the category's token order. Fails with `CategoryNotFound`, and with no
    /// other error, exactly when the category is not configured.
    pub fn analyze_category(&self, category: &str, fetched: &Vec<Fetched>) -> (r: Result<
        CategoryAnalysis,
        MarketError,
    >)
        requires
            self.wf(),
            self.tokens_of(category@) matches Some(t) ==> fetched@.len() == t.len(),
        ensures
            match self.tokens_of(category@) {
                Some(t) => r matches Ok(a) && analysis_of(a, category@, t, fetched@),
                None => r matches Err(e) && e == MarketError::CategoryNotFound,
            },
    {
        match self.category_tokens(category) {
            Ok(tokens) => Ok(self.summarize(category, tokens, fetched)),
            Err(e) => Err(e),
        }
    }

    fn sentiment_of(&self, _category: &str) -> (r: i64)
        ensures
            r == SENTIMENT_PLACEHOLDER,
    {
        SENTIMENT_PLACEHOLDER
    }

    /// Sums the outcomes of fetching each token of a category, in order, into its analysis.
    fn summarize(
        &self,
        category: &str,
        tokens: &Vec<String>,
        fetched: &Vec<Fetched>,
    ) -> (r: CategoryAnalysis)
        requires
            tokens@.len() > 0,
            fetched@.len() == tokens@.len(),
        ensures
            analysis_of(r, category@, ids_view(tokens@), fetched@),
    {
        let n = tokens.len();
        let ghost f = fetched@;
        let ghost ids = ids_view(tokens@);
        let mut total_return: i128 = 0;
        let mut total_market_cap: i128 = 0;
        let mut total_volume: i128 = 0;
        let mut top_performers: Vec<String> = Vec::new();
        let mut i: usize = 0;
        while i < n
            invariant
                n == tokens@.len(),
                n == f.len(),
                f == fetched@,
                ids == ids_view(tokens@),
                0 <= i <= n,
                total_return == sum_changes(f, i as nat),
                total_market_cap == sum_caps(f, i as nat),
                total_volume == sum_volumes(f, i as nat),
                -(i as int) * 0x8000_0000_0000_0000 <= total_return <= (i as int) * 0x7fff_ffff_ffff_ffff,
                -(i as int) * 0x8000_0000_0000_0000 <= total_market_cap <= (i as int) * 0x7fff_ffff_ffff_ffff,
                -(i as int) * 0x8000_0000_0000_0000 <= total_volume <= (i as int) * 0x7fff_ffff_ffff_ffff,
                ids_view(top_performers@) == top_tokens(ids, f, i as nat),
            decreases n - i,
        {
            match &fetched[i] {
                Ok(data) => {
                    total_return = total_return + data.price_change_24h as i128;
                    total_market_cap = total_market_cap + data.market_cap as i128;
                    total_volume = total_volume + data.volume_24h as i128;
                    if data.price_change_24h > TOP_PERFORMER_THRESHOLD {
                        let ghost before = top_performers@;
                        top_performers.push(tokens[i].clone());
                        assert(ids_view(top_performers@) =~= ids_view(before).push(ids[i as int]));
                    }
                },
                Err(_) => {},
            }
            i = i + 1;
        }
        let count = n as u128;
        let average: i64 = if total_return >= 0 {
            let q = (total_return as u128) / count;
            assert(q <= 0x7fff_ffff_ffff_ffff) by (nonlinear_arith)
                requires
                    q == (total_return as int) / (count as int),
                    0 <= (total_return as int) <= (count as int) * 0x7fff_ffff_ffff_ffff,
                    count > 0,
            ;
            q as i64
        } else {
            let q = ((-total_return) as u128) / count;
            assert(q <= 0x8000_0000_0000_0000) by (nonlinear_arith)
                requires
                    q == (-(total_return as int)) / (count as int),
                    0 < -(total_return as int) <= (count as int) * 0x8000_0000_0000_0000,
                    count > 0,
            ;
            (-(q as i128)) as i64
        };
        CategoryAnalysis {
            category: String::from_str(category),
            average_return_24h: average,
            total_market_cap,
            total_volume,
            top_performers,
            sentiment_score: self.sentiment_of(category),
        }
    }
}

} // verus!
