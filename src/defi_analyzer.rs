use vstd::prelude::*;
use crate::market::MarketError;
use crate::text::{fixed2, push_fixed2};

verus! {

/// The summary of a protocol with total value locked `tvl` (in hundredths of a
/// million US dollars) and yield `apy` (in hundredths of a percent).
pub open spec fn protocol_summary(token_id: Seq<char>, tvl: nat, apy: nat) -> Seq<char> {
    "Protocol: "@ + token_id + "\nTVL: $"@ + fixed2(tvl) + "M\nAPY: "@ + fixed2(apy) + "%"@
}

/// With both metrics zero, the summary has one fixed shape whatever the protocol.
pub proof fn lemma_zero_protocol_summary(token_id: Seq<char>)
    ensures
        protocol_summary(token_id, 0, 0) == "Protocol: "@ + token_id + "\nTVL: $0.00M\nAPY: 0.00%"@,
{
    reveal_strlit("Protocol: ");
    reveal_strlit("\nTVL: $");
    reveal_strlit("M\nAPY: ");
    reveal_strlit("%");
    reveal_strlit("\nTVL: $0.00M\nAPY: 0.00%");
    assert(fixed2(0) =~= seq!['0', '.', '0', '0']);
    assert(protocol_summary(token_id, 0, 0) =~= "Protocol: "@ + token_id + "\nTVL: $0.00M\nAPY: 0.00%"@);
}

/// Summarises DeFi protocols by their total value locked and yield. No data
/// source is wired in yet: both metrics read as zero.
pub struct DefiAnalyzer {
    tvl_threshold: u64,
}

impl DefiAnalyzer {
    /// The total value locked (in hundredths of a million US dollars) from which
    /// a protocol counts as large.
    pub closed spec fn threshold(&self) -> nat {
        self.tvl_threshold as nat
    }

    /// An analyzer with a threshold of $100M.
    pub fn new() -> (r: Self)
        ensures
            r.threshold() == 10_000,
    {
        DefiAnalyzer { tvl_threshold: 10_000 }
    }

    /// The summary of `token_id`, whose metrics are all zero.
    pub fn analyze_protocol(&self, token_id: &str) -> (r: Result<String, MarketError>)
        ensures
            r matches Ok(s) && s@ == protocol_summary(token_id@, 0, 0),
    {
        let tvl = self.fetch_tvl(token_id);
        let apy = self.fetch_apy(token_id);
        let mut s = String::from_str("Protocol: ");
        s.append(token_id);
        s.append("\nTVL: $");
        push_fixed2(&mut s, tvl);
        s.append("M\nAPY: ");
        push_fixed2(&mut s, apy);
        s.append("%");
        Ok(s)
    }

    fn fetch_tvl(&self, _token_id: &str) -> (r: u64)
        ensures
            r == 0,
    {
        0
    }

    fn fetch_apy(&self, _token_id: &str) -> (r: u64)
        ensures
            r == 0,
    {
        0
    }
}

} // verus!
