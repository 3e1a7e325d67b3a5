use vstd::prelude::*;

pub mod ai_analyzer;
pub mod defi_analyzer;
pub mod lookup;
pub mod market;
pub mod quote;
pub mod text;

pub use ai_analyzer::AiProjectAnalyzer;
pub use defi_analyzer::DefiAnalyzer;
pub use market::{CategoryAnalysis, MarketAnalyzer, MarketError, TokenData};

verus! {

} // verus!
