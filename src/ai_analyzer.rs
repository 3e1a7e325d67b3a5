use vstd::prelude::*;
use crate::market::MarketError;
use crate::text::{decimal, push_decimal};

verus! {

/// The summary of a project with `activity` recent repository events and social
/// score `social`.
pub open spec fn project_summary(token_id: Seq<char>, activity: nat, social: nat) -> Seq<char> {
    "AI Project: "@ + token_id + "\nGithub Activity: "@ + decimal(activity) + "\nSocial Score: "@
        + decimal(social)
}

/// With both metrics zero, the summary has one fixed shape whatever the project.
pub proof fn lemma_zero_project_summary(token_id: Seq<char>)
    ensures
        project_summary(token_id, 0, 0) == "AI Project: "@ + token_id
            + "\nGithub Activity: 0\nSocial Score: 0"@,
{
    reveal_strlit("\nGithub Activity: ");
    reveal_strlit("\nSocial Score: ");
    reveal_strlit("\nGithub Activity: 0\nSocial Score: 0");
    assert(decimal(0) =~= seq!['0']);
    assert(project_summary(token_id, 0, 0) =~= "AI Project: "@ + token_id
        + "\nGithub Activity: 0\nSocial Score: 0"@);
}

/// Summarises AI projects by developer activity and social reach. No data
/// source is wired in yet: both metrics read as zero.
pub struct AiProjectAnalyzer {}

impl AiProjectAnalyzer {
    pub fn new() -> (r: Self) {
        AiProjectAnalyzer {  }
    }

    /// The summary of `token_id`, whose metrics are all zero.
    pub fn analyze_project(&self, token_id: &str) -> (r: Result<String, MarketError>)
        ensures
            r matches Ok(s) && s@ == project_summary(token_id@, 0, 0),
    {
        let activity = self.fetch_github_activity(token_id);
        let social = self.fetch_social_metrics(token_id);
        let mut s = String::from_str("AI Project: ");
        s.append(token_id);
        s.append("\nGithub Activity: ");
        push_decimal(&mut s, activity as u64);
        s.append("\nSocial Score: ");
        push_decimal(&mut s, social);
        Ok(s)
    }

    fn fetch_github_activity(&self, _token_id: &str) -> (r: u32)
        ensures
            r == 0,
    {
        0
    }

    fn fetch_social_metrics(&self, _token_id: &str) -> (r: u64)
        ensures
            r == 0,
    {
        0
    }
}

} // verus!
