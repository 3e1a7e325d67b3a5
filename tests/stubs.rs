use social_ai_agent::text::{push_decimal, push_fixed2};
use social_ai_agent::{AiProjectAnalyzer, DefiAnalyzer};

#[test]
fn protocol_summary_is_zero() {
    let d = DefiAnalyzer::new();
    assert_eq!(d.analyze_protocol("aave").unwrap(), "Protocol: aave\nTVL: $0.00M\nAPY: 0.00%");
    assert_eq!(d.analyze_protocol("").unwrap(), "Protocol: \nTVL: $0.00M\nAPY: 0.00%");
}

#[test]
fn project_summary_is_zero() {
    let a = AiProjectAnalyzer::new();
    assert_eq!(
        a.analyze_project("ocean-protocol").unwrap(),
        "AI Project: ocean-protocol\nGithub Activity: 0\nSocial Score: 0"
    );
}

#[test]
fn decimal_text() {
    let mut s = String::from("n=");
    push_decimal(&mut s, 0);
    s.push(' ');
    push_decimal(&mut s, 1207);
    s.push(' ');
    push_decimal(&mut s, u64::MAX);
    assert_eq!(s, "n=0 1207 18446744073709551615");
}

#[test]
fn fixed_two_decimal_text() {
    let mut s = String::new();
    push_fixed2(&mut s, 0);
    s.push(' ');
    push_fixed2(&mut s, 5);
    s.push(' ');
    push_fixed2(&mut s, 123456);
    assert_eq!(s, "0.00 0.05 1234.56");
}
