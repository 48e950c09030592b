use risk_items::classify::{classify, level_of_score, score_of_bytes, RiskLevel};

#[test]
fn fraud_names_score_high() {
    let (score, level) = classify("fraud-ring");
    assert_eq!(score, 90);
    assert_eq!(level, RiskLevel::High);
    assert_eq!(level.name(), "HIGH");
}

#[test]
fn matching_is_case_insensitive() {
    let (score, level) = classify("FrAuD alert");
    assert_eq!(score, 90);
    assert_eq!(level, RiskLevel::High);
    let (score, level) = classify("SCAM!");
    assert_eq!(score, 90);
    assert_eq!(level, RiskLevel::High);
}

#[test]
fn test_and_dummy_win_over_fraud() {
    let (score, level) = classify("test-fraud-case");
    assert_eq!(score, 10);
    assert_eq!(level, RiskLevel::Low);
    let (score, level) = classify("DUMMY scam");
    assert_eq!(score, 10);
    assert_eq!(level, RiskLevel::Low);
}

#[test]
fn empty_name_scores_low() {
    let (score, level) = classify("");
    assert_eq!(score, 30);
    assert_eq!(level, RiskLevel::Low);
    assert_eq!(level.name(), "LOW");
}

#[test]
fn flagged_names_score_medium() {
    let (score, level) = classify("flagged-transfer");
    assert_eq!(score, 70);
    assert_eq!(level, RiskLevel::Medium);
    assert_eq!(level.name(), "MEDIUM");
    let (score, level) = classify("RISKY deal");
    assert_eq!(score, 70);
    assert_eq!(level, RiskLevel::Medium);
}

#[test]
fn plain_names_score_default() {
    let (score, level) = classify("groceries");
    assert_eq!(score, 30);
    assert_eq!(level, RiskLevel::Low);
}

#[test]
fn classification_is_deterministic() {
    for _ in 0..3 {
        assert_eq!(classify("fraud").0, 90);
        assert_eq!(classify("x").0, 30);
    }
}

#[test]
fn non_ascii_names_are_total() {
    let (score, level) = classify("zürich-crêpes");
    assert_eq!(score, 30);
    assert_eq!(level, RiskLevel::Low);
    let (score, _) = classify("FRAUDé");
    assert_eq!(score, 90);
}

#[test]
fn level_thresholds() {
    assert_eq!(level_of_score(80), RiskLevel::High);
    assert_eq!(level_of_score(79), RiskLevel::Medium);
    assert_eq!(level_of_score(50), RiskLevel::Medium);
    assert_eq!(level_of_score(49), RiskLevel::Low);
    assert_eq!(level_of_score(0), RiskLevel::Low);
    assert_eq!(level_of_score(100), RiskLevel::High);
}

#[test]
fn scoring_works_on_raw_bytes() {
    assert_eq!(score_of_bytes("contains scam word".as_bytes()), 90);
    assert_eq!(score_of_bytes(&[]), 30);
}
