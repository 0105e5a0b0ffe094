use optimizely::decision::DecideOptions;
use optimizely::Decision;

#[test]
fn off_decision_has_the_sentinel_fields() {
    let decision = Decision::off("buy_button");
    assert_eq!(decision.flag_key(), "buy_button");
    assert!(!decision.enabled());
    assert_eq!(decision.variation_key(), "off");
    assert_eq!(decision.campaign_id(), "-1");
    assert_eq!(decision.experiment_id(), "-1");
    assert_eq!(decision.variation_id(), "-1");
}

#[test]
fn decision_keeps_its_fields() {
    let decision = Decision::new("flag", "campaign", "experiment", "variation", "key", true);
    assert_eq!(decision.flag_key(), "flag");
    assert_eq!(decision.campaign_id(), "campaign");
    assert_eq!(decision.experiment_id(), "experiment");
    assert_eq!(decision.variation_id(), "variation");
    assert_eq!(decision.variation_key(), "key");
    assert!(decision.enabled());
    let copy = decision.clone();
    assert_eq!(copy.flag_key(), "flag");
    assert_eq!(copy.variation_id(), "variation");
    assert!(copy.enabled());
}

#[test]
fn default_options_report_decisions() {
    let options = DecideOptions::default();
    assert!(!options.disable_decision_event);
}
