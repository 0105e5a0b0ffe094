use optimizely::datafile::{
    Datafile, Event, Experiment, FeatureFlag, Rollout, TrafficAllocation, TrafficRange, Variation,
};

fn allocation(rows: &[(u64, &str)]) -> TrafficAllocation {
    let ranges = rows.iter().map(|(end, id)| TrafficRange::new(*end, id)).collect();
    TrafficAllocation::new(ranges).expect("the ends grow strictly")
}

#[test]
fn traffic_allocation_needs_strictly_growing_ends() {
    let equal = vec![TrafficRange::new(5000, "a"), TrafficRange::new(5000, "b")];
    assert!(TrafficAllocation::new(equal).is_none());
    let falling = vec![
        TrafficRange::new(1000, "a"),
        TrafficRange::new(5000, "b"),
        TrafficRange::new(4000, "c"),
    ];
    assert!(TrafficAllocation::new(falling).is_none());
    let growing = vec![TrafficRange::new(1000, "a"), TrafficRange::new(5000, "b")];
    assert!(TrafficAllocation::new(growing).is_some());
    assert!(TrafficAllocation::new(Vec::new()).is_some());
    assert!(TrafficAllocation::new(vec![TrafficRange::new(0, "a")]).is_some());
}

#[test]
fn traffic_allocation_keeps_its_rows() {
    let table = allocation(&[(2500, "a"), (10000, "b")]);
    assert_eq!(table.len(), 2);
    assert_eq!(table.ranges().len(), 2);
    assert_eq!(table.ranges()[0].end_of_range(), 2500);
    assert_eq!(table.ranges()[0].variation_id(), "a");
    assert_eq!(table.ranges()[1].end_of_range(), 10000);
    assert_eq!(table.ranges()[1].variation_id(), "b");
    let copy = table.ranges()[1].clone();
    assert_eq!(copy.end_of_range(), 10000);
    assert_eq!(copy.variation_id(), "b");
}

#[test]
fn traffic_allocation_maps_a_bucket_to_the_first_row_that_ends_above_it() {
    let table = allocation(&[(2500, "a"), (5000, "b"), (7500, "c"), (10000, "d")]);
    assert_eq!(table.variation(0), Some("a"));
    assert_eq!(table.variation(2499), Some("a"));
    assert_eq!(table.variation(2500), Some("b"));
    assert_eq!(table.variation(4999), Some("b"));
    assert_eq!(table.variation(5000), Some("c"));
    assert_eq!(table.variation(7499), Some("c"));
    assert_eq!(table.variation(7500), Some("d"));
    assert_eq!(table.variation(9999), Some("d"));
    assert_eq!(table.variation(10000), None);
    assert_eq!(table.variation(u64::MAX), None);
}

#[test]
fn traffic_allocation_may_leave_the_top_of_the_range_out() {
    let table = allocation(&[(3000, "a")]);
    assert_eq!(table.variation(2999), Some("a"));
    assert_eq!(table.variation(3000), None);
    assert_eq!(table.variation(9999), None);
    let empty = allocation(&[]);
    assert_eq!(empty.variation(0), None);
    let nothing = allocation(&[(0, "a")]);
    assert_eq!(nothing.variation(0), None);
}

#[test]
fn traffic_allocation_agrees_with_a_scan_of_its_rows() {
    let rows: Vec<(u64, String)> = (1..=37u64).map(|i| (i * 270, format!("v{}", i))).collect();
    let table = TrafficAllocation::new(
        rows.iter().map(|(end, id)| TrafficRange::new(*end, id)).collect(),
    )
    .unwrap();
    for bucket_value in 0..10_000u64 {
        let expected = rows.iter().find(|(end, _)| bucket_value < *end).map(|(_, id)| id.as_str());
        assert_eq!(table.variation(bucket_value), expected);
    }
}

#[test]
fn variation_keeps_its_fields() {
    let variation = Variation::new("87757", "primary", true);
    assert_eq!(variation.id(), "87757");
    assert_eq!(variation.key(), "primary");
    assert!(variation.is_feature_enabled());
    let copy = variation.clone();
    assert_eq!(copy.id(), "87757");
    assert!(!Variation::new("1", "off", false).is_feature_enabled());
}

#[test]
fn experiment_finds_a_variation_by_id() {
    let experiment = Experiment::new(
        "9300000169122",
        "9300000133039",
        vec![
            Variation::new("87757", "primary", true),
            Variation::new("87755", "off", false),
            Variation::new("87757", "shadowed", false),
        ],
        allocation(&[(5000, "87757"), (10000, "87755")]),
    );
    assert_eq!(experiment.id(), "9300000169122");
    assert_eq!(experiment.campaign_id(), "9300000133039");
    assert_eq!(experiment.variations().len(), 3);
    assert_eq!(experiment.traffic_allocation().len(), 2);
    assert_eq!(experiment.variation("87757").map(|v| v.key()), Some("primary"));
    assert_eq!(experiment.variation("87755").map(|v| v.key()), Some("off"));
    assert!(experiment.variation("").is_none());
    assert!(experiment.variation("8775").is_none());
}

#[test]
fn feature_flag_keeps_its_fields() {
    let flag = FeatureFlag::new(
        "buy_button",
        Some("rollout1".to_string()),
        vec!["1".to_string(), "2".to_string()],
    );
    assert_eq!(flag.key(), "buy_button");
    assert_eq!(flag.rollout_id(), Some("rollout1"));
    assert_eq!(flag.experiments_ids(), &vec!["1".to_string(), "2".to_string()]);
    let bare = FeatureFlag::new("bare", None, Vec::new());
    assert_eq!(bare.rollout_id(), None);
    assert!(bare.experiments_ids().is_empty());
}

#[test]
fn datafile_looks_up_by_key_and_id() {
    let datafile = Datafile::new(
        "21537940595",
        vec![
            FeatureFlag::new("buy_button", None, Vec::new()),
            FeatureFlag::new("qa_rollout", Some("r".to_string()), Vec::new()),
            FeatureFlag::new("buy_button", Some("later".to_string()), Vec::new()),
        ],
        vec![
            Experiment::new("e1", "c1", Vec::new(), allocation(&[])),
            Experiment::new("e2", "c2", Vec::new(), allocation(&[])),
        ],
        vec![Rollout::new("r", vec![Experiment::new("rule", "c3", Vec::new(), allocation(&[]))])],
        vec![Event::new("22305150298", "purchase"), Event::new("22305150299", "add_to_cart")],
    );
    assert_eq!(datafile.account_id(), "21537940595");
    assert_eq!(datafile.flag("buy_button").map(|f| f.rollout_id()), Some(None));
    assert_eq!(datafile.flag("qa_rollout").map(|f| f.rollout_id()), Some(Some("r")));
    assert!(datafile.flag("missing").is_none());
    assert!(datafile.flag("").is_none());
    assert_eq!(datafile.experiment("e2").map(|e| e.campaign_id()), Some("c2"));
    assert!(datafile.experiment("rule").is_none());
    assert_eq!(datafile.rollout("r").map(|r| r.experiments().len()), Some(1));
    assert_eq!(datafile.rollout("r").map(|r| r.id()), Some("r"));
    assert!(datafile.rollout("").is_none());
    assert_eq!(datafile.event("purchase").map(|e| e.id()), Some("22305150298"));
    assert_eq!(datafile.event("add_to_cart").map(|e| e.key()), Some("add_to_cart"));
    assert!(datafile.event("22305150298").is_none());
}
