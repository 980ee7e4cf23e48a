use michiru::utils::valid_topic_id;

#[test]
fn identifier_validation() {
    assert!(valid_topic_id("sensor-1"));
    assert!(!valid_topic_id("Sensor1"));
    assert!(!valid_topic_id("-sensor"));
    assert!(!valid_topic_id("sensor-"));
    assert!(!valid_topic_id(""));
}

#[test]
fn identifier_edges() {
    assert!(valid_topic_id("a"));
    assert!(valid_topic_id("0"));
    assert!(valid_topic_id("a-b-c-0"));
    assert!(!valid_topic_id("-"));
    assert!(!valid_topic_id("with space"));
    assert!(!valid_topic_id("under_score"));
    assert!(!valid_topic_id("sl/ash"));
    assert!(!valid_topic_id("umläut"));
}
