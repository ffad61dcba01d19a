use kafka_probe::args::{CommonArgs, ConsumerArgs};
use kafka_probe::config::{consumer_config, producer_config, BOOTSTRAP_SERVERS, GROUP_ID};

fn common() -> CommonArgs {
    CommonArgs {
        kafka_topic_name: "t".to_string(),
        kafka_bootstrap_servers: "broker-1:9092,broker-2:9092".to_string(),
    }
}

#[test]
fn producer_is_configured_with_the_brokers_only() {
    let config = producer_config(&common());
    assert_eq!(config.get("bootstrap.servers"), Some("broker-1:9092,broker-2:9092"));
    assert_eq!(config.config_map().len(), 1);
}

#[test]
fn consumer_is_configured_with_brokers_and_group() {
    let args = ConsumerArgs { kafka_group_id: "readers".to_string() };
    let config = consumer_config(&common(), &args);
    assert_eq!(config.get("bootstrap.servers"), Some("broker-1:9092,broker-2:9092"));
    assert_eq!(config.get("group.id"), Some("readers"));
    assert_eq!(config.config_map().len(), 2);
}

#[test]
fn parameter_names_are_the_client_s() {
    assert_eq!(BOOTSTRAP_SERVERS, "bootstrap.servers");
    assert_eq!(GROUP_ID, "group.id");
}
