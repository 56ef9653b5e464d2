use mqtt_session::{AsyncMqttClient, AsyncMqttClientBuilder, ConfigProblem, SessionError, SyncMqttClientBuilder};

fn pinger() -> SyncMqttClientBuilder {
    SyncMqttClientBuilder::new_with_defaults()
        .with_host("test.mosquitto.org:1883")
        .with_client_id("Synchronised pinger")
        .with_publishing_topic("ping-ask")
        .with_subscribed_topic("pong-response")
        .with_last_will_and_testament("the synchronised pinger lost the connection")
        .with_quality_of_service(2)
        .with_clean_session(true)
}

#[test]
fn defaults_are_the_public_test_broker() {
    let b = SyncMqttClientBuilder::new_with_defaults();
    assert_eq!(b.host, "test.mosquitto.org:1883");
    assert_eq!(b.sub_topic, "default");
    assert_eq!(b.pub_topic, "default");
    assert_eq!(b.client_id, "default_client_id");
    assert_eq!(b.last_will_and_testament, "default_lwt");
    assert_eq!(b.quality_of_service, 2);
    assert!(b.clean_session);
}

#[test]
fn setters_change_one_field_each() {
    let b = pinger().with_quality_of_service(1).with_clean_session(false);
    assert_eq!(b.host, "test.mosquitto.org:1883");
    assert_eq!(b.client_id, "Synchronised pinger");
    assert_eq!(b.pub_topic, "ping-ask");
    assert_eq!(b.sub_topic, "pong-response");
    assert_eq!(b.last_will_and_testament, "the synchronised pinger lost the connection");
    assert_eq!(b.quality_of_service, 1);
    assert!(!b.clean_session);
}

#[test]
fn valid_configuration_builds_an_idle_session() {
    let client = pinger().build().unwrap();
    assert!(!client.is_connected());
    assert_eq!(client.pending(), 0);
    assert_eq!(client.subscribe().err(), Some(SessionError::SubscriptionError));
    assert_eq!(client.publish("ping").err(), Some(SessionError::PublishError));
    let config = client.config();
    assert_eq!(config.host(), "test.mosquitto.org:1883");
    assert_eq!(config.client_id(), "Synchronised pinger");
    assert_eq!(config.sub_topic(), "pong-response");
    assert_eq!(config.pub_topic(), "ping-ask");
    assert_eq!(config.quality_of_service(), 2);
    assert!(config.clean_session());
    assert_eq!(config.last_will_and_testament(), "the synchronised pinger lost the connection");
}

#[test]
fn every_quality_of_service_level_builds() {
    for qos in 0..=2 {
        assert!(pinger().with_quality_of_service(qos).build().is_ok());
    }
}

#[test]
fn empty_last_will_is_accepted() {
    assert!(pinger().with_last_will_and_testament("").build().is_ok());
}

#[test]
fn empty_host_is_refused() {
    let r = pinger().with_host("").build();
    assert_eq!(r.err(), Some(SessionError::ConfigError(ConfigProblem::EmptyHost)));
}

#[test]
fn empty_client_id_is_refused() {
    let r = pinger().with_client_id("").build();
    assert_eq!(r.err(), Some(SessionError::ConfigError(ConfigProblem::EmptyClientId)));
}

#[test]
fn empty_subscribed_topic_is_refused() {
    let r = pinger().with_subscribed_topic("").build();
    assert_eq!(r.err(), Some(SessionError::ConfigError(ConfigProblem::EmptySubscribedTopic)));
}

#[test]
fn empty_publishing_topic_is_refused() {
    let r = pinger().with_publishing_topic("").build();
    assert_eq!(r.err(), Some(SessionError::ConfigError(ConfigProblem::EmptyPublishingTopic)));
}

#[test]
fn quality_of_service_out_of_range_is_refused() {
    for qos in [-1, 3, i32::MAX, i32::MIN] {
        let r = pinger().with_quality_of_service(qos).build();
        assert_eq!(
            r.err(),
            Some(SessionError::ConfigError(ConfigProblem::QualityOfServiceOutOfRange))
        );
    }
}

#[test]
fn first_problem_in_field_order_is_reported() {
    let r = pinger().with_host("").with_quality_of_service(7).build();
    assert_eq!(r.err(), Some(SessionError::ConfigError(ConfigProblem::EmptyHost)));
}

#[test]
fn async_builder_keeps_what_the_client_needs() {
    let client = AsyncMqttClientBuilder::new_with_defaults()
        .with_host("test.mosquitto.org:1883")
        .with_client_id("Synchronised ponger")
        .with_publishing_topic("pong-response")
        .with_subscribed_topic("ping-ask")
        .with_last_will_and_testament("the synchronised ponger lost the connection")
        .with_quality_of_service(1)
        .with_clean_session(true)
        .build()
        .unwrap();
    assert_eq!(client.host, "test.mosquitto.org:1883");
    assert_eq!(client.client_id, "Synchronised ponger");
    assert_eq!(client.sub_topic, "ping-ask");
    assert_eq!(client.quality_of_service, 1);
    assert!(client.persist_messages);
}

#[test]
fn async_builder_refuses_bad_quality_of_service() {
    let r = AsyncMqttClientBuilder::new_with_defaults().with_quality_of_service(5).build();
    assert_eq!(
        r.err(),
        Some(SessionError::ConfigError(ConfigProblem::QualityOfServiceOutOfRange))
    );
}

#[test]
fn async_client_new_answers_pings() {
    let client = AsyncMqttClient::new("tcp://localhost:1883").unwrap();
    assert_eq!(client.host, "tcp://localhost:1883");
    assert_eq!(client.client_id, "async_pong");
    assert_eq!(client.sub_topic, "ping-ask");
    assert_eq!(client.quality_of_service, 2);
    assert!(!client.persist_messages);
    let req = client.publish_pong("pong-response", "pong");
    assert_eq!(req.topic, "pong-response");
    assert_eq!(req.payload, "pong");
    assert_eq!(req.qos, 2);
}

#[test]
fn async_client_new_refuses_empty_host() {
    assert_eq!(
        AsyncMqttClient::new("").err(),
        Some(SessionError::ConfigError(ConfigProblem::EmptyHost))
    );
}

#[test]
fn async_pinger_connect_options() {
    let req = mqtt_session::create_connecting_options(
        "pong-response",
        "the asynchronized pinger lost connection",
    );
    assert_eq!(req.will_topic, "pong-response");
    assert_eq!(req.will_payload, "the asynchronized pinger lost connection");
    assert_eq!(req.will_qos, 0);
    assert_eq!(req.keep_alive_secs, 20);
    assert!(req.clean_session);
    assert_eq!(req.mqtt_version, 4);
    assert_eq!(req.mqtt_version, mqtt_session::MQTT_VERSION_3_1_1);
}
