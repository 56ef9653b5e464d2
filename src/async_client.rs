use crate::error::{ConfigProblem, SessionError};
use crate::session::{ConnectRequest, PublishRequest, KEEP_ALIVE_SECS, MQTT_VERSION_3_1_1};
use vstd::prelude::*;

verus! {

/// The parameters of an asynchronous client, whose transport reports through
/// callbacks.
pub struct AsyncMqttClient {
    pub host: String,
    pub client_id: String,
    pub sub_topic: String,
    pub quality_of_service: i32,
    /// Whether the transport keeps unacknowledged messages on disk.
    pub persist_messages: bool,
}

impl AsyncMqttClient {
    /// The answering side of the ping/pong exchange on `host`: client id
    /// `async_pong`, listening on `ping-ask` with exactly-once delivery and
    /// no message persistence.
    pub fn new(host: &str) -> (r: Result<AsyncMqttClient, SessionError>)
        ensures
            match r {
                Ok(client) => host@.len() > 0 && client.host@ == host@ && client.client_id@
                    == "async_pong"@ && client.sub_topic@ == "ping-ask"@
                    && client.quality_of_service == 2 && !client.persist_messages,
                Err(e) => host@.len() == 0 && e == SessionError::ConfigError(
                    ConfigProblem::EmptyHost,
                ),
            },
    {
        if host.is_empty() {
            return Err(SessionError::ConfigError(ConfigProblem::EmptyHost));
        }
        Ok(
            AsyncMqttClient {
                host: host.to_owned(),
                client_id: "async_pong".to_owned(),
                sub_topic: "ping-ask".to_owned(),
                quality_of_service: 2,
                persist_messages: false,
            },
        )
    }

    /// The publication of `message` on `topic` with exactly-once delivery.
    pub fn publish_pong(&self, topic: &str, message: &str) -> (r: PublishRequest)
        ensures
            r.topic@ == topic@,
            r.payload@ == message@,
            r.qos == 2,
    {
        PublishRequest { topic: topic.to_owned(), payload: message.to_owned(), qos: 2 }
    }
}

/// The connect request of the asynchronous pinger: MQTT 3.1.1, a clean
/// session, the fixed keep-alive, and a last will of `will_payload` on
/// `topic` at the lowest delivery level.
pub fn create_connecting_options(topic: &str, will_payload: &str) -> (r: ConnectRequest)
    ensures
        r.will_topic@ == topic@,
        r.will_payload@ == will_payload@,
        r.will_qos == 0,
        r.keep_alive_secs == KEEP_ALIVE_SECS,
        r.clean_session,
        r.mqtt_version == MQTT_VERSION_3_1_1,
{
    ConnectRequest {
        will_topic: topic.to_owned(),
        will_payload: will_payload.to_owned(),
        will_qos: 0,
        keep_alive_secs: KEEP_ALIVE_SECS,
        clean_session: true,
        mqtt_version: MQTT_VERSION_3_1_1,
    }
}

} // verus!
