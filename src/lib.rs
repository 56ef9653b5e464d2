//! A resilient publish/subscribe session manager.
//!
//! The library holds the decisions of a session: configuration and its
//! validation, the connection lifecycle, the bounded reconnection policy and
//! the matching of inbound messages. The transport that talks to the broker
//! is driven by the caller, which performs the requests that the session
//! hands out and reports back what happened.
mod async_client;
mod config;
mod error;
mod guarantees;
mod inbound;
mod reconnect;
mod session;

pub use async_client::{create_connecting_options, AsyncMqttClient};
pub use config::{
    config_problem, default_config, valid_config, AsyncMqttClientBuilder, ConfigModel,
    SessionConfig, SyncMqttClientBuilder,
};
pub use error::{ConfigProblem, SessionError};
pub use guarantees::{
    after_failed_attempts, lemma_built_session_waits_for_connect,
    lemma_counter_reset_by_disconnect_and_connect, lemma_failed_connect_is_disconnected,
    lemma_failing_transport_bounded_cycle, lemma_inbound_order_kept,
    lemma_reconnect_when_connected_is_noop, lemma_transitions_keep_well_formed,
};
pub use inbound::{decode_payload, payload_matches, payload_verdict, InboundMessage};
pub use reconnect::{ReconnectStep, MAX_RECONNECT_ATTEMPTS, RECONNECT_DELAY_MS};
pub use session::{
    connect_finished, connect_request_for, connect_started, disconnected, link_observed,
    message_delivered, message_received, reconnect_resolved, reconnect_started, ConnectRequest,
    LinkState, PublishRequest, SessionModel, SubscribeRequest, SyncMqttClient, KEEP_ALIVE_SECS,
    MQTT_VERSION_3_1_1, MQTT_VERSION_DEFAULT,
};
