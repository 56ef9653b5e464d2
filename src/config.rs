use crate::async_client::AsyncMqttClient;
use crate::error::{ConfigProblem, SessionError};
use crate::session::SyncMqttClient;
use vstd::prelude::*;

verus! {

/// The parameters of a session, as mathematical values.
pub struct ConfigModel {
    pub host: Seq<char>,
    pub client_id: Seq<char>,
    pub sub_topic: Seq<char>,
    pub pub_topic: Seq<char>,
    pub quality_of_service: int,
    pub clean_session: bool,
    pub last_will_and_testament: Seq<char>,
}

/// The first problem found in a configuration, checked in field order, or
/// `None` when the configuration can be used.
pub open spec fn config_problem(c: ConfigModel) -> Option<ConfigProblem> {
    if c.host.len() == 0 {
        Some(ConfigProblem::EmptyHost)
    } else if c.client_id.len() == 0 {
        Some(ConfigProblem::EmptyClientId)
    } else if c.sub_topic.len() == 0 {
        Some(ConfigProblem::EmptySubscribedTopic)
    } else if c.pub_topic.len() == 0 {
        Some(ConfigProblem::EmptyPublishingTopic)
    } else if !(0 <= c.quality_of_service <= 2) {
        Some(ConfigProblem::QualityOfServiceOutOfRange)
    } else {
        None
    }
}

/// Non-empty host, client id and topics, and a quality of service in 0..=2.
pub open spec fn valid_config(c: ConfigModel) -> bool {
    config_problem(c) is None
}

/// The configuration that both builders start from.
pub open spec fn default_config() -> ConfigModel {
    ConfigModel {
        host: "test.mosquitto.org:1883"@,
        client_id: "default_client_id"@,
        sub_topic: "default"@,
        pub_topic: "default"@,
        quality_of_service: 2,
        clean_session: true,
        last_will_and_testament: "default_lwt"@,
    }
}

/// A validated configuration, frozen once built.
pub struct SessionConfig {
    host: String,
    client_id: String,
    sub_topic: String,
    pub_topic: String,
    quality_of_service: i32,
    clean_session: bool,
    last_will_and_testament: String,
}

impl View for SessionConfig {
    type V = ConfigModel;

    closed spec fn view(&self) -> ConfigModel {
        ConfigModel {
            host: self.host@,
            client_id: self.client_id@,
            sub_topic: self.sub_topic@,
            pub_topic: self.pub_topic@,
            quality_of_service: self.quality_of_service as int,
            clean_session: self.clean_session,
            last_will_and_testament: self.last_will_and_testament@,
        }
    }
}

impl SessionConfig {
    #[verifier::type_invariant]
    spec fn inv(&self) -> bool {
        valid_config(self@)
    }

    /// Checks the parameters and freezes them, before any I/O.
    pub(crate) fn validated(
        host: String,
        client_id: String,
        sub_topic: String,
        pub_topic: String,
        quality_of_service: i32,
        clean_session: bool,
        last_will_and_testament: String,
    ) -> (r: Result<SessionConfig, ConfigProblem>)
        ensures
            ({
                let c = ConfigModel {
                    host: host@,
                    client_id: client_id@,
                    sub_topic: sub_topic@,
                    pub_topic: pub_topic@,
                    quality_of_service: quality_of_service as int,
                    clean_session,
                    last_will_and_testament: last_will_and_testament@,
                };
                match r {
                    Ok(config) => config_problem(c) is None && config@ == c,
                    Err(problem) => config_problem(c) == Some(problem),
                }
            }),
    {
        if host.as_str().is_empty() {
            return Err(ConfigProblem::EmptyHost);
        }
        if client_id.as_str().is_empty() {
            return Err(ConfigProblem::EmptyClientId);
        }
        if sub_topic.as_str().is_empty() {
            return Err(ConfigProblem::EmptySubscribedTopic);
        }
        if pub_topic.as_str().is_empty() {
            return Err(ConfigProblem::EmptyPublishingTopic);
        }
        if quality_of_service < 0 || quality_of_service > 2 {
            return Err(ConfigProblem::QualityOfServiceOutOfRange);
        }
        Ok(
            SessionConfig {
                host,
                client_id,
                sub_topic,
                pub_topic,
                quality_of_service,
                clean_session,
                last_will_and_testament,
            },
        )
    }

    pub fn host(&self) -> (r: &str)
        ensures
            r@ == self@.host,
    {
        self.host.as_str()
    }

    pub fn client_id(&self) -> (r: &str)
        ensures
            r@ == self@.client_id,
    {
        self.client_id.as_str()
    }

    pub fn sub_topic(&self) -> (r: &str)
        ensures
            r@ == self@.sub_topic,
    {
        self.sub_topic.as_str()
    }

    pub fn pub_topic(&self) -> (r: &str)
        ensures
            r@ == self@.pub_topic,
    {
        self.pub_topic.as_str()
    }

    pub fn quality_of_service(&self) -> (r: i32)
        ensures
            r as int == self@.quality_of_service,
    {
        self.quality_of_service
    }

    pub fn clean_session(&self) -> (r: bool)
        ensures
            r == self@.clean_session,
    {
        self.clean_session
    }

    pub fn last_will_and_testament(&self) -> (r: &str)
        ensures
            r@ == self@.last_will_and_testament,
    {
        self.last_will_and_testament.as_str()
    }
}

/// Fluent builder of a synchronous session.
pub struct SyncMqttClientBuilder {
    pub host: String,
    pub sub_topic: String,
    pub pub_topic: String,
    pub quality_of_service: i32,
    pub client_id: String,
    pub clean_session: bool,
    pub last_will_and_testament: String,
}

impl View for SyncMqttClientBuilder {
    type V = ConfigModel;

    open spec fn view(&self) -> ConfigModel {
        ConfigModel {
            host: self.host@,
            client_id: self.client_id@,
            sub_topic: self.sub_topic@,
            pub_topic: self.pub_topic@,
            quality_of_service: self.quality_of_service as int,
            clean_session: self.clean_session,
            last_will_and_testament: self.last_will_and_testament@,
        }
    }
}

impl SyncMqttClientBuilder {
    pub fn new_with_defaults() -> (r: Self)
        ensures
            r@ == default_config(),
    {
        SyncMqttClientBuilder {
            host: "test.mosquitto.org:1883".to_owned(),
            sub_topic: "default".to_owned(),
            pub_topic: "default".to_owned(),
            last_will_and_testament: "default_lwt".to_owned(),
            client_id: "default_client_id".to_owned(),
            quality_of_service: 2,
            clean_session: true,
        }
    }

    pub fn with_client_id(self, client_id: &str) -> (r: Self)
        ensures
            r@ == (ConfigModel { client_id: client_id@, ..self@ }),
    {
        let mut b = self;
        b.client_id = client_id.to_owned();
        b
    }

    pub fn with_host(self, host: &str) -> (r: Self)
        ensures
            r@ == (ConfigModel { host: host@, ..self@ }),
    {
        let mut b = self;
        b.host = host.to_owned();
        b
    }

    pub fn with_subscribed_topic(self, sub_topic: &str) -> (r: Self)
        ensures
            r@ == (ConfigModel { sub_topic: sub_topic@, ..self@ }),
    {
        let mut b = self;
        b.sub_topic = sub_topic.to_owned();
        b
    }

    pub fn with_publishing_topic(self, pub_topic: &str) -> (r: Self)
        ensures
            r@ == (ConfigModel { pub_topic: pub_topic@, ..self@ }),
    {
        let mut b = self;
        b.pub_topic = pub_topic.to_owned();
        b
    }

    pub fn with_last_will_and_testament(self, last_will_and_testament: &str) -> (r: Self)
        ensures
            r@ == (ConfigModel { last_will_and_testament: last_will_and_testament@, ..self@ }),
    {
        let mut b = self;
        b.last_will_and_testament = last_will_and_testament.to_owned();
        b
    }

    pub fn with_clean_session(self, users_choice: bool) -> (r: Self)
        ensures
            r@ == (ConfigModel { clean_session: users_choice, ..self@ }),
    {
        let mut b = self;
        b.clean_session = users_choice;
        b
    }

    pub fn with_quality_of_service(self, qos: i32) -> (r: Self)
        ensures
            r@ == (ConfigModel { quality_of_service: qos as int, ..self@ }),
    {
        let mut b = self;
        b.quality_of_service = qos;
        b
    }

    /// Validates the configuration and creates a disconnected session with
    /// an empty inbound queue. No I/O is done here.
    pub fn build(self) -> (r: Result<SyncMqttClient, SessionError>)
        ensures
            match r {
                Ok(client) => valid_config(self@) && client@ == SyncMqttClient::fresh_model(self@),
                Err(e) => config_problem(self@) matches Some(p) && e == SessionError::ConfigError(p),
            },
    {
        match SessionConfig::validated(
            self.host,
            self.client_id,
            self.sub_topic,
            self.pub_topic,
            self.quality_of_service,
            self.clean_session,
            self.last_will_and_testament,
        ) {
            Ok(config) => Ok(SyncMqttClient::from_config(config)),
            Err(problem) => Err(SessionError::ConfigError(problem)),
        }
    }
}

/// Fluent builder of an asynchronous client.
pub struct AsyncMqttClientBuilder {
    pub host: String,
    pub sub_topic: String,
    pub pub_topic: String,
    pub quality_of_service: i32,
    pub client_id: String,
    pub clean_session: bool,
    pub last_will_and_testament: String,
}

impl View for AsyncMqttClientBuilder {
    type V = ConfigModel;

    open spec fn view(&self) -> ConfigModel {
        ConfigModel {
            host: self.host@,
            client_id: self.client_id@,
            sub_topic: self.sub_topic@,
            pub_topic: self.pub_topic@,
            quality_of_service: self.quality_of_service as int,
            clean_session: self.clean_session,
            last_will_and_testament: self.last_will_and_testament@,
        }
    }
}

impl AsyncMqttClientBuilder {
    pub fn new_with_defaults() -> (r: Self)
        ensures
            r@ == default_config(),
    {
        AsyncMqttClientBuilder {
            host: "test.mosquitto.org:1883".to_owned(),
            sub_topic: "default".to_owned(),
            pub_topic: "default".to_owned(),
            last_will_and_testament: "default_lwt".to_owned(),
            client_id: "default_client_id".to_owned(),
            quality_of_service: 2,
            clean_session: true,
        }
    }

    pub fn with_client_id(self, client_id: &str) -> (r: Self)
        ensures
            r@ == (ConfigModel { client_id: client_id@, ..self@ }),
    {
        let mut b = self;
        b.client_id = client_id.to_owned();
        b
    }

    pub fn with_host(self, host: &str) -> (r: Self)
        ensures
            r@ == (ConfigModel { host: host@, ..self@ }),
    {
        let mut b = self;
        b.host = host.to_owned();
        b
    }

    pub fn with_subscribed_topic(self, sub_topic: &str) -> (r: Self)
        ensures
            r@ == (ConfigModel { sub_topic: sub_topic@, ..self@ }),
    {
        let mut b = self;
        b.sub_topic = sub_topic.to_owned();
        b
    }

    pub fn with_publishing_topic(self, pub_topic: &str) -> (r: Self)
        ensures
            r@ == (ConfigModel { pub_topic: pub_topic@, ..self@ }),
    {
        let mut b = self;
        b.pub_topic = pub_topic.to_owned();
        b
    }

    pub fn with_last_will_and_testament(self, last_will_and_testament: &str) -> (r: Self)
        ensures
            r@ == (ConfigModel { last_will_and_testament: last_will_and_testament@, ..self@ }),
    {
        let mut b = self;
        b.last_will_and_testament = last_will_and_testament.to_owned();
        b
    }

    pub fn with_clean_session(self, users_choice: bool) -> (r: Self)
        ensures
            r@ == (ConfigModel { clean_session: users_choice, ..self@ }),
    {
        let mut b = self;
        b.clean_session = users_choice;
        b
    }

    pub fn with_quality_of_service(self, qos: i32) -> (r: Self)
        ensures
            r@ == (ConfigModel { quality_of_service: qos as int, ..self@ }),
    {
        let mut b = self;
        b.quality_of_service = qos;
        b
    }

    /// Validates the configuration, before any I/O, and keeps what the
    /// asynchronous client needs of it; messages are persisted, as the
    /// transport does by default.
    pub fn build(self) -> (r: Result<AsyncMqttClient, SessionError>)
        ensures
            match r {
                Ok(client) => valid_config(self@) && client.host@ == self@.host
                    && client.client_id@ == self@.client_id && client.sub_topic@
                    == self@.sub_topic && client.quality_of_service as int
                    == self@.quality_of_service && client.persist_messages,
                Err(e) => config_problem(self@) matches Some(p) && e == SessionError::ConfigError(p),
            },
    {
        match SessionConfig::validated(
            self.host,
            self.client_id,
            self.sub_topic,
            self.pub_topic,
            self.quality_of_service,
            self.clean_session,
            self.last_will_and_testament,
        ) {
            Ok(config) => Ok(
                AsyncMqttClient {
                    host: config.host().to_owned(),
                    client_id: config.client_id().to_owned(),
                    sub_topic: config.sub_topic().to_owned(),
                    quality_of_service: config.quality_of_service(),
                    persist_messages: true,
                },
            ),
            Err(problem) => Err(SessionError::ConfigError(problem)),
        }
    }
}

} // verus!
