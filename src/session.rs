use crate::config::{valid_config, ConfigModel, SessionConfig};
use crate::error::SessionError;
use crate::inbound::{payload_matches, payload_verdict, InboundMessage};
use crate::reconnect::{ReconnectStep, MAX_RECONNECT_ATTEMPTS, RECONNECT_DELAY_MS};
use std::collections::VecDeque;
use vstd::prelude::*;

verus! {

/// The keep-alive interval asked of the transport on connect, in seconds.
pub const KEEP_ALIVE_SECS: u64 = 20;

/// Protocol version code that lets the transport choose: 3.1.1 first, then
/// 3.1.
pub const MQTT_VERSION_DEFAULT: u32 = 0;

/// Protocol version code of MQTT 3.1.1.
pub const MQTT_VERSION_3_1_1: u32 = 4;

/// Where a session stands with respect to the broker.
#[derive(Clone, Copy, Debug, PartialEq, Eq, Structural)]
pub enum LinkState {
    Disconnected,
    Connecting,
    Connected,
    Reconnecting,
    Failed,
}

/// What the transport is asked for on connect.
pub struct ConnectRequest {
    /// The last will is published on the subscribed topic.
    pub will_topic: String,
    pub will_payload: String,
    pub will_qos: i32,
    pub keep_alive_secs: u64,
    pub clean_session: bool,
    /// Protocol version code, `MQTT_VERSION_DEFAULT` or a fixed version.
    pub mqtt_version: u32,
}

/// What the transport is asked for on subscribe.
pub struct SubscribeRequest {
    pub topic: String,
    pub qos: i32,
}

/// What the transport is asked for on publish.
pub struct PublishRequest {
    pub topic: String,
    pub payload: String,
    pub qos: i32,
}

/// The connect request that a configuration calls for.
pub open spec fn connect_request_for(r: &ConnectRequest, c: ConfigModel) -> bool {
    &&& r.will_topic@ == c.sub_topic
    &&& r.will_payload@ == c.last_will_and_testament
    &&& r.will_qos as int == c.quality_of_service
    &&& r.keep_alive_secs == KEEP_ALIVE_SECS
    &&& r.clean_session == c.clean_session
    &&& r.mqtt_version == MQTT_VERSION_DEFAULT
}

/// A connect has been issued: the counter of a former reconnection cycle is
/// dropped.
pub open spec fn connect_started(m: SessionModel) -> SessionModel {
    SessionModel { link: LinkState::Connecting, attempts: 0, ..m }
}

/// The transport answered the connect. An answer that comes while no
/// connect is under way changes nothing.
pub open spec fn connect_finished(m: SessionModel, succeeded: bool) -> SessionModel {
    if m.link != LinkState::Connecting {
        m
    } else if succeeded {
        SessionModel { link: LinkState::Connected, ..m }
    } else {
        SessionModel { link: LinkState::Disconnected, ..m }
    }
}

/// An explicit disconnect.
pub open spec fn disconnected(m: SessionModel) -> SessionModel {
    SessionModel { link: LinkState::Disconnected, attempts: 0, ..m }
}

/// What the transport says of the link is taken into account: a connected
/// session whose transport lost the link becomes disconnected.
pub open spec fn link_observed(m: SessionModel, transport_connected: bool) -> SessionModel {
    if m.link == LinkState::Connected && !transport_connected {
        SessionModel { link: LinkState::Disconnected, ..m }
    } else {
        m
    }
}

/// The reconnection policy is invoked.
pub open spec fn reconnect_started(m: SessionModel) -> (SessionModel, ReconnectStep) {
    if m.link == LinkState::Connected {
        (m, ReconnectStep::Idle)
    } else {
        (
            SessionModel { link: LinkState::Reconnecting, attempts: 0, ..m },
            ReconnectStep::Attempt { delay_ms: RECONNECT_DELAY_MS },
        )
    }
}

/// The outcome of one reconnect attempt is reported to the policy.
pub open spec fn reconnect_resolved(m: SessionModel, succeeded: bool) -> (
    SessionModel,
    ReconnectStep,
) {
    if m.link != LinkState::Reconnecting {
        (m, ReconnectStep::Idle)
    } else if succeeded {
        (SessionModel { link: LinkState::Connected, attempts: 0, ..m }, ReconnectStep::Reconnected)
    } else if m.attempts + 1 >= MAX_RECONNECT_ATTEMPTS {
        (
            SessionModel { link: LinkState::Failed, attempts: m.attempts + 1, ..m },
            ReconnectStep::Exhausted,
        )
    } else {
        (
            SessionModel { attempts: m.attempts + 1, ..m },
            ReconnectStep::Attempt { delay_ms: RECONNECT_DELAY_MS },
        )
    }
}

/// A message arrives from the transport: it goes to the back of the queue.
pub open spec fn message_delivered(m: SessionModel, message: (Seq<char>, Seq<u8>)) -> SessionModel {
    SessionModel { inbound: m.inbound.push(message), ..m }
}

/// `received` on a session: with an empty queue nothing happens and there is
/// nothing to report yet; otherwise the oldest message is consumed, whether
/// it matches or not, and its verdict is reported.
pub open spec fn message_received(m: SessionModel, expected: Seq<char>) -> (
    SessionModel,
    Option<Result<bool, SessionError>>,
) {
    if m.inbound.len() == 0 {
        (m, None)
    } else {
        (
            SessionModel { inbound: m.inbound.drop_first(), ..m },
            Some(payload_verdict(m.inbound[0].1, expected)),
        )
    }
}

/// A session as a mathematical value.
pub struct SessionModel {
    pub config: ConfigModel,
    pub link: LinkState,
    /// Failed reconnect attempts in the current (or last) cycle.
    pub attempts: nat,
    /// Topic and payload of each queued inbound message, oldest first.
    pub inbound: Seq<(Seq<char>, Seq<u8>)>,
}

impl SessionModel {
    /// What every session satisfies.
    pub open spec fn wf(self) -> bool {
        &&& valid_config(self.config)
        &&& self.attempts <= MAX_RECONNECT_ATTEMPTS
        &&& self.link == LinkState::Reconnecting ==> self.attempts < MAX_RECONNECT_ATTEMPTS
    }
}

/// One session: its configuration, its connection state, the reconnection
/// counter and the queue of inbound messages that the transport delivered.
pub struct SyncMqttClient {
    config: SessionConfig,
    progress: Progress,
    inbound: VecDeque<InboundMessage>,
}

/// The connection state together with the counter of the reconnection
/// policy.
struct Progress {
    link: LinkState,
    attempts: u32,
}

impl Progress {
    #[verifier::type_invariant]
    spec fn inv(&self) -> bool {
        &&& self.attempts <= MAX_RECONNECT_ATTEMPTS
        &&& self.link == LinkState::Reconnecting ==> self.attempts < MAX_RECONNECT_ATTEMPTS
    }
}

impl View for SyncMqttClient {
    type V = SessionModel;

    closed spec fn view(&self) -> SessionModel {
        SessionModel {
            config: self.config@,
            link: self.progress.link,
            attempts: self.progress.attempts as nat,
            inbound: self.inbound@.map_values(|m: InboundMessage| m@),
        }
    }
}

impl SyncMqttClient {
    /// A new session: disconnected, no attempts counted, nothing queued.
    pub open spec fn fresh_model(config: ConfigModel) -> SessionModel {
        SessionModel { config, link: LinkState::Disconnected, attempts: 0, inbound: seq![] }
    }

    pub(crate) fn from_config(config: SessionConfig) -> (r: SyncMqttClient)
        requires
            valid_config(config@),
        ensures
            r@ == Self::fresh_model(config@),
    {
        let r = SyncMqttClient {
            config,
            progress: Progress { link: LinkState::Disconnected, attempts: 0 },
            inbound: VecDeque::new(),
        };
        assert(r@.inbound =~= seq![]);
        r
    }
    /// The configuration this session was built with.
    pub fn config(&self) -> (r: &SessionConfig)
        ensures
            r@ == self@.config,
    {
        &self.config
    }

    /// Pure query of the connection state.
    pub fn is_connected(&self) -> (r: bool)
        ensures
            r == (self@.link == LinkState::Connected),
    {
        self.progress.link == LinkState::Connected
    }

    pub fn link_state(&self) -> (r: LinkState)
        ensures
            r == self@.link,
    {
        self.progress.link
    }

    /// Starts connecting: returns what the transport is to be asked for,
    /// with the configured last will, clean-session flag and a fixed
    /// keep-alive. The outcome is reported with `complete_connection`.
    pub fn establish_connection(&mut self) -> (r: ConnectRequest)
        ensures
            final(self)@ == connect_started(old(self)@),
            connect_request_for(&r, old(self)@.config),
    {
        proof {
            use_type_invariant(&self.progress);
        }
        self.progress = Progress { link: LinkState::Connecting, attempts: 0 };
        ConnectRequest {
            will_topic: self.config.sub_topic().to_owned(),
            will_payload: self.config.last_will_and_testament().to_owned(),
            will_qos: self.config.quality_of_service(),
            keep_alive_secs: KEEP_ALIVE_SECS,
            clean_session: self.config.clean_session(),
            mqtt_version: MQTT_VERSION_DEFAULT,
        }
    }

    /// Records the transport's answer to a connect. A failure is not retried
    /// here; an answer while no connect is under way is refused.
    pub fn complete_connection(&mut self, succeeded: bool) -> (r: Result<(), SessionError>)
        ensures
            final(self)@ == connect_finished(old(self)@, succeeded),
            r == if old(self)@.link == LinkState::Connecting && succeeded {
                Ok::<(), SessionError>(())
            } else {
                Err(SessionError::ConnectionError)
            },
    {
        proof {
            use_type_invariant(&self.progress);
        }
        if self.progress.link != LinkState::Connecting {
            return Err(SessionError::ConnectionError);
        }
        if succeeded {
            self.progress = Progress { link: LinkState::Connected, ..self.progress };
            Ok(())
        } else {
            self.progress = Progress { link: LinkState::Disconnected, ..self.progress };
            Err(SessionError::ConnectionError)
        }
    }

    /// The subscription to the configured topic at the configured quality of
    /// service; only a connected session may subscribe.
    pub fn subscribe(&self) -> (r: Result<SubscribeRequest, SessionError>)
        ensures
            match r {
                Ok(req) => self@.link == LinkState::Connected && req.topic@ == self@.config.sub_topic
                    && req.qos as int == self@.config.quality_of_service,
                Err(e) => self@.link != LinkState::Connected && e == SessionError::SubscriptionError,
            },
    {
        if self.progress.link != LinkState::Connected {
            return Err(SessionError::SubscriptionError);
        }
        Ok(
            SubscribeRequest {
                topic: self.config.sub_topic().to_owned(),
                qos: self.config.quality_of_service(),
            },
        )
    }

    /// The publication of `content` on the configured topic at the
    /// configured quality of service; only a connected session may publish.
    pub fn publish(&self, content: &str) -> (r: Result<PublishRequest, SessionError>)
        ensures
            match r {
                Ok(req) => self@.link == LinkState::Connected && req.topic@ == self@.config.pub_topic
                    && req.payload@ == content@ && req.qos as int
                    == self@.config.quality_of_service,
                Err(e) => self@.link != LinkState::Connected && e == SessionError::PublishError,
            },
    {
        if self.progress.link != LinkState::Connected {
            return Err(SessionError::PublishError);
        }
        Ok(
            PublishRequest {
                topic: self.config.pub_topic().to_owned(),
                payload: content.to_owned(),
                qos: self.config.quality_of_service(),
            },
        )
    }

    /// Unconditional transition to disconnected; doing it twice is doing it
    /// once.
    pub fn disconnect(&mut self)
        ensures
            final(self)@ == disconnected(old(self)@),
    {
        proof {
            use_type_invariant(&self.progress);
        }
        self.progress = Progress { link: LinkState::Disconnected, attempts: 0 };
    }

    /// Takes into account whether the transport still holds the link.
    pub fn observe_link(&mut self, transport_connected: bool)
        ensures
            final(self)@ == link_observed(old(self)@, transport_connected),
    {
        proof {
            use_type_invariant(&self.progress);
        }
        if self.progress.link == LinkState::Connected && !transport_connected {
            self.progress = Progress { link: LinkState::Disconnected, ..self.progress };
        }
    }

    /// The reconnection policy: nothing to do when connected; otherwise a
    /// new cycle of at most `MAX_RECONNECT_ATTEMPTS` attempts starts, each
    /// one after `RECONNECT_DELAY_MS`. The caller performs the steps and
    /// reports each outcome with `reconnect_outcome`.
    pub fn reestablish_connection(&mut self) -> (r: ReconnectStep)
        ensures
            (final(self)@, r) == reconnect_started(old(self)@),
    {
        proof {
            use_type_invariant(&self.progress);
        }
        if self.progress.link == LinkState::Connected {
            return ReconnectStep::Idle;
        }
        self.progress = Progress { link: LinkState::Reconnecting, attempts: 0 };
        ReconnectStep::Attempt { delay_ms: RECONNECT_DELAY_MS }
    }

    /// Reports whether the last reconnect attempt succeeded, and says what
    /// comes next.
    pub fn reconnect_outcome(&mut self, succeeded: bool) -> (r: ReconnectStep)
        ensures
            (final(self)@, r) == reconnect_resolved(old(self)@, succeeded),
    {
        proof {
            use_type_invariant(&self.progress);
        }
        if self.progress.link != LinkState::Reconnecting {
            return ReconnectStep::Idle;
        }
        if succeeded {
            self.progress = Progress { link: LinkState::Connected, attempts: 0 };
            return ReconnectStep::Reconnected;
        }
        let failed: u32 = self.progress.attempts + 1;
        if failed >= MAX_RECONNECT_ATTEMPTS {
            self.progress = Progress { link: LinkState::Failed, attempts: failed };
            ReconnectStep::Exhausted
        } else {
            self.progress = Progress { link: LinkState::Reconnecting, attempts: failed };
            ReconnectStep::Attempt { delay_ms: RECONNECT_DELAY_MS }
        }
    }
    /// The transport's delivery path hands over one inbound message.
    pub fn deliver(&mut self, message: InboundMessage)
        ensures
            final(self)@ == message_delivered(old(self)@, message@),
    {
        proof {
            use_type_invariant(&self.progress);
        }
        self.inbound.push_back(message);
        proof {
            assert(self@.inbound =~= old(self)@.inbound.push(message@));
        }
    }

    /// How many inbound messages wait to be consumed.
    pub fn pending(&self) -> (r: usize)
        ensures
            r == self@.inbound.len(),
    {
        self.inbound.len()
    }

    /// Consumes the oldest inbound message, if any, decodes its payload and
    /// compares it with `str_to_check_for`. A message that does not match is
    /// consumed all the same. `None` means that the queue is empty: the
    /// caller waits for the transport to deliver and asks again.
    pub fn received(&mut self, str_to_check_for: &str) -> (r: Option<Result<bool, SessionError>>)
        ensures
            (final(self)@, r) == message_received(old(self)@, str_to_check_for@),
    {
        proof {
            use_type_invariant(&self.progress);
        }
        match self.inbound.pop_front() {
            None => None,
            Some(message) => {
                proof {
                    assert(self@.inbound =~= old(self)@.inbound.drop_first());
                }
                Some(payload_matches(message.payload.as_slice(), str_to_check_for))
            },
        }
    }
}

} // verus!
