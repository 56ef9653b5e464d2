use crate::config::{valid_config, ConfigModel};
use crate::reconnect::{ReconnectStep, MAX_RECONNECT_ATTEMPTS, RECONNECT_DELAY_MS};
use crate::session::{
    connect_finished, connect_started, disconnected, link_observed, message_delivered,
    message_received, reconnect_resolved, reconnect_started, LinkState, SessionModel,
    SyncMqttClient,
};
use vstd::prelude::*;

verus! {

/// The session after `n` reconnect attempts that all failed.
pub open spec fn after_failed_attempts(m: SessionModel, n: nat) -> SessionModel
    decreases n,
{
    if n == 0 {
        m
    } else {
        reconnect_resolved(after_failed_attempts(m, (n - 1) as nat), false).0
    }
}

/// A freshly built session is well formed and not connected, so it hands out
/// no subscription and no publication before a connect succeeds.
pub proof fn lemma_built_session_waits_for_connect(c: ConfigModel)
    requires
        valid_config(c),
    ensures
        SyncMqttClient::fresh_model(c).wf(),
        SyncMqttClient::fresh_model(c).link != LinkState::Connected,
        SyncMqttClient::fresh_model(c).inbound.len() == 0,
        connect_started(SyncMqttClient::fresh_model(c)).link != LinkState::Connected,
{
}

/// After a connect that failed, the session is disconnected; an answer
/// that comes while no connect is under way changes nothing.
pub proof fn lemma_failed_connect_is_disconnected(m: SessionModel)
    ensures
        connect_finished(connect_started(m), false).link == LinkState::Disconnected,
        m.link == LinkState::Connecting ==> connect_finished(m, false).link
            == LinkState::Disconnected,
        m.link != LinkState::Connecting ==> connect_finished(m, true) == m
            && connect_finished(m, false) == m,
{
}

/// On a connected session the reconnection policy changes nothing and asks
/// nothing of the transport.
pub proof fn lemma_reconnect_when_connected_is_noop(m: SessionModel)
    requires
        m.link == LinkState::Connected,
    ensures
        reconnect_started(m) == (m, ReconnectStep::Idle),
{
}

proof fn lemma_failed_attempts_count(m: SessionModel, n: nat)
    requires
        m.link != LinkState::Connected,
        n < MAX_RECONNECT_ATTEMPTS,
    ensures
        after_failed_attempts(reconnect_started(m).0, n) == (SessionModel {
            link: LinkState::Reconnecting,
            attempts: n,
            ..m
        }),
    decreases n,
{
    if n > 0 {
        lemma_failed_attempts_count(m, (n - 1) as nat);
    }
}

/// Against a transport whose reconnect always fails, one cycle of the policy
/// asks for exactly `MAX_RECONNECT_ATTEMPTS` attempts, each after
/// `RECONNECT_DELAY_MS`, and ends in `Failed`; invoking the policy again
/// starts the very same cycle.
pub proof fn lemma_failing_transport_bounded_cycle(m: SessionModel)
    requires
        m.link != LinkState::Connected,
    ensures
        reconnect_started(m).1 == (ReconnectStep::Attempt { delay_ms: RECONNECT_DELAY_MS }),
        forall|k: nat|
            k + 1 < MAX_RECONNECT_ATTEMPTS ==> #[trigger] reconnect_resolved(
                after_failed_attempts(reconnect_started(m).0, k),
                false,
            ).1 == (ReconnectStep::Attempt { delay_ms: RECONNECT_DELAY_MS }),
        reconnect_resolved(
            after_failed_attempts(reconnect_started(m).0, (MAX_RECONNECT_ATTEMPTS - 1) as nat),
            false,
        ).1 == ReconnectStep::Exhausted,
        after_failed_attempts(reconnect_started(m).0, MAX_RECONNECT_ATTEMPTS as nat).link
            == LinkState::Failed,
        reconnect_started(
            after_failed_attempts(reconnect_started(m).0, MAX_RECONNECT_ATTEMPTS as nat),
        ) == reconnect_started(m),
{
    assert forall|k: nat| k + 1 < MAX_RECONNECT_ATTEMPTS implies #[trigger] reconnect_resolved(
        after_failed_attempts(reconnect_started(m).0, k),
        false,
    ).1 == (ReconnectStep::Attempt { delay_ms: RECONNECT_DELAY_MS }) by {
        lemma_failed_attempts_count(m, k);
    }
    lemma_failed_attempts_count(m, (MAX_RECONNECT_ATTEMPTS - 1) as nat);
}

/// The reconnection counter does not outlive an explicit disconnect or a
/// new connect.
pub proof fn lemma_counter_reset_by_disconnect_and_connect(m: SessionModel)
    ensures
        disconnected(m).attempts == 0,
        connect_started(m).attempts == 0,
        disconnected(disconnected(m)) == disconnected(m),
{
}

/// Inbound messages are consumed in the order in which they were delivered,
/// one per call.
pub proof fn lemma_inbound_order_kept(
    m: SessionModel,
    first: (Seq<char>, Seq<u8>),
    second: (Seq<char>, Seq<u8>),
    expected: Seq<char>,
)
    requires
        m.inbound.len() == 0,
    ensures
        ({
            let delivered = message_delivered(message_delivered(m, first), second);
            let (once, v1) = message_received(delivered, expected);
            let (twice, v2) = message_received(once, expected);
            let (thrice, v3) = message_received(twice, expected);
            &&& v1 == Some(crate::inbound::payload_verdict(first.1, expected))
            &&& v2 == Some(crate::inbound::payload_verdict(second.1, expected))
            &&& v3 is None
            &&& thrice == m
        }),
{
    let delivered = message_delivered(message_delivered(m, first), second);
    assert(delivered.inbound =~= seq![first, second]);
    let once = message_received(delivered, expected).0;
    assert(once.inbound =~= seq![second]);
    let twice = message_received(once, expected).0;
    assert(twice.inbound =~= m.inbound);
}

/// Every transition keeps a session well formed.
pub proof fn lemma_transitions_keep_well_formed(
    m: SessionModel,
    flag: bool,
    message: (Seq<char>, Seq<u8>),
    expected: Seq<char>,
)
    requires
        m.wf(),
    ensures
        connect_started(m).wf(),
        connect_finished(m, flag).wf(),
        disconnected(m).wf(),
        link_observed(m, flag).wf(),
        reconnect_started(m).0.wf(),
        reconnect_resolved(m, flag).0.wf(),
        message_delivered(m, message).wf(),
        message_received(m, expected).0.wf(),
{
}

} // verus!
