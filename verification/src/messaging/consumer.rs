//! What the consumer does outside of message handling: it follows the
//! broker's rebalances and knows the settings of its client.

use crate::messaging::config::MessagingConfig;
use crate::messaging::offset_tracker::{OffsetTracker, TrackerState};
use vstd::prelude::*;

verus! {

/// A change of the partitions assigned to this consumer, as the broker
/// announces it.
#[derive(Debug)]
pub enum Rebalance {
    /// These partitions were added.
    Assign(Vec<i32>),
    /// These partitions were taken away.
    Revoke(Vec<i32>),
    /// The rebalance failed; nothing changed.
    Error,
}

/// The tracker's content after a rebalance: assigned partitions are marked,
/// revoked ones lose their mark and their position.
pub open spec fn rebalanced(state: TrackerState, rebalance: Rebalance) -> TrackerState {
    match rebalance {
        Rebalance::Assign(partitions) => TrackerState {
            offsets: state.offsets,
            assigned: state.assigned.union(partitions@.to_set()),
        },
        Rebalance::Revoke(partitions) => TrackerState {
            offsets: state.offsets.remove_keys(partitions@.to_set()),
            assigned: state.assigned.difference(partitions@.to_set()),
        },
        Rebalance::Error => state,
    }
}

/// A rebalance keeps positions within the assigned partitions.
pub proof fn lemma_rebalance_keeps_wf(state: TrackerState, rebalance: Rebalance)
    requires
        state.wf(),
    ensures
        rebalanced(state, rebalance).wf(),
{
}

/// The elements of a prefix are those of the prefix one shorter and the
/// element that it adds.
proof fn lemma_prefix_set(items: Seq<i32>, len: int)
    requires
        0 <= len < items.len(),
    ensures
        items.take(len + 1).to_set() == items.take(len).to_set().insert(items[len]),
{
    let shorter = items.take(len);
    let longer = items.take(len + 1);
    assert forall|p: i32| longer.to_set().contains(p) <==> shorter.to_set().insert(
        items[len],
    ).contains(p) by {
        if longer.contains(p) {
            let k = choose|k: int| 0 <= k < longer.len() && longer[k] == p;
            if k < len {
                assert(shorter[k] == p);
            }
        }
        if shorter.contains(p) {
            let k = choose|k: int| 0 <= k < shorter.len() && shorter[k] == p;
            assert(longer[k] == p);
        }
        if p == items[len] {
            assert(longer[len] == p);
        }
    }
    assert(longer.to_set() =~= shorter.to_set().insert(items[len]));
}

/// Applies a finished rebalance to the tracker.
pub fn post_rebalance(tracker: &mut OffsetTracker, rebalance: &Rebalance)
    ensures
        final(tracker)@ == rebalanced(old(tracker)@, *rebalance),
{
    match rebalance {
        Rebalance::Assign(partitions) => {
            let mut i: usize = 0;
            while i < partitions.len()
                invariant
                    i <= partitions.len(),
                    tracker@.offsets == old(tracker)@.offsets,
                    tracker@.assigned == old(tracker)@.assigned.union(
                        partitions@.take(i as int).to_set(),
                    ),
                decreases partitions.len() - i,
            {
                tracker.mark_assigned(partitions[i]);
                proof {
                    let next = partitions@.take(i + 1);
                    lemma_prefix_set(partitions@, i as int);
                    assert(tracker@.assigned =~= old(tracker)@.assigned.union(next.to_set()));
                }
                i += 1;
            }
            proof {
                assert(partitions@.take(partitions.len() as int) =~= partitions@);
            }
        },
        Rebalance::Revoke(partitions) => {
            let mut i: usize = 0;
            while i < partitions.len()
                invariant
                    i <= partitions.len(),
                    tracker@.offsets == old(tracker)@.offsets.remove_keys(
                        partitions@.take(i as int).to_set(),
                    ),
                    tracker@.assigned == old(tracker)@.assigned.difference(
                        partitions@.take(i as int).to_set(),
                    ),
                decreases partitions.len() - i,
            {
                tracker.mark_revoked(partitions[i]);
                proof {
                    let next = partitions@.take(i + 1);
                    lemma_prefix_set(partitions@, i as int);
                    assert(tracker@.assigned =~= old(tracker)@.assigned.difference(next.to_set()));
                    assert(tracker@.offsets =~= old(tracker)@.offsets.remove_keys(next.to_set()));
                }
                i += 1;
            }
            proof {
                assert(partitions@.take(partitions.len() as int) =~= partitions@);
            }
        },
        Rebalance::Error => {},
    }
}

/// The settings of the broker client, in the order in which they are set:
/// each is a key of the client library and its value.
pub open spec fn client_settings(conf: MessagingConfig) -> Seq<(Seq<char>, Seq<char>)> {
    seq![
        ("group.id"@, conf.group_id@),
        ("client.id"@, "ssu-mgmt"@),
        ("bootstrap.servers"@, conf.bootstrap_servers@),
        ("enable.auto.commit"@, "false"@),
        ("auto.offset.reset"@, "earliest"@),
        ("sasl.mechanism"@, conf.sasl_mechanism@),
        ("security.protocol"@, conf.security_protocol@),
        ("sasl.username"@, conf.credentials.username@),
        ("sasl.password"@, conf.credentials.password@),
    ]
}

/// The text of each setting.
pub open spec fn setting_texts(settings: Seq<(String, String)>) -> Seq<(Seq<char>, Seq<char>)> {
    settings.map_values(|s: (String, String)| (s.0@, s.1@))
}

/// Builds the settings of the broker client from the configuration. Offsets
/// are committed by the poll loop, never automatically, and a new group
/// starts at the earliest message.
pub fn create_client_config(conf: &MessagingConfig) -> (settings: Vec<(String, String)>)
    ensures
        setting_texts(settings@) == client_settings(*conf),
{
    let mut settings: Vec<(String, String)> = Vec::new();
    settings.push(("group.id".to_owned(), conf.group_id.clone()));
    settings.push(("client.id".to_owned(), "ssu-mgmt".to_owned()));
    settings.push(("bootstrap.servers".to_owned(), conf.bootstrap_servers.clone()));
    settings.push(("enable.auto.commit".to_owned(), "false".to_owned()));
    settings.push(("auto.offset.reset".to_owned(), "earliest".to_owned()));
    settings.push(("sasl.mechanism".to_owned(), conf.sasl_mechanism.clone()));
    settings.push(("security.protocol".to_owned(), conf.security_protocol.clone()));
    settings.push(("sasl.username".to_owned(), conf.credentials.username.clone()));
    settings.push(("sasl.password".to_owned(), conf.credentials.password.clone()));
    assert(setting_texts(settings@) =~= client_settings(*conf));
    settings
}

} // verus!
