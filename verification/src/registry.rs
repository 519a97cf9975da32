//! The actor registry: the per-tick reconciliation of the node set against
//! the simulator's current entity set, and the tick's poll pass.
//!
//! Exactly one node exists per live entity id; no two nodes share an id; a
//! node's kind never changes.  Each tick the registry diffs the current
//! entity-id set against the previous one, constructs nodes for new ids,
//! drops nodes for vanished ids, keeps surviving nodes untouched, and then
//! polls every live node once before the tick's heartbeat.

use vstd::prelude::*;

use crate::actor_node::generic::{
    self, can_poll, constructible, data_matches, poll_spec, spec_new_node, spec_new_sub, ActorPub,
    ActorSub, ActorDescription, PollData, PollOutput,
};
use crate::msg::{EmptyMsg, TimeMsg, VehicleInfoMsg};
use crate::time::TimeDelta;
use crate::utils::ActorSnapshot;

verus! {

/// One entity of the simulator's current set, as discovered this tick.
#[derive(Debug, Clone, PartialEq)]
pub struct DiscoveredActor {
    pub id: u32,
    pub desc: ActorDescription,
}

/// One live node and the entity id it serves.
#[derive(Debug, Clone, PartialEq)]
pub struct RegistryEntry {
    pub id: u32,
    pub node: ActorPub,
}

/// Whether a node sequence holds an entry for `id`.
pub open spec fn has_id(s: Seq<RegistryEntry>, id: u32) -> bool {
    exists|i: int| 0 <= i < s.len() && #[trigger] s[i].id == id
}

/// No two entries share an id.
pub open spec fn unique_ids(s: Seq<RegistryEntry>) -> bool {
    forall|i: int, j: int| 0 <= i < j < s.len() ==> #[trigger] s[i].id != #[trigger] s[j].id
}

/// Whether a discovery list holds an entity `id`.
pub open spec fn disc_has_id(s: Seq<DiscoveredActor>, id: u32) -> bool {
    exists|k: int| 0 <= k < s.len() && #[trigger] s[k].id == id
}

/// No two discovered entities share an id.
pub open spec fn disc_unique(s: Seq<DiscoveredActor>) -> bool {
    forall|i: int, j: int| 0 <= i < j < s.len() ==> #[trigger] s[i].id != #[trigger] s[j].id
}

/// Whether the current set holds a constructible entity `id`: such ids are
/// exactly the ones the registry serves after reconciliation.
pub open spec fn spec_live(current: Seq<DiscoveredActor>, id: u32) -> bool {
    exists|k: int| 0 <= k < current.len() && #[trigger] current[k].id == id && constructible(
        current[k].desc,
    )
}

/// The entries of `s` whose ids are still current, in their old order.
pub open spec fn spec_kept(s: Seq<RegistryEntry>, current: Seq<DiscoveredActor>) -> Seq<
    RegistryEntry,
>
    decreases s.len(),
{
    if s.len() == 0 {
        Seq::empty()
    } else {
        (if disc_has_id(current, s[0].id) {
            seq![s[0]]
        } else {
            Seq::empty()
        }) + spec_kept(s.drop_first(), current)
    }
}

/// The ids of the entries of `s` that have vanished from the current set, in
/// their old order.
pub open spec fn spec_removed(s: Seq<RegistryEntry>, current: Seq<DiscoveredActor>) -> Seq<u32>
    decreases s.len(),
{
    if s.len() == 0 {
        Seq::empty()
    } else {
        (if disc_has_id(current, s[0].id) {
            Seq::empty()
        } else {
            seq![s[0].id]
        }) + spec_removed(s.drop_first(), current)
    }
}

/// The fresh entries for the current entities that are new and
/// constructible, in discovery order.
pub open spec fn spec_new_entries(
    old_nodes: Seq<RegistryEntry>,
    current: Seq<DiscoveredActor>,
) -> Seq<RegistryEntry>
    decreases current.len(),
{
    if current.len() == 0 {
        Seq::empty()
    } else {
        (if !has_id(old_nodes, current[0].id) && constructible(current[0].desc) {
            seq![
                RegistryEntry {
                    id: current[0].id,
                    node: spec_new_node(current[0].id, current[0].desc),
                },
            ]
        } else {
            Seq::empty()
        }) + spec_new_entries(old_nodes, current.drop_first())
    }
}

/// The ids of the fresh entries, in discovery order.
pub open spec fn spec_added(old_nodes: Seq<RegistryEntry>, current: Seq<DiscoveredActor>) -> Seq<
    u32,
>
    decreases current.len(),
{
    if current.len() == 0 {
        Seq::empty()
    } else {
        (if !has_id(old_nodes, current[0].id) && constructible(current[0].desc) {
            seq![current[0].id]
        } else {
            Seq::empty()
        }) + spec_added(old_nodes, current.drop_first())
    }
}

/// The ids of the new entities that could not be constructed (a vehicle
/// without its role name), in discovery order.
pub open spec fn spec_rejected(old_nodes: Seq<RegistryEntry>, current: Seq<DiscoveredActor>) -> Seq<
    u32,
>
    decreases current.len(),
{
    if current.len() == 0 {
        Seq::empty()
    } else {
        (if !has_id(old_nodes, current[0].id) && !constructible(current[0].desc) {
            seq![current[0].id]
        } else {
            Seq::empty()
        }) + spec_rejected(old_nodes, current.drop_first())
    }
}

/// The subscribe sides spawned for the fresh entries, in discovery order.
pub open spec fn spec_new_subs(old_nodes: Seq<RegistryEntry>, current: Seq<DiscoveredActor>) -> Seq<
    (u32, ActorSub),
>
    decreases current.len(),
{
    if current.len() == 0 {
        Seq::empty()
    } else {
        (if !has_id(old_nodes, current[0].id) && constructible(current[0].desc) {
            seq![(current[0].id, spec_new_sub(current[0].desc))]
        } else {
            Seq::empty()
        }) + spec_new_subs(old_nodes, current.drop_first())
    }
}

/// One announced vehicle info: the id is a current vehicle entity and the
/// message carries its static parameters.
pub open spec fn announcement_ok(a: (u32, VehicleInfoMsg), current: Seq<DiscoveredActor>) -> bool {
    exists|k: int| 0 <= k < current.len() && #[trigger] current[k].id == a.0 && match current[k].desc {
        ActorDescription::Vehicle { type_id, role_name, physics } => role_name is Some
            && crate::actor_node::vehicle::vehicle_info_matches(
            a.1,
            a.0,
            type_id@,
            role_name.unwrap()@,
            physics,
        ),
        _ => false,
    }
}

/// The ids of the fresh vehicle entries, in discovery order: each gets one
/// announcement.
pub open spec fn spec_announced_ids(
    old_nodes: Seq<RegistryEntry>,
    current: Seq<DiscoveredActor>,
) -> Seq<u32>
    decreases current.len(),
{
    if current.len() == 0 {
        Seq::empty()
    } else {
        (if !has_id(old_nodes, current[0].id) && constructible(current[0].desc)
            && current[0].desc is Vehicle {
            seq![current[0].id]
        } else {
            Seq::empty()
        }) + spec_announced_ids(old_nodes, current.drop_first())
    }
}

/// Appending one old entry extends the kept and removed filters by its
/// contribution.
proof fn lemma_kept_push(s: Seq<RegistryEntry>, e: RegistryEntry, current: Seq<DiscoveredActor>)
    ensures
        spec_kept(s.push(e), current) =~= spec_kept(s, current) + (if disc_has_id(current, e.id) {
            seq![e]
        } else {
            Seq::<RegistryEntry>::empty()
        }),
        spec_removed(s.push(e), current) =~= spec_removed(s, current) + (if disc_has_id(
            current,
            e.id,
        ) {
            Seq::<u32>::empty()
        } else {
            seq![e.id]
        }),
    decreases s.len(),
{
    if s.len() == 0 {
        assert(s.push(e)[0] == e);
        assert(s.push(e).drop_first() =~= Seq::<RegistryEntry>::empty());
        assert(spec_kept(Seq::<RegistryEntry>::empty(), current) == Seq::<RegistryEntry>::empty());
        assert(spec_removed(Seq::<RegistryEntry>::empty(), current) == Seq::<u32>::empty());
        assert(spec_kept(s, current) == Seq::<RegistryEntry>::empty());
        assert(spec_removed(s, current) == Seq::<u32>::empty());
    } else {
        assert(s.push(e)[0] == s[0]);
        assert(s.push(e).drop_first() =~= s.drop_first().push(e));
        lemma_kept_push(s.drop_first(), e, current);
    }
}

/// Appending one discovered entity extends the new-entry filters by its
/// contribution.
proof fn lemma_new_push(
    old_nodes: Seq<RegistryEntry>,
    current: Seq<DiscoveredActor>,
    d: DiscoveredActor,
)
    ensures
        spec_new_entries(old_nodes, current.push(d)) =~= spec_new_entries(old_nodes, current) + (
        if !has_id(old_nodes, d.id) && constructible(d.desc) {
            seq![RegistryEntry { id: d.id, node: spec_new_node(d.id, d.desc) }]
        } else {
            Seq::<RegistryEntry>::empty()
        }),
        spec_added(old_nodes, current.push(d)) =~= spec_added(old_nodes, current) + (if !has_id(
            old_nodes,
            d.id,
        ) && constructible(d.desc) {
            seq![d.id]
        } else {
            Seq::<u32>::empty()
        }),
        spec_rejected(old_nodes, current.push(d)) =~= spec_rejected(old_nodes, current) + (
        if !has_id(old_nodes, d.id) && !constructible(d.desc) {
            seq![d.id]
        } else {
            Seq::<u32>::empty()
        }),
        spec_new_subs(old_nodes, current.push(d)) =~= spec_new_subs(old_nodes, current) + (
        if !has_id(old_nodes, d.id) && constructible(d.desc) {
            seq![(d.id, spec_new_sub(d.desc))]
        } else {
            Seq::<(u32, ActorSub)>::empty()
        }),
        spec_announced_ids(old_nodes, current.push(d)) =~= spec_announced_ids(old_nodes, current)
            + (if !has_id(old_nodes, d.id) && constructible(d.desc) && d.desc is Vehicle {
            seq![d.id]
        } else {
            Seq::<u32>::empty()
        }),
    decreases current.len(),
{
    if current.len() == 0 {
        assert(current.push(d)[0] == d);
        assert(current.push(d).drop_first() =~= Seq::<DiscoveredActor>::empty());
        assert(spec_new_entries(old_nodes, current) == Seq::<RegistryEntry>::empty());
        assert(spec_added(old_nodes, current) == Seq::<u32>::empty());
        assert(spec_rejected(old_nodes, current) == Seq::<u32>::empty());
        assert(spec_new_subs(old_nodes, current) == Seq::<(u32, ActorSub)>::empty());
        assert(spec_announced_ids(old_nodes, current) == Seq::<u32>::empty());
        assert(spec_new_entries(old_nodes, Seq::<DiscoveredActor>::empty()) == Seq::<
            RegistryEntry,
        >::empty());
        assert(spec_added(old_nodes, Seq::<DiscoveredActor>::empty()) == Seq::<u32>::empty());
        assert(spec_rejected(old_nodes, Seq::<DiscoveredActor>::empty()) == Seq::<u32>::empty());
        assert(spec_new_subs(old_nodes, Seq::<DiscoveredActor>::empty()) == Seq::<(
            u32,
            ActorSub,
        )>::empty());
        assert(spec_announced_ids(old_nodes, Seq::<DiscoveredActor>::empty()) == Seq::<
            u32,
        >::empty());
    } else {
        assert(current.push(d)[0] == current[0]);
        assert(current.push(d).drop_first() =~= current.drop_first().push(d));
        lemma_new_push(old_nodes, current.drop_first(), d);
    }
}

/// An id is in a concatenation exactly when it is in one of the parts.
proof fn lemma_has_id_concat(a: Seq<RegistryEntry>, b: Seq<RegistryEntry>, id: u32)
    ensures
        has_id(a + b, id) <==> (has_id(a, id) || has_id(b, id)),
{
    if has_id(a, id) {
        let i = choose|i: int| 0 <= i < a.len() && a[i].id == id;
        assert((a + b)[i].id == id);
    }
    if has_id(b, id) {
        let i = choose|i: int| 0 <= i < b.len() && b[i].id == id;
        assert((a + b)[a.len() + i].id == id);
    }
    if has_id(a + b, id) {
        let i = choose|i: int| 0 <= i < (a + b).len() && (a + b)[i].id == id;
        if i < a.len() {
            assert(a[i].id == id);
        } else {
            assert(b[i - a.len()].id == id);
        }
    }
}

/// The kept entries hold exactly the old ids that are still current.
proof fn lemma_kept_membership(s: Seq<RegistryEntry>, current: Seq<DiscoveredActor>, id: u32)
    ensures
        has_id(spec_kept(s, current), id) <==> (has_id(s, id) && disc_has_id(current, id)),
    decreases s.len(),
{
    if s.len() == 0 {
    } else {
        lemma_kept_membership(s.drop_first(), current, id);
        let head: Seq<RegistryEntry> = if disc_has_id(current, s[0].id) {
            seq![s[0]]
        } else {
            Seq::empty()
        };
        lemma_has_id_concat(head, spec_kept(s.drop_first(), current), id);
        if has_id(s, id) {
            let i = choose|i: int| 0 <= i < s.len() && s[i].id == id;
            if i > 0 {
                assert(s.drop_first()[i - 1].id == id);
            }
        }
        if has_id(s.drop_first(), id) {
            let i = choose|i: int| 0 <= i < s.drop_first().len() && s.drop_first()[i].id == id;
            assert(s[i + 1].id == id);
        }
    }
}

/// The fresh entries hold exactly the current, constructible ids the old
/// registry lacked.
proof fn lemma_new_entries_membership(
    old_nodes: Seq<RegistryEntry>,
    current: Seq<DiscoveredActor>,
    id: u32,
)
    ensures
        has_id(spec_new_entries(old_nodes, current), id) <==> (!has_id(old_nodes, id) && spec_live(
            current,
            id,
        )),
    decreases current.len(),
{
    if current.len() == 0 {
    } else {
        lemma_new_entries_membership(old_nodes, current.drop_first(), id);
        let head: Seq<RegistryEntry> = if !has_id(old_nodes, current[0].id) && constructible(
            current[0].desc,
        ) {
            seq![RegistryEntry { id: current[0].id, node: spec_new_node(current[0].id, current[0].desc) }]
        } else {
            Seq::empty()
        };
        lemma_has_id_concat(head, spec_new_entries(old_nodes, current.drop_first()), id);
        if has_id(head, id) {
            let i = choose|i: int| 0 <= i < head.len() && head[i].id == id;
            assert(current[0].id == id && constructible(current[0].desc));
        }
        if spec_live(current, id) {
            let k = choose|k: int| 0 <= k < current.len() && current[k].id == id && constructible(
                current[k].desc,
            );
            if k > 0 {
                assert(current.drop_first()[k - 1].id == id && constructible(
                    current.drop_first()[k - 1].desc,
                ));
            } else {
                if !has_id(old_nodes, id) {
                    assert(head[0].id == id);
                }
            }
        }
        if spec_live(current.drop_first(), id) {
            let k = choose|k: int| 0 <= k < current.drop_first().len()
                && current.drop_first()[k].id == id && constructible(current.drop_first()[k].desc);
            assert(current[k + 1].id == id && constructible(current[k + 1].desc));
        }
    }
}

/// Keeping entries preserves their uniqueness.
proof fn lemma_kept_unique(s: Seq<RegistryEntry>, current: Seq<DiscoveredActor>)
    requires
        unique_ids(s),
    ensures
        unique_ids(spec_kept(s, current)),
    decreases s.len(),
{
    if s.len() == 0 {
    } else {
        assert(unique_ids(s.drop_first())) by {
            assert(forall|i: int| 0 <= i < s.drop_first().len() ==> #[trigger] s.drop_first()[i]
                == s[i + 1]);
        }
        lemma_kept_unique(s.drop_first(), current);
        let rest = spec_kept(s.drop_first(), current);
        if disc_has_id(current, s[0].id) {
            assert(!has_id(rest, s[0].id)) by {
                lemma_kept_membership(s.drop_first(), current, s[0].id);
                if has_id(s.drop_first(), s[0].id) {
                    let i = choose|i: int| 0 <= i < s.drop_first().len() && s.drop_first()[i].id
                        == s[0].id;
                    assert(s[i + 1].id == s[0].id);
                }
            }
            let whole = spec_kept(s, current);
            assert(whole =~= seq![s[0]] + rest);
            assert forall|i: int, j: int| 0 <= i < j < whole.len() implies whole[i].id != whole[j].id by {
                if i == 0 {
                    assert(whole[j] == rest[j - 1]);
                    if whole[j].id == s[0].id {
                        assert(rest[j - 1].id == s[0].id);
                        assert(has_id(rest, s[0].id));
                    }
                } else {
                    assert(whole[i] == rest[i - 1] && whole[j] == rest[j - 1]);
                }
            }
        } else {
            assert(spec_kept(s, current) =~= rest);
        }
    }
}

/// The fresh entries are unique and disjoint from the old ids.
proof fn lemma_new_entries_unique(old_nodes: Seq<RegistryEntry>, current: Seq<DiscoveredActor>)
    requires
        disc_unique(current),
    ensures
        unique_ids(spec_new_entries(old_nodes, current)),
    decreases current.len(),
{
    if current.len() == 0 {
    } else {
        assert(disc_unique(current.drop_first())) by {
            assert(forall|i: int| 0 <= i < current.drop_first().len()
                ==> #[trigger] current.drop_first()[i] == current[i + 1]);
        }
        lemma_new_entries_unique(old_nodes, current.drop_first());
        let rest = spec_new_entries(old_nodes, current.drop_first());
        if !has_id(old_nodes, current[0].id) && constructible(current[0].desc) {
            let e = RegistryEntry {
                id: current[0].id,
                node: spec_new_node(current[0].id, current[0].desc),
            };
            assert(!has_id(rest, current[0].id)) by {
                lemma_new_entries_membership(old_nodes, current.drop_first(), current[0].id);
                if spec_live(current.drop_first(), current[0].id) {
                    let k = choose|k: int| 0 <= k < current.drop_first().len()
                        && current.drop_first()[k].id == current[0].id && constructible(
                        current.drop_first()[k].desc,
                    );
                    assert(current[k + 1].id == current[0].id);
                }
            }
            let whole = spec_new_entries(old_nodes, current);
            assert(whole =~= seq![e] + rest);
            assert forall|i: int, j: int| 0 <= i < j < whole.len() implies whole[i].id != whole[j].id by {
                if i == 0 {
                    assert(whole[j] == rest[j - 1]);
                    if whole[j].id == current[0].id {
                        assert(has_id(rest, current[0].id));
                    }
                } else {
                    assert(whole[i] == rest[i - 1] && whole[j] == rest[j - 1]);
                }
            }
        } else {
            assert(spec_new_entries(old_nodes, current) =~= rest);
        }
    }
}

/// The per-node observation one tick's poll pass consumes: the entity's
/// physics snapshot and its kind-specific inputs.
#[derive(Debug, Clone, Copy, PartialEq, Eq, Structural)]
pub struct PollInput {
    pub snapshot: ActorSnapshot,
    pub data: PollData,
}

/// What one reconciliation reports: the ids added, removed and rejected, the
/// one-shot vehicle announcements to publish, and the subscribe sides to
/// spawn.
#[derive(Debug, Clone, PartialEq)]
pub struct ReconcileReport {
    pub added: Vec<u32>,
    pub removed: Vec<u32>,
    pub rejected: Vec<u32>,
    pub announcements: Vec<(u32, VehicleInfoMsg)>,
    pub subscribe_sides: Vec<(u32, ActorSub)>,
}

/// The registry of live nodes, keyed by entity id.
#[derive(Debug, Clone, PartialEq)]
pub struct Registry {
    pub nodes: Vec<RegistryEntry>,
}

/// Whether an id list holds `id`.
fn contains_u32(ids: &Vec<u32>, id: u32) -> (r: bool)
    ensures
        r == ids@.contains(id),
{
    let mut i: usize = 0;
    while i < ids.len()
        invariant
            i <= ids@.len(),
            forall|k: int| 0 <= k < i ==> ids@[k] != id,
        decreases ids@.len() - i,
    {
        if ids[i] == id {
            return true;
        }
        i = i + 1;
    }
    false
}

impl Registry {
    /// An empty registry: no entity is known yet.
    pub fn new() -> (r: Registry)
        ensures
            r.nodes@.len() == 0,
    {
        Registry { nodes: Vec::new() }
    }

    /// Reconciles the node set with the simulator's current entity set.
    ///
    /// Nodes of vanished ids are dropped; nodes of surviving ids are kept
    /// untouched, in their order; new constructible ids get fresh nodes,
    /// appended in discovery order; a new vehicle without its role name is
    /// rejected, and only that entity's registration is skipped.  The report
    /// lists the added, removed and rejected ids, the one-shot vehicle
    /// announcements, and the subscribe sides to spawn.
    pub fn reconcile(&mut self, current: Vec<DiscoveredActor>) -> (report: ReconcileReport)
        requires
            unique_ids(old(self).nodes@),
            disc_unique(current@),
        ensures
            final(self).nodes@ == spec_kept(old(self).nodes@, current@) + spec_new_entries(
                old(self).nodes@,
                current@,
            ),
            unique_ids(final(self).nodes@),
            forall|id: u32| has_id(final(self).nodes@, id) <==> ((has_id(old(self).nodes@, id)
                && disc_has_id(current@, id)) || (!has_id(old(self).nodes@, id) && spec_live(
                current@,
                id,
            ))),
            report.removed@ == spec_removed(old(self).nodes@, current@),
            report.added@ == spec_added(old(self).nodes@, current@),
            report.rejected@ == spec_rejected(old(self).nodes@, current@),
            report.subscribe_sides@ == spec_new_subs(old(self).nodes@, current@),
            report.announcements@.len() == spec_announced_ids(old(self).nodes@, current@).len(),
            forall|j: int| 0 <= j < report.announcements@.len()
                ==> #[trigger] report.announcements@[j].0 == spec_announced_ids(
                old(self).nodes@,
                current@,
            )[j] && announcement_ok(report.announcements@[j], current@),
    {
        let ghost old_nodes = self.nodes@;
        let ghost curr_seq = current@;

        // Snapshot the current ids for the retain test.
        let mut curr_ids: Vec<u32> = Vec::new();
        let mut i: usize = 0;
        while i < current.len()
            invariant
                curr_seq == current@,
                i <= curr_seq.len(),
                curr_ids@.len() == i,
                forall|k: int| 0 <= k < i ==> curr_ids@[k] == #[trigger] curr_seq[k].id,
            decreases curr_seq.len() - i,
        {
            curr_ids.push(current[i].id);
            i = i + 1;
        }
        proof {
            assert forall|id: u32| curr_ids@.contains(id) == disc_has_id(curr_seq, id) by {
                if curr_ids@.contains(id) {
                    let k = choose|k: int| 0 <= k < curr_ids@.len() && curr_ids@[k] == id;
                    assert(curr_seq[k].id == id);
                }
                if disc_has_id(curr_seq, id) {
                    let k = choose|k: int| 0 <= k < curr_seq.len() && curr_seq[k].id == id;
                    assert(curr_ids@[k] == id);
                }
            }
        }

        // Snapshot the old ids for the new-entity test.
        let mut old_ids: Vec<u32> = Vec::new();
        let mut i2: usize = 0;
        while i2 < self.nodes.len()
            invariant
                old_nodes == self.nodes@,
                i2 <= old_nodes.len(),
                old_ids@.len() == i2,
                forall|k: int| 0 <= k < i2 ==> old_ids@[k] == #[trigger] old_nodes[k].id,
            decreases old_nodes.len() - i2,
        {
            old_ids.push(self.nodes[i2].id);
            i2 = i2 + 1;
        }
        proof {
            assert forall|id: u32| old_ids@.contains(id) == has_id(old_nodes, id) by {
                if old_ids@.contains(id) {
                    let k = choose|k: int| 0 <= k < old_ids@.len() && old_ids@[k] == id;
                    assert(old_nodes[k].id == id);
                }
                if has_id(old_nodes, id) {
                    let k = choose|k: int| 0 <= k < old_nodes.len() && old_nodes[k].id == id;
                    assert(old_ids@[k] == id);
                }
            }
        }

        // Retain the nodes whose ids are still current, in their old order.
        let mut old_vec: Vec<RegistryEntry> = Vec::new();
        core::mem::swap(&mut old_vec, &mut self.nodes);
        proof {
            assert(old_vec@.len() <= usize::MAX);
        }
        let mut kept: Vec<RegistryEntry> = Vec::new();
        let mut removed: Vec<u32> = Vec::new();
        let mut done: usize = 0;
        while old_vec.len() > 0
            invariant
                old_nodes.len() <= usize::MAX,
                done + old_vec@.len() == old_nodes.len(),
                old_vec@ == old_nodes.skip(done as int),
                kept@ == spec_kept(old_nodes.take(done as int), curr_seq),
                removed@ == spec_removed(old_nodes.take(done as int), curr_seq),
                forall|id: u32| curr_ids@.contains(id) == disc_has_id(curr_seq, id),
            decreases old_vec@.len(),
        {
            let e = old_vec.remove(0);
            proof {
                assert(e == old_nodes[done as int]);
                assert(old_vec@ =~= old_nodes.skip(done + 1 as int));
                lemma_kept_push(old_nodes.take(done as int), e, curr_seq);
                assert(old_nodes.take(done + 1 as int) =~= old_nodes.take(done as int).push(e));
            }
            if contains_u32(&curr_ids, e.id) {
                kept.push(e);
            } else {
                removed.push(e.id);
            }
            proof {
                if disc_has_id(curr_seq, e.id) {
                    assert(kept@ =~= spec_kept(old_nodes.take(done + 1 as int), curr_seq));
                    assert(removed@ =~= spec_removed(old_nodes.take(done + 1 as int), curr_seq));
                } else {
                    assert(kept@ =~= spec_kept(old_nodes.take(done + 1 as int), curr_seq));
                    assert(removed@ =~= spec_removed(old_nodes.take(done + 1 as int), curr_seq));
                }
            }
            done = done + 1;
        }
        proof {
            assert(old_nodes.take(old_nodes.len() as int) =~= old_nodes);
        }

        // Construct nodes for the new ids, in discovery order.
        let mut cur = current;
        proof {
            assert(cur@.len() <= usize::MAX);
        }
        let mut added: Vec<u32> = Vec::new();
        let mut rejected: Vec<u32> = Vec::new();
        let mut announcements: Vec<(u32, VehicleInfoMsg)> = Vec::new();
        let mut subscribe_sides: Vec<(u32, ActorSub)> = Vec::new();
        let mut seen: usize = 0;
        while cur.len() > 0
            invariant
                curr_seq.len() <= usize::MAX,
                seen + cur@.len() == curr_seq.len(),
                cur@ == curr_seq.skip(seen as int),
                kept@ == spec_kept(old_nodes, curr_seq) + spec_new_entries(
                    old_nodes,
                    curr_seq.take(seen as int),
                ),
                added@ == spec_added(old_nodes, curr_seq.take(seen as int)),
                rejected@ == spec_rejected(old_nodes, curr_seq.take(seen as int)),
                subscribe_sides@ == spec_new_subs(old_nodes, curr_seq.take(seen as int)),
                announcements@.len() == spec_announced_ids(
                    old_nodes,
                    curr_seq.take(seen as int),
                ).len(),
                forall|j: int| 0 <= j < announcements@.len() ==> #[trigger] announcements@[j].0
                    == spec_announced_ids(old_nodes, curr_seq.take(seen as int))[j]
                    && announcement_ok(announcements@[j], curr_seq),
                forall|id: u32| old_ids@.contains(id) == has_id(old_nodes, id),
            decreases cur@.len(),
        {
            let d = cur.remove(0);
            proof {
                assert(d == curr_seq[seen as int]);
                assert(cur@ =~= curr_seq.skip(seen + 1 as int));
                lemma_new_push(old_nodes, curr_seq.take(seen as int), d);
                assert(curr_seq.take(seen + 1 as int) =~= curr_seq.take(seen as int).push(d));
            }
            let is_new = !contains_u32(&old_ids, d.id);
            let ghost announced_pre = spec_announced_ids(old_nodes, curr_seq.take(seen as int));
            let ghost announced_post = spec_announced_ids(old_nodes, curr_seq.take(seen + 1 as int));
            if is_new {
                let ghost ddesc = d.desc;
                let ghost did = d.id;
                match generic::new(d.id, d.desc) {
                    Ok((node, sub, info)) => {
                        kept.push(RegistryEntry { id: d.id, node });
                        added.push(d.id);
                        subscribe_sides.push((d.id, sub));
                        if let Some(info_msg) = info {
                            announcements.push((d.id, info_msg));
                            proof {
                                assert(announced_post =~= announced_pre.push(did));
                                assert(announcement_ok(announcements@.last(), curr_seq)) by {
                                    assert(curr_seq[seen as int].id == did);
                                }
                            }
                        } else {
                            proof {
                                assert(announced_post =~= announced_pre);
                            }
                        }
                    },
                    Err(_) => {
                        rejected.push(d.id);
                        proof {
                            assert(announced_post =~= announced_pre);
                        }
                    },
                }
            } else {
                proof {
                    assert(announced_post =~= announced_pre);
                }
            }
            proof {
                assert(kept@ =~= spec_kept(old_nodes, curr_seq) + spec_new_entries(
                    old_nodes,
                    curr_seq.take(seen + 1 as int),
                ));
                assert(added@ =~= spec_added(old_nodes, curr_seq.take(seen + 1 as int)));
                assert(rejected@ =~= spec_rejected(old_nodes, curr_seq.take(seen + 1 as int)));
                assert(subscribe_sides@ =~= spec_new_subs(
                    old_nodes,
                    curr_seq.take(seen + 1 as int),
                ));
            }
            seen = seen + 1;
        }
        proof {
            assert(curr_seq.take(curr_seq.len() as int) =~= curr_seq);
        }
        self.nodes = kept;

        proof {
            lemma_kept_unique(old_nodes, curr_seq);
            lemma_new_entries_unique(old_nodes, curr_seq);
            let k = spec_kept(old_nodes, curr_seq);
            let n = spec_new_entries(old_nodes, curr_seq);
            assert forall|id: u32| has_id(self.nodes@, id) <==> ((has_id(old_nodes, id)
                && disc_has_id(curr_seq, id)) || (!has_id(old_nodes, id) && spec_live(
                curr_seq,
                id,
            ))) by {
                lemma_has_id_concat(k, n, id);
                lemma_kept_membership(old_nodes, curr_seq, id);
                lemma_new_entries_membership(old_nodes, curr_seq, id);
            }
            assert forall|i: int, j: int| 0 <= i < j < self.nodes@.len()
                implies self.nodes@[i].id != self.nodes@[j].id by {
                if j < k.len() {
                } else if i >= k.len() {
                } else {
                    // one entry kept, one fresh: a fresh id is absent from the
                    // old registry, a kept id is present.
                    assert(self.nodes@[i] == k[i]);
                    assert(self.nodes@[j] == n[j - k.len()]);
                    assert(has_id(k, k[i].id));
                    assert(has_id(n, n[j - k.len()].id));
                    lemma_kept_membership(old_nodes, curr_seq, k[i].id);
                    lemma_new_entries_membership(old_nodes, curr_seq, n[j - k.len()].id);
                }
            }
        }

        ReconcileReport { added, removed, rejected, announcements, subscribe_sides }
    }

    /// Polls every live node exactly once, in node order, with the matching
    /// per-node observation, and produces the tick's heartbeat after all of
    /// them.  One output per node, in the same order; the shell publishes
    /// the outputs first and the heartbeat last.
    pub fn poll_all(
        &mut self,
        time: TimeMsg,
        delta: &TimeDelta,
        inputs: &Vec<PollInput>,
    ) -> (r: (Vec<PollOutput>, EmptyMsg))
        requires
            inputs@.len() == old(self).nodes@.len(),
            forall|i: int| 0 <= i < old(self).nodes@.len() ==> can_poll(
                #[trigger] old(self).nodes@[i].node,
            ) && data_matches(old(self).nodes@[i].node, inputs@[i].data),
        ensures
            final(self).nodes@.len() == old(self).nodes@.len(),
            forall|i: int| 0 <= i < old(self).nodes@.len() ==> #[trigger] final(self).nodes@[i].id
                == old(self).nodes@[i].id,
            r.0@.len() == old(self).nodes@.len(),
            forall|i: int| 0 <= i < old(self).nodes@.len() ==> poll_spec(
                #[trigger] old(self).nodes@[i].node,
                final(self).nodes@[i].node,
                time,
                *delta,
                inputs@[i].snapshot,
                inputs@[i].data,
                r.0@[i],
            ),
    {
        let ghost old_nodes = self.nodes@;
        let mut rest: Vec<RegistryEntry> = Vec::new();
        core::mem::swap(&mut rest, &mut self.nodes);
        let total = rest.len();
        proof {
            assert(old_nodes.len() == total);
        }
        let mut outs: Vec<PollOutput> = Vec::new();
        let mut done_nodes: Vec<RegistryEntry> = Vec::new();
        let mut i: usize = 0;
        while rest.len() > 0
            invariant
                old_nodes.len() <= usize::MAX,
                i + rest@.len() == old_nodes.len(),
                rest@ == old_nodes.skip(i as int),
                done_nodes@.len() == i,
                outs@.len() == i,
                inputs@.len() == old_nodes.len(),
                forall|k: int| 0 <= k < old_nodes.len() ==> can_poll(
                    #[trigger] old_nodes[k].node,
                ) && data_matches(old_nodes[k].node, inputs@[k].data),
                forall|k: int| 0 <= k < i ==> #[trigger] done_nodes@[k].id == old_nodes[k].id,
                forall|k: int| 0 <= k < i ==> poll_spec(
                    #[trigger] old_nodes[k].node,
                    done_nodes@[k].node,
                    time,
                    *delta,
                    inputs@[k].snapshot,
                    inputs@[k].data,
                    outs@[k],
                ),
            decreases rest@.len(),
        {
            let mut e = rest.remove(0);
            proof {
                assert(e == old_nodes[i as int]);
                assert(rest@ =~= old_nodes.skip(i + 1 as int));
            }
            let input = inputs[i];
            let out = e.node.poll(time, delta, &input.snapshot, &input.data);
            outs.push(out);
            done_nodes.push(e);
            i = i + 1;
        }
        self.nodes = done_nodes;
        (outs, EmptyMsg {})
    }

    /// The live entity ids, in node order.
    pub fn ids(&self) -> (r: Vec<u32>)
        ensures
            r@.len() == self.nodes@.len(),
            forall|i: int| 0 <= i < r@.len() ==> r@[i] == #[trigger] self.nodes@[i].id,
    {
        let mut r: Vec<u32> = Vec::new();
        let mut i: usize = 0;
        while i < self.nodes.len()
            invariant
                i <= self.nodes@.len(),
                r@.len() == i,
                forall|k: int| 0 <= k < i ==> r@[k] == #[trigger] self.nodes@[k].id,
            decreases self.nodes@.len() - i,
        {
            r.push(self.nodes[i].id);
            i = i + 1;
        }
        r
    }
}

} // verus!
