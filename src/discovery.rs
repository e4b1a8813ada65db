//! The decisions of one discovery cycle: which listed machines become
//! candidate backends, whether to provision, and which set to publish.
use vstd::prelude::*;
use crate::backend::{Backend, BackendView, backend_of, views};
use crate::machine::{Machine, MachineError};
use crate::registry::{dedup_by_addr, dedup_by_address, distinct_addrs, lemma_dedup_members, lemma_dedup_of_distinct, has_addr};

verus! {

/// Seconds between two discovery cycles.
pub const DISCOVERY_INTERVAL_SECS: u64 = 5;

/// A listed machine, with whether its backend address `<ip>:80` parses as a
/// socket address.
#[derive(Clone, Debug, PartialEq, Eq)]
pub struct CheckedMachine {
    pub machine: Machine,
    pub address_parses: bool,
}

/// The backends of the machines whose address parses, in listing order.
pub open spec fn candidate_views(ms: Seq<CheckedMachine>) -> Seq<BackendView>
    decreases ms.len(),
{
    if ms.len() == 0 {
        Seq::empty()
    } else {
        let rest = candidate_views(ms.drop_last());
        if ms.last().address_parses {
            rest.push(backend_of(ms.last().machine.ip_address@))
        } else {
            rest
        }
    }
}

/// The set that a cycle publishes for a listing, before provisioning.
pub open spec fn candidate_set(ms: Seq<CheckedMachine>) -> Seq<BackendView> {
    dedup_by_addr(candidate_views(ms))
}

/// Converts every listed machine into a backend; one whose address does not
/// parse is left out and does not fail the cycle. Repeated addresses are
/// kept once.
pub fn collect_candidates(ms: &Vec<CheckedMachine>) -> (r: Vec<Backend>)
    ensures
        views(r@) == candidate_set(ms@),
{
    let mut all: Vec<Backend> = Vec::new();
    let mut i: usize = 0;
    while i < ms.len()
        invariant
            i <= ms@.len(),
            views(all@) == candidate_views(ms@.subrange(0, i as int)),
        decreases ms@.len() - i,
    {
        proof {
            assert(ms@.subrange(0, i as int + 1).drop_last() =~= ms@.subrange(0, i as int));
        }
        let m = ms[i].machine.clone();
        match Backend::try_from_machine(m, ms[i].address_parses) {
            Ok(b) => {
                let ghost before = all@;
                all.push(b);
                proof {
                    assert(views(all@) =~= views(before).push(b@));
                }
            },
            Err(_) => {},
        }
        i = i + 1;
    }
    proof {
        assert(ms@.subrange(0, i as int) =~= ms@);
    }
    dedup_by_address(all)
}

/// The scaling decision: provision a machine when no candidate is left.
pub fn should_provision(candidates: &Vec<Backend>) -> (r: bool)
    ensures
        r == (candidates@.len() == 0),
{
    candidates.len() == 0
}

/// What a discovery cycle does once the fleet has been listed.
#[derive(Debug)]
pub enum CycleStep {
    /// Listing failed: publish nothing, keep the current set.
    KeepCurrent,
    /// Publish these backends.
    Publish(Vec<Backend>),
    /// No candidate: provision one machine, then finish the cycle with
    /// `complete_cycle` over these (empty) candidates.
    Provision(Vec<Backend>),
}

/// Decides the rest of a cycle from the listing. A failed listing keeps the
/// current set; otherwise the candidates are published, or, when there are
/// none, one machine is provisioned first.
pub fn plan_cycle(listed: Result<Vec<CheckedMachine>, MachineError>) -> (r: CycleStep)
    ensures
        listed is Err ==> r is KeepCurrent,
        listed is Ok && candidate_set(listed->Ok_0@).len() > 0 ==> r is Publish && views(
            r->Publish_0@,
        ) == candidate_set(listed->Ok_0@),
        listed is Ok && candidate_set(listed->Ok_0@).len() == 0 ==> r is Provision && r->Provision_0@.len()
            == 0,
{
    match listed {
        Err(_) => CycleStep::KeepCurrent,
        Ok(ms) => {
            let candidates = collect_candidates(&ms);
            if should_provision(&candidates) {
                CycleStep::Provision(candidates)
            } else {
                CycleStep::Publish(candidates)
            }
        },
    }
}

/// Finishes a cycle that provisioned: a machine that was created, and whose
/// address parses, joins the candidates before they are published; a failed
/// provisioning leaves the candidates as they are.
pub fn complete_cycle(candidates: Vec<Backend>, created: Result<CheckedMachine, MachineError>) -> (r:
    Vec<Backend>)
    ensures
        created is Ok && created->Ok_0.address_parses ==> views(r@) == dedup_by_addr(
            views(candidates@).push(backend_of(created->Ok_0.machine.ip_address@)),
        ),
        !(created is Ok && created->Ok_0.address_parses) ==> views(r@) == dedup_by_addr(
            views(candidates@),
        ),
{
    let mut all = candidates;
    match created {
        Ok(cm) => {
            match Backend::try_from_machine(cm.machine, cm.address_parses) {
                Ok(b) => {
                    let ghost before = all@;
                    all.push(b);
                    proof {
                        assert(views(all@) =~= views(before).push(b@));
                    }
                },
                Err(_) => {},
            }
        },
        Err(_) => {},
    }
    dedup_by_address(all)
}

/// A cycle that starts from no candidates and creates a machine at `ip`
/// publishes exactly one backend, `<ip>:80` with weight 1.
pub proof fn lemma_empty_fleet_grows_to_one(ip: Seq<char>)
    ensures
        dedup_by_addr(Seq::<BackendView>::empty().push(backend_of(ip))) == seq![backend_of(ip)],
{
    let s = Seq::<BackendView>::empty().push(backend_of(ip));
    assert(s.drop_last() =~= Seq::<BackendView>::empty());
    assert(dedup_by_addr(s.drop_last()) == Seq::<BackendView>::empty());
    assert(!has_addr(Seq::<BackendView>::empty(), backend_of(ip).0));
    assert(dedup_by_addr(s) =~= seq![backend_of(ip)]);
}

/// Every candidate of a listing has weight 1.
proof fn lemma_candidates_unit_weight(ms: Seq<CheckedMachine>)
    ensures
        forall|i: int| 0 <= i < candidate_views(ms).len() ==> #[trigger] candidate_views(ms)[i].1 == 1,
    decreases ms.len(),
{
    if ms.len() > 0 {
        let rest = candidate_views(ms.drop_last());
        lemma_candidates_unit_weight(ms.drop_last());
        assert forall|i: int| 0 <= i < candidate_views(ms).len() implies #[trigger] candidate_views(
            ms,
        )[i].1 == 1 by {
            if i < rest.len() {
                assert(rest[i].1 == 1);
            }
        }
    }
}

/// A cycle is idempotent: run again over an unchanged listing it publishes
/// the same set, with no address twice, and publishing that set again into
/// the registry leaves it as it is.
pub proof fn lemma_cycle_idempotent(ms: Seq<CheckedMachine>)
    ensures
        distinct_addrs(candidate_set(ms)),
        dedup_by_addr(candidate_set(ms)) == candidate_set(ms),
{
    lemma_dedup_members(candidate_views(ms));
    lemma_dedup_of_distinct(candidate_set(ms));
}

/// The published set does not depend on the order of the listing: two
/// listings with the same candidate backends publish the same backends.
pub proof fn lemma_cycle_order_independent(a: Seq<CheckedMachine>, b: Seq<CheckedMachine>)
    requires
        candidate_views(a).to_set() == candidate_views(b).to_set(),
    ensures
        candidate_set(a).to_set() == candidate_set(b).to_set(),
{
    lemma_cycle_set_included(a, b);
    lemma_cycle_set_included(b, a);
    assert(candidate_set(a).to_set() =~= candidate_set(b).to_set());
}

/// One half of the order independence: a published backend of `a` is a
/// published backend of `b`.
proof fn lemma_cycle_set_included(a: Seq<CheckedMachine>, b: Seq<CheckedMachine>)
    requires
        candidate_views(a).to_set() == candidate_views(b).to_set(),
    ensures
        forall|x: BackendView| candidate_set(a).contains(x) ==> candidate_set(b).contains(x),
{
    let ca = candidate_views(a);
    let cb = candidate_views(b);
    lemma_dedup_members(ca);
    lemma_dedup_members(cb);
    lemma_candidates_unit_weight(a);
    lemma_candidates_unit_weight(b);
    assert forall|x: BackendView| candidate_set(a).contains(x) implies candidate_set(b).contains(
        x,
    ) by {
        let i = choose|i: int| 0 <= i < candidate_set(a).len() && candidate_set(a)[i] == x;
        assert(ca.contains(x));
        assert(ca.to_set().contains(x));
        assert(cb.contains(x));
        let j = choose|j: int| 0 <= j < cb.len() && cb[j] == x;
        assert(cb[j].0 == x.0);
        assert(has_addr(cb, x.0));
        assert(has_addr(dedup_by_addr(cb), x.0));
        let k = choose|k: int|
            0 <= k < dedup_by_addr(cb).len() && #[trigger] dedup_by_addr(cb)[k].0 == x.0;
        assert(cb.contains(dedup_by_addr(cb)[k]));
        let m = choose|m: int| 0 <= m < cb.len() && cb[m] == dedup_by_addr(cb)[k];
        assert(cb[m].1 == 1);
        let l = choose|l: int| 0 <= l < ca.len() && ca[l] == x;
        assert(ca[l].1 == 1);
        assert(dedup_by_addr(cb)[k] == x);
    }
}

} // verus!
