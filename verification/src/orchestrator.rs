//! The staged collection sequence.
//!
//! After the registry discovery request and its round-trip barrier, the
//! snapshot is completed in fixed stages: one pass creating a logical-output
//! placeholder per (manager, output) pair (requests only, no barrier), then
//! one keyboard bind per seat with a barrier after each — the per-seat
//! barrier keeps repeat-info events attributable to the right seat — then a
//! fixed number of extra barriers draining spontaneous events, then the
//! freeze. The drain count is a pragmatic fixed-point approximation, not a
//! completeness argument.

use vstd::prelude::*;

use crate::app::{AppData, SnapshotView};
use crate::protocols::xdg_output::{XdgOutputManagerView, XdgOutputView};

verus! {

/// Barriers executed after the per-seat stage, issuing no new requests.
pub const DRAIN_BARRIERS: usize = 5;

/// One step of the collection sequence, for the connection loop to execute:
/// a round-trip barrier, the logical-output pass, one seat's keyboard bind,
/// or the freeze after which the snapshot is read-only.
#[derive(Clone, Copy, Debug, PartialEq, Eq, Structural)]
pub enum PlanStep {
    Roundtrip,
    BindLogicalOutputs,
    BindSeatKeyboard { seat_index: usize },
    Freeze,
}

/// The per-seat stage: each seat's keyboard bind followed immediately by
/// its own barrier, seats in index order.
pub open spec fn keyboard_steps(n_seats: int) -> Seq<PlanStep>
    decreases n_seats,
{
    if n_seats <= 0 {
        Seq::empty()
    } else {
        keyboard_steps(n_seats - 1) + seq![
            PlanStep::BindSeatKeyboard { seat_index: (n_seats - 1) as usize },
            PlanStep::Roundtrip,
        ]
    }
}

/// `n` barriers with no requests in between.
pub open spec fn drain_steps(n: int) -> Seq<PlanStep>
    decreases n,
{
    if n <= 0 {
        Seq::empty()
    } else {
        drain_steps(n - 1) + seq![PlanStep::Roundtrip]
    }
}

/// Everything that runs after the discovery barrier, in order: the
/// logical-output pass, the per-seat keyboard stage, the drain barriers,
/// the freeze.
pub open spec fn post_discovery_plan_spec(n_seats: int) -> Seq<PlanStep> {
    seq![PlanStep::BindLogicalOutputs] + keyboard_steps(n_seats) + drain_steps(
        DRAIN_BARRIERS as int,
    ) + seq![PlanStep::Freeze]
}

/// The steps to execute once discovery has completed and `n_seats` seats
/// are known.
pub fn post_discovery_plan(n_seats: usize) -> (plan: Vec<PlanStep>)
    ensures
        plan@ == post_discovery_plan_spec(n_seats as int),
{
    let mut plan: Vec<PlanStep> = Vec::new();
    plan.push(PlanStep::BindLogicalOutputs);
    let mut i: usize = 0;
    while i < n_seats
        invariant
            i <= n_seats,
            plan@ == seq![PlanStep::BindLogicalOutputs] + keyboard_steps(i as int),
        decreases n_seats - i,
    {
        plan.push(PlanStep::BindSeatKeyboard { seat_index: i });
        plan.push(PlanStep::Roundtrip);
        proof {
            assert(plan@ =~= seq![PlanStep::BindLogicalOutputs] + keyboard_steps(i + 1));
        }
        i = i + 1;
    }
    let mut d: usize = 0;
    while d < DRAIN_BARRIERS
        invariant
            d <= DRAIN_BARRIERS,
            plan@ == seq![PlanStep::BindLogicalOutputs] + keyboard_steps(n_seats as int)
                + drain_steps(d as int),
        decreases DRAIN_BARRIERS - d,
    {
        plan.push(PlanStep::Roundtrip);
        proof {
            assert(plan@ =~= seq![PlanStep::BindLogicalOutputs] + keyboard_steps(n_seats as int)
                + drain_steps(d + 1));
        }
        d = d + 1;
    }
    plan.push(PlanStep::Freeze);
    proof {
        assert(plan@ =~= post_discovery_plan_spec(n_seats as int));
    }
    plan
}

/// The placeholder record owned by the output with local index `o`.
pub open spec fn placeholder_logical_output(o: int) -> XdgOutputView {
    XdgOutputView {
        output_id: o as u32,
        name: Seq::empty(),
        description: Seq::empty(),
        logical_x: 0,
        logical_y: 0,
        logical_width: 0,
        logical_height: 0,
    }
}

/// One placeholder per output, in output order.
pub open spec fn placeholder_run(n_outputs: int) -> Seq<XdgOutputView> {
    Seq::new(
        if n_outputs <= 0 { 0 } else { n_outputs as nat },
        |o: int| placeholder_logical_output(o),
    )
}

/// The snapshot after the logical-output pass: every manager gains one
/// placeholder per output, appended in output order; nothing else changes.
pub open spec fn logical_output_pass_spec(s: SnapshotView) -> SnapshotView {
    SnapshotView {
        xdg_output_managers: Seq::new(
            s.xdg_output_managers.len(),
            |m: int| XdgOutputManagerView {
                name: s.xdg_output_managers[m].name,
                outputs: s.xdg_output_managers[m].outputs + placeholder_run(s.outputs.len() as int),
            },
        ),
        ..s
    }
}

/// The pairs bound for one manager, outputs in index order.
pub open spec fn manager_pair_row(m: usize, n_outputs: int) -> Seq<(usize, usize)> {
    Seq::new(if n_outputs <= 0 { 0 } else { n_outputs as nat }, |o: int| (m, o as usize))
}

/// The pairs bound for the first `n_managers` managers, manager-major.
pub open spec fn pair_rows(n_managers: int, n_outputs: int) -> Seq<(usize, usize)>
    decreases n_managers,
{
    if n_managers <= 0 {
        Seq::empty()
    } else {
        pair_rows(n_managers - 1, n_outputs) + manager_pair_row(
            (n_managers - 1) as usize,
            n_outputs,
        )
    }
}

/// For every manager and output known before the logical-output pass,
/// exactly one logical-output record exists for the pair afterwards,
/// addressable by the output's local index: a manager that started with no
/// logical outputs ends with exactly one per output, and the record at
/// index `o` carries `o` as its owning output's index.
pub proof fn lemma_one_logical_output_per_pair(s: SnapshotView)
    requires
        forall|m: int| 0 <= m < s.xdg_output_managers.len()
            ==> #[trigger] s.xdg_output_managers[m].outputs.len() == 0,
    ensures
        logical_output_pass_spec(s).xdg_output_managers.len() == s.xdg_output_managers.len(),
        forall|m: int| 0 <= m < s.xdg_output_managers.len()
            ==> #[trigger] logical_output_pass_spec(s).xdg_output_managers[m].outputs.len()
                == s.outputs.len(),
        forall|m: int, o: int| 0 <= m < s.xdg_output_managers.len() && 0 <= o < s.outputs.len()
            ==> #[trigger] logical_output_pass_spec(s).xdg_output_managers[m].outputs[o].output_id
                == o as u32,
{
    let post = logical_output_pass_spec(s);
    assert forall|m: int| 0 <= m < s.xdg_output_managers.len() implies #[trigger] post
        .xdg_output_managers[m].outputs.len() == s.outputs.len() by {
        assert(post.xdg_output_managers[m].outputs =~= placeholder_run(s.outputs.len() as int));
    }
    assert forall|m: int, o: int|
        0 <= m < s.xdg_output_managers.len() && 0 <= o < s.outputs.len() implies #[trigger] post
        .xdg_output_managers[m].outputs[o].output_id == o as u32 by {
        assert(post.xdg_output_managers[m].outputs =~= placeholder_run(s.outputs.len() as int));
        assert(post.xdg_output_managers[m].outputs[o] == placeholder_logical_output(o));
    }
}

impl AppData {
    /// The logical-output pass: records one placeholder per (manager,
    /// output) pair, keyed by the output's local index, and returns the
    /// (manager index, output index) pairs whose dependent binds the caller
    /// must issue, in the same order.
    pub fn register_logical_output_pairs(&mut self) -> (pairs: Vec<(usize, usize)>)
        requires
            old(self).outputs.len() <= 0xffff_ffff,
        ensures
            final(self)@ == logical_output_pass_spec(old(self)@),
            pairs@ == pair_rows(
                old(self)@.xdg_output_managers.len() as int,
                old(self)@.outputs.len() as int,
            ),
    {
        let n_managers = self.xdg_output_managers.len();
        let n_outputs = self.outputs.len();
        let mut pairs: Vec<(usize, usize)> = Vec::new();
        let mut m: usize = 0;
        while m < n_managers
            invariant
                m <= n_managers,
                n_managers == old(self)@.xdg_output_managers.len(),
                n_outputs == old(self)@.outputs.len(),
                n_outputs <= 0xffff_ffff,
                self@.globals == old(self)@.globals,
                self@.seats == old(self)@.seats,
                self@.outputs == old(self)@.outputs,
                self@.shm_info == old(self)@.shm_info,
                self@.drm_lease_devices == old(self)@.drm_lease_devices,
                self@.presentation_info == old(self)@.presentation_info,
                self@.treeland_output_managers == old(self)@.treeland_output_managers,
                self@.xdg_output_managers.len() == n_managers,
                forall|k: int| 0 <= k < m ==> self@.xdg_output_managers[k]
                    == logical_output_pass_spec(old(self)@).xdg_output_managers[k],
                forall|k: int| m <= k < n_managers ==> self@.xdg_output_managers[k] == old(
                    self,
                )@.xdg_output_managers[k],
                pairs@ == pair_rows(m as int, n_outputs as int),
            decreases n_managers - m,
        {
            let ghost manager_before = self@.xdg_output_managers[m as int];
            let mut o: usize = 0;
            while o < n_outputs
                invariant
                    o <= n_outputs,
                    m < n_managers,
                    n_outputs <= 0xffff_ffff,
                    self@.globals == old(self)@.globals,
                    self@.seats == old(self)@.seats,
                    self@.outputs == old(self)@.outputs,
                    self@.shm_info == old(self)@.shm_info,
                    self@.drm_lease_devices == old(self)@.drm_lease_devices,
                    self@.presentation_info == old(self)@.presentation_info,
                    self@.treeland_output_managers == old(self)@.treeland_output_managers,
                    self@.xdg_output_managers.len() == n_managers,
                    forall|k: int| 0 <= k < n_managers && k != m
                        ==> self@.xdg_output_managers[k] == old(self)@.xdg_output_managers[k]
                            || self@.xdg_output_managers[k] == logical_output_pass_spec(
                            old(self)@,
                        ).xdg_output_managers[k],
                    forall|k: int| 0 <= k < m ==> self@.xdg_output_managers[k]
                        == logical_output_pass_spec(old(self)@).xdg_output_managers[k],
                    forall|k: int| m < k < n_managers ==> self@.xdg_output_managers[k] == old(
                        self,
                    )@.xdg_output_managers[k],
                    self@.xdg_output_managers[m as int].name == manager_before.name,
                    self@.xdg_output_managers[m as int].outputs == manager_before.outputs
                        + placeholder_run(o as int),
                    pairs@ == pair_rows(m as int, n_outputs as int) + manager_pair_row(
                        m,
                        o as int,
                    ),
                decreases n_outputs - o,
            {
                self.add_xdg_output(m, o as u32);
                pairs.push((m, o));
                proof {
                    assert(self@.xdg_output_managers[m as int].outputs =~= manager_before.outputs
                        + placeholder_run(o + 1));
                    assert(pairs@ =~= pair_rows(m as int, n_outputs as int) + manager_pair_row(
                        m,
                        o + 1,
                    ));
                }
                o = o + 1;
            }
            proof {
                assert(self@.xdg_output_managers[m as int] =~~= logical_output_pass_spec(
                    old(self)@,
                ).xdg_output_managers[m as int]) by {
                    assert(manager_before == old(self)@.xdg_output_managers[m as int]);
                    assert(self@.xdg_output_managers[m as int].outputs =~= manager_before.outputs
                        + placeholder_run(n_outputs as int));
                }
                assert(pairs@ =~= pair_rows(m + 1, n_outputs as int));
            }
            m = m + 1;
        }
        proof {
            assert(self@ =~~= logical_output_pass_spec(old(self)@));
        }
        pairs
    }
}

} // verus!
