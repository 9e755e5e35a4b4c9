//! Markers that record, in the type of a request builder, which of its
//! required fields have been given, and the state machine that they form.

use vstd::prelude::*;

verus! {

/// A marker for one required field of a builder: given or not yet given.
pub trait ToAssign {
    /// Whether the marker says that the field has been given.
    spec fn assigned() -> bool;
}

/// The field has been given.
#[derive(Debug, Clone, Copy)]
pub struct Yes;

/// The field has not been given yet.
#[derive(Debug, Clone, Copy)]
pub struct No;

impl ToAssign for Yes {
    open spec fn assigned() -> bool {
        true
    }
}

impl ToAssign for No {
    open spec fn assigned() -> bool {
        false
    }
}

/// One call in a builder chain.
pub enum Step {
    /// `with_..` for the required field of the given index.
    Required(int),
    /// `with_..` for any optional field.
    Optional,
}

/// The markers of a fresh builder with `n` required fields: none is set.
pub open spec fn initial_markers(n: nat) -> Seq<bool> {
    Seq::new(n, |i: int| false)
}

/// The markers after one call.
pub open spec fn step(markers: Seq<bool>, call: Step) -> Seq<bool> {
    match call {
        Step::Required(i) => if 0 <= i < markers.len() {
            markers.update(i, true)
        } else {
            markers
        },
        Step::Optional => markers,
    }
}

/// The markers after a chain of calls.
pub open spec fn run(markers: Seq<bool>, chain: Seq<Step>) -> Seq<bool>
    decreases chain.len(),
{
    if chain.len() == 0 {
        markers
    } else {
        step(run(markers, chain.drop_last()), chain.last())
    }
}

/// Whether a builder with these markers can be finalized: every marker is set.
pub open spec fn terminal(markers: Seq<bool>) -> bool {
    forall|i: int| 0 <= i < markers.len() ==> #[trigger] markers[i]
}

/// A chain keeps the number of markers, and a marker is set after it exactly
/// when it was set before or the chain holds the call that sets it.
pub proof fn lemma_run(markers: Seq<bool>, chain: Seq<Step>)
    ensures
        run(markers, chain).len() == markers.len(),
        forall|i: int|
            0 <= i < markers.len() ==> (#[trigger] run(markers, chain)[i] <==> (markers[i]
                || chain.contains(Step::Required(i)))),
    decreases chain.len(),
{
    if chain.len() > 0 {
        let before = chain.drop_last();
        lemma_run(markers, before);
        assert forall|i: int| 0 <= i < markers.len() implies (#[trigger] run(markers, chain)[i]
            <==> (markers[i] || chain.contains(Step::Required(i)))) by {
            if chain.contains(Step::Required(i)) {
                let k = choose|k: int| 0 <= k < chain.len() && chain[k] == Step::Required(i);
                if k < chain.len() - 1 {
                    assert(before[k] == Step::Required(i));
                }
            }
            if before.contains(Step::Required(i)) {
                let k = choose|k: int| 0 <= k < before.len() && before[k] == Step::Required(i);
                assert(chain[k] == Step::Required(i));
            }
            if chain.last() == Step::Required(i) {
                assert(chain[chain.len() - 1] == Step::Required(i));
            }
        }
    }
}

/// No chain of calls that leaves out a required field reaches the state in
/// which the builder can be finalized.
pub proof fn lemma_no_chain_skips_a_required_field(n: nat, chain: Seq<Step>, field: int)
    requires
        0 <= field < n,
        !chain.contains(Step::Required(field)),
    ensures
        !terminal(run(initial_markers(n), chain)),
{
    lemma_run(initial_markers(n), chain);
    assert(!run(initial_markers(n), chain)[field]);
}

/// A chain that gives every required field reaches the state in which the
/// builder can be finalized, whatever else it holds.
pub proof fn lemma_complete_chain_is_terminal(n: nat, chain: Seq<Step>)
    requires
        forall|i: int| 0 <= i < n ==> chain.contains(Step::Required(i)),
    ensures
        terminal(run(initial_markers(n), chain)),
{
    lemma_run(initial_markers(n), chain);
}

/// Giving a required field a second time leaves the markers as they were,
/// and giving an optional field never changes them.
pub proof fn lemma_step_is_idempotent(markers: Seq<bool>, call: Step)
    ensures
        step(step(markers, call), call) == step(markers, call),
        step(markers, Step::Optional) == markers,
{
    assert(step(step(markers, call), call) =~= step(markers, call));
}

} // verus!
