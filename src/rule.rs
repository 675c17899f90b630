use vstd::prelude::*;
use crate::state::{AutomataState, AUTOMATA_FLAG, encode};

verus! {

/// Birth/survival rule of the automaton.
#[derive(Debug, Clone)]
pub struct AutomataRule {
    /// Neighbor counts at which an inactive voxel is born.
    pub birth: Vec<u8>,
    /// Neighbor counts at which a live voxel survives.
    pub survive: Vec<u8>,
    /// Palette index used when birthing a new automaton voxel.
    pub birth_material: u8,
    /// Flags applied to newly created automaton voxels.
    pub birth_flags: u8,
    /// State applied to voxels that fall out of the rule (typically empty space).
    pub inactive_state: AutomataState,
}

impl AutomataRule {
    /// The state of a newly born voxel: birth material, birth flags with the alive flag set.
    pub open spec fn spec_alive_template(&self) -> AutomataState {
        AutomataState { encoded: encode(self.birth_material, self.birth_flags | AUTOMATA_FLAG) }
    }

    /// What `next_state` returns for a voxel and its live-neighbor count.
    pub open spec fn spec_next_state(&self, current: AutomataState, neighbors: u8) -> AutomataState {
        if current.spec_is_static() {
            current
        } else if current.spec_is_alive() {
            if self.survive@.contains(neighbors) {
                AutomataState {
                    encoded: encode(
                        current.spec_material(),
                        (current.spec_flags() | AUTOMATA_FLAG) | (self.birth_flags & !AUTOMATA_FLAG),
                    ),
                }
            } else {
                self.inactive_state
            }
        } else if self.birth@.contains(neighbors) {
            self.spec_alive_template()
        } else {
            self.inactive_state
        }
    }

    /// The state of a newly born voxel.
    pub fn alive_template(&self) -> (r: AutomataState)
        ensures
            r == self.spec_alive_template(),
    {
        AutomataState::from_components(self.birth_material, self.birth_flags | AUTOMATA_FLAG)
    }

    /// Applies the rule to one voxel given its live-neighbor count.
    pub fn next_state(&self, current: AutomataState, neighbors: u8) -> (r: AutomataState)
        ensures
            r == self.spec_next_state(current, neighbors),
    {
        if current.is_static() {
            return current;
        }
        if current.is_alive() {
            if contains_count(&self.survive, neighbors) {
                let mut flags = current.flags() | AUTOMATA_FLAG;
                flags = flags | (self.birth_flags & !AUTOMATA_FLAG);
                current.with_flags(flags)
            } else {
                self.inactive_state
            }
        } else if contains_count(&self.birth, neighbors) {
            self.alive_template()
        } else {
            self.inactive_state
        }
    }
}

impl Default for AutomataRule {
    /// The B5/S45 rule: birth at 5 neighbors, survival at 4 or 5.
    fn default() -> (r: Self)
        ensures
            r.birth@ == seq![5u8],
            r.survive@ == seq![4u8, 5u8],
            r.birth_material == 1,
            r.birth_flags == AUTOMATA_FLAG,
            r.inactive_state.encoded == 0,
    {
        let mut birth: Vec<u8> = Vec::new();
        birth.push(5);
        let mut survive: Vec<u8> = Vec::new();
        survive.push(4);
        survive.push(5);
        AutomataRule {
            birth,
            survive,
            birth_material: 1,
            birth_flags: AUTOMATA_FLAG,
            inactive_state: AutomataState { encoded: 0 },
        }
    }
}

/// Whether `n` is one of the counts in `counts`.
fn contains_count(counts: &Vec<u8>, n: u8) -> (r: bool)
    ensures
        r == counts@.contains(n),
{
    let mut i: usize = 0;
    while i < counts.len()
        invariant
            i <= counts.len(),
            forall|j: int| 0 <= j < i ==> counts@[j] != n,
        decreases counts.len() - i,
    {
        if counts[i] == n {
            return true;
        }
        i += 1;
    }
    false
}

/// Immutable geometry is never touched by the rule, whatever its neighbor count.
pub proof fn lemma_static_unchanged(rule: AutomataRule, current: AutomataState, neighbors: u8)
    requires
        current.spec_is_static(),
        neighbors <= 26,
    ensures
        rule.spec_next_state(current, neighbors) == current,
{
}

} // verus!
