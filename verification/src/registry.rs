//! The registry of runner and side-effect entries. Every known entry point is
//! classified; an unclassified inventory entry is a hard failure.

use vstd::prelude::*;
use crate::text::str_eq;

verus! {

/// How an entry point may reach execution.
#[derive(Debug, Clone, Copy, PartialEq, Eq, Structural)]
pub enum RunnerEntryClass {
    NewGrant,
    GuardedLegacy,
    Blocked,
}

/// One registered entry point.
#[derive(Debug, Clone)]
pub struct RunnerEntry {
    pub id: &'static str,
    pub source_symbol: &'static str,
    pub class: RunnerEntryClass,
}

/// The registry: id, source symbol and class of every entry, in order.
pub open spec fn entry_table() -> Seq<(Seq<char>, Seq<char>, RunnerEntryClass)> {
    seq![
        ("M5-SE-001"@, "admit_granted_side_effect"@, RunnerEntryClass::NewGrant),
        ("M5-SE-002"@, "run_m5_authorized_runtime_with_state"@, RunnerEntryClass::NewGrant),
        ("RUN-001"@, "run_h2_phase_b_with_runner"@, RunnerEntryClass::GuardedLegacy),
        ("RUN-002"@, "run_manual_relay_once_with_process_mode_and_command_profile"@, RunnerEntryClass::GuardedLegacy),
        ("RUN-003"@, "start_agent_conversation_transport"@, RunnerEntryClass::GuardedLegacy),
        ("RUN-004"@, "start_supervisor_conversation_transport"@, RunnerEntryClass::GuardedLegacy),
        ("RUN-005"@, "run_project_workflow_chain_at"@, RunnerEntryClass::GuardedLegacy),
        ("RUN-006"@, "run_workflow_machine_at"@, RunnerEntryClass::Blocked),
        ("RUN-007"@, "start_project_director_chain"@, RunnerEntryClass::GuardedLegacy),
        ("RUN-008"@, "run_real_execution_product_command_phase_b_at"@, RunnerEntryClass::GuardedLegacy),
        ("RUN-009"@, "run_project_workflow_automation_j2_b_b1_at"@, RunnerEntryClass::GuardedLegacy),
        ("RUN-010"@, "launch_supervisor_pilot"@, RunnerEntryClass::GuardedLegacy),
        ("RUN-011"@, "run_supervisor_resident_with_watchdog_retry"@, RunnerEntryClass::GuardedLegacy),
        ("RUN-012"@, "dispatch_from_mcp"@, RunnerEntryClass::GuardedLegacy),
        ("BG-001"@, "run_secretary_explain"@, RunnerEntryClass::GuardedLegacy),
        ("BG-002"@, "run_global_supervisor_review"@, RunnerEntryClass::GuardedLegacy),
        ("BG-003"@, "run_global_supervisor_boundary_review"@, RunnerEntryClass::GuardedLegacy),
        ("BG-004"@, "knowledge_open_relay_start"@, RunnerEntryClass::GuardedLegacy),
        ("BG-005"@, "reap_registered_orphans"@, RunnerEntryClass::GuardedLegacy),
        ("BG-006"@, "reap_supervisor_resident_stale_sessions_at"@, RunnerEntryClass::GuardedLegacy),
        ("BG-007"@, "reap_supervisor_temporary_homes_at"@, RunnerEntryClass::GuardedLegacy)
    ]
}

/// The ids of the known runner and background inventory.
pub open spec fn inventory_table() -> Seq<Seq<char>> {
    seq!["RUN-001"@, "RUN-002"@, "RUN-003"@, "RUN-004"@, "RUN-005"@, "RUN-006"@, "RUN-007"@, "RUN-008"@, "RUN-009"@, "RUN-010"@, "RUN-011"@, "RUN-012"@, "BG-001"@, "BG-002"@, "BG-003"@, "BG-004"@, "BG-005"@, "BG-006"@, "BG-007"@]
}

/// The class of the first registry entry with id `id`.
pub open spec fn class_of_from(id: Seq<char>, k: int) -> Option<RunnerEntryClass>
    decreases entry_table().len() - k,
{
    if k < 0 || k >= entry_table().len() {
        None
    } else if entry_table()[k].0 == id {
        Some(entry_table()[k].2)
    } else {
        class_of_from(id, k + 1)
    }
}

pub open spec fn class_of(id: Seq<char>) -> Option<RunnerEntryClass> {
    class_of_from(id, 0)
}

/// The registry entries.
pub fn entries() -> (v: Vec<RunnerEntry>)
    ensures
        v@.len() == entry_table().len(),
        forall|i: int|
            0 <= i < v@.len() ==> (#[trigger] v@[i]).id@ == entry_table()[i].0 && v@[i].source_symbol@
                == entry_table()[i].1 && v@[i].class == entry_table()[i].2,
{
    let mut v: Vec<RunnerEntry> = Vec::new();
    v.push(RunnerEntry { id: "M5-SE-001", source_symbol: "admit_granted_side_effect", class: RunnerEntryClass::NewGrant });
    v.push(RunnerEntry { id: "M5-SE-002", source_symbol: "run_m5_authorized_runtime_with_state", class: RunnerEntryClass::NewGrant });
    v.push(RunnerEntry { id: "RUN-001", source_symbol: "run_h2_phase_b_with_runner", class: RunnerEntryClass::GuardedLegacy });
    v.push(RunnerEntry { id: "RUN-002", source_symbol: "run_manual_relay_once_with_process_mode_and_command_profile", class: RunnerEntryClass::GuardedLegacy });
    v.push(RunnerEntry { id: "RUN-003", source_symbol: "start_agent_conversation_transport", class: RunnerEntryClass::GuardedLegacy });
    v.push(RunnerEntry { id: "RUN-004", source_symbol: "start_supervisor_conversation_transport", class: RunnerEntryClass::GuardedLegacy });
    v.push(RunnerEntry { id: "RUN-005", source_symbol: "run_project_workflow_chain_at", class: RunnerEntryClass::GuardedLegacy });
    v.push(RunnerEntry { id: "RUN-006", source_symbol: "run_workflow_machine_at", class: RunnerEntryClass::Blocked });
    v.push(RunnerEntry { id: "RUN-007", source_symbol: "start_project_director_chain", class: RunnerEntryClass::GuardedLegacy });
    v.push(RunnerEntry { id: "RUN-008", source_symbol: "run_real_execution_product_command_phase_b_at", class: RunnerEntryClass::GuardedLegacy });
    v.push(RunnerEntry { id: "RUN-009", source_symbol: "run_project_workflow_automation_j2_b_b1_at", class: RunnerEntryClass::GuardedLegacy });
    v.push(RunnerEntry { id: "RUN-010", source_symbol: "launch_supervisor_pilot", class: RunnerEntryClass::GuardedLegacy });
    v.push(RunnerEntry { id: "RUN-011", source_symbol: "run_supervisor_resident_with_watchdog_retry", class: RunnerEntryClass::GuardedLegacy });
    v.push(RunnerEntry { id: "RUN-012", source_symbol: "dispatch_from_mcp", class: RunnerEntryClass::GuardedLegacy });
    v.push(RunnerEntry { id: "BG-001", source_symbol: "run_secretary_explain", class: RunnerEntryClass::GuardedLegacy });
    v.push(RunnerEntry { id: "BG-002", source_symbol: "run_global_supervisor_review", class: RunnerEntryClass::GuardedLegacy });
    v.push(RunnerEntry { id: "BG-003", source_symbol: "run_global_supervisor_boundary_review", class: RunnerEntryClass::GuardedLegacy });
    v.push(RunnerEntry { id: "BG-004", source_symbol: "knowledge_open_relay_start", class: RunnerEntryClass::GuardedLegacy });
    v.push(RunnerEntry { id: "BG-005", source_symbol: "reap_registered_orphans", class: RunnerEntryClass::GuardedLegacy });
    v.push(RunnerEntry { id: "BG-006", source_symbol: "reap_supervisor_resident_stale_sessions_at", class: RunnerEntryClass::GuardedLegacy });
    v.push(RunnerEntry { id: "BG-007", source_symbol: "reap_supervisor_temporary_homes_at", class: RunnerEntryClass::GuardedLegacy });
    v
}

/// The known inventory ids.
pub fn inventory_ids() -> (v: Vec<&'static str>)
    ensures
        v@.len() == inventory_table().len(),
        forall|i: int| 0 <= i < v@.len() ==> (#[trigger] v@[i])@ == inventory_table()[i],
{
    let mut v: Vec<&'static str> = Vec::new();
    v.push("RUN-001");
    v.push("RUN-002");
    v.push("RUN-003");
    v.push("RUN-004");
    v.push("RUN-005");
    v.push("RUN-006");
    v.push("RUN-007");
    v.push("RUN-008");
    v.push("RUN-009");
    v.push("RUN-010");
    v.push("RUN-011");
    v.push("RUN-012");
    v.push("BG-001");
    v.push("BG-002");
    v.push("BG-003");
    v.push("BG-004");
    v.push("BG-005");
    v.push("BG-006");
    v.push("BG-007");
    v
}

/// The class of the entry registered under `id`, if any.
pub fn classify(id: &str) -> (r: Option<RunnerEntryClass>)
    ensures
        r == class_of(id@),
{
    let table = entries();
    let mut i: usize = 0;
    while i < table.len()
        invariant
            i <= table.len(),
            table@.len() == entry_table().len(),
            forall|j: int|
                0 <= j < table@.len() ==> (#[trigger] table@[j]).id@ == entry_table()[j].0
                    && table@[j].class == entry_table()[j].2,
            class_of(id@) == class_of_from(id@, i as int),
        decreases table.len() - i,
    {
        if str_eq(table[i].id, id) {
            return Some(table[i].class);
        }
        i = i + 1;
    }
    None
}

/// The inventory ids that no registry entry classifies, in inventory order.
pub open spec fn unknown_ids_upto(n: int) -> Seq<Seq<char>>
    decreases n,
{
    if n <= 0 {
        Seq::empty()
    } else if class_of(inventory_table()[n - 1]) is None {
        unknown_ids_upto(n - 1).push(inventory_table()[n - 1])
    } else {
        unknown_ids_upto(n - 1)
    }
}

pub fn unknown_inventory_ids() -> (r: Vec<&'static str>)
    ensures
        r@.map_values(|s: &'static str| s@) == unknown_ids_upto(inventory_table().len() as int),
{
    let inv = inventory_ids();
    let mut r: Vec<&'static str> = Vec::new();
    let mut i: usize = 0;
    while i < inv.len()
        invariant
            i <= inv.len(),
            inv@.len() == inventory_table().len(),
            forall|j: int| 0 <= j < inv@.len() ==> (#[trigger] inv@[j])@ == inventory_table()[j],
            r@.map_values(|s: &'static str| s@) == unknown_ids_upto(i as int),
        decreases inv.len() - i,
    {
        let id = inv[i];
        if classify(id).is_none() {
            r.push(id);
            assert(r@.map_values(|s: &'static str| s@) =~= unknown_ids_upto(i as int).push(inventory_table()[i as int]));
        }
        i = i + 1;
    }
    r
}

/// The ids of the new-grant entries, in registry order.
pub open spec fn new_grant_ids_upto(n: int) -> Seq<Seq<char>>
    decreases n,
{
    if n <= 0 {
        Seq::empty()
    } else if entry_table()[n - 1].2 == RunnerEntryClass::NewGrant {
        new_grant_ids_upto(n - 1).push(entry_table()[n - 1].0)
    } else {
        new_grant_ids_upto(n - 1)
    }
}

pub fn new_grant_entries() -> (r: Vec<&'static str>)
    ensures
        r@.map_values(|s: &'static str| s@) == new_grant_ids_upto(entry_table().len() as int),
{
    let table = entries();
    let mut r: Vec<&'static str> = Vec::new();
    let mut i: usize = 0;
    while i < table.len()
        invariant
            i <= table.len(),
            table@.len() == entry_table().len(),
            forall|j: int|
                0 <= j < table@.len() ==> (#[trigger] table@[j]).id@ == entry_table()[j].0
                    && table@[j].class == entry_table()[j].2,
            r@.map_values(|s: &'static str| s@) == new_grant_ids_upto(i as int),
        decreases table.len() - i,
    {
        if table[i].class == RunnerEntryClass::NewGrant {
            r.push(table[i].id);
            assert(r@.map_values(|s: &'static str| s@) =~= new_grant_ids_upto(i as int).push(entry_table()[i as int].0));
        }
        i = i + 1;
    }
    r
}


/// Every inventory entry is classified by the registry: no runner or
/// background entry point is unknown.
pub proof fn lemma_inventory_fully_classified()
    ensures
        unknown_ids_upto(inventory_table().len() as int) == Seq::<Seq<char>>::empty(),
{
    reveal_with_fuel(class_of_from, 22);
    reveal_with_fuel(unknown_ids_upto, 20);
    assert(unknown_ids_upto(inventory_table().len() as int) =~= Seq::<Seq<char>>::empty());
}

/// The registry's ids are pairwise distinct, so each entry has exactly one class.
pub proof fn lemma_entry_ids_distinct()
    ensures
        forall|i: int, j: int|
            0 <= i < j < entry_table().len() ==> entry_table()[i].0 != entry_table()[j].0,
{
    reveal_strlit("M5-SE-001");
    reveal_strlit("M5-SE-002");
    reveal_strlit("RUN-001");
    reveal_strlit("RUN-002");
    reveal_strlit("RUN-003");
    reveal_strlit("RUN-004");
    reveal_strlit("RUN-005");
    reveal_strlit("RUN-006");
    reveal_strlit("RUN-007");
    reveal_strlit("RUN-008");
    reveal_strlit("RUN-009");
    reveal_strlit("RUN-010");
    reveal_strlit("RUN-011");
    reveal_strlit("RUN-012");
    reveal_strlit("BG-001");
    reveal_strlit("BG-002");
    reveal_strlit("BG-003");
    reveal_strlit("BG-004");
    reveal_strlit("BG-005");
    reveal_strlit("BG-006");
    reveal_strlit("BG-007");
    assert forall|i: int, j: int| 0 <= i < j < entry_table().len() implies entry_table()[i].0
        != entry_table()[j].0 by {
        let a = entry_table()[i].0;
        let b = entry_table()[j].0;
        if a.len() == b.len() {
            if a.len() == 9 {
                assert(a[8] != b[8]);
            } else if a.len() == 7 {
                assert(a[5] != b[5] || a[6] != b[6]);
            } else {
                assert(a[5] != b[5]);
            }
        }
    }
}

/// Exactly the two M5 side-effect entries are new-grant entries.
pub proof fn lemma_new_grant_entries()
    ensures
        new_grant_ids_upto(entry_table().len() as int) == seq!["M5-SE-001"@, "M5-SE-002"@],
{
    reveal_with_fuel(new_grant_ids_upto, 22);
    assert(new_grant_ids_upto(entry_table().len() as int) =~= seq!["M5-SE-001"@, "M5-SE-002"@]);
}

} // verus!
