//! Pre-flight checks of a plan against what the filesystem reported about
//! its sources and its destination. Nothing here touches the filesystem:
//! the caller probes it and hands the answers in.

use vstd::prelude::*;
use crate::views::string_views;
use crate::model::{DeploymentItem, DeploymentPlan, ValidationResult};

verus! {

/// What the filesystem reported about one plan item.
#[derive(Clone, Copy, Debug)]
pub struct ItemProbe {
    /// The source exists and can be read.
    pub source_readable: bool,
    /// Size of the file already at the destination path, if there is one.
    pub existing_dest_size: Option<u64>,
}

/// What the filesystem reported about a plan's destination.
#[derive(Clone, Debug)]
pub struct DestinationProbe {
    /// Free bytes on the destination volume.
    pub free_bytes: u64,
    /// Destination folders that can be neither written nor created.
    pub unwritable: Vec<String>,
    /// One probe per plan item, in plan order. Items beyond the end count
    /// as unreadable.
    pub items: Vec<ItemProbe>,
}

/// The probe of item `k`; an item the probe does not cover counts as an
/// unreadable source with nothing at its destination.
pub open spec fn probe_at(probes: Seq<ItemProbe>, k: int) -> ItemProbe {
    if 0 <= k < probes.len() {
        probes[k]
    } else {
        ItemProbe { source_readable: false, existing_dest_size: None }
    }
}

fn probe_of(probes: &Vec<ItemProbe>, k: usize) -> (r: ItemProbe)
    ensures
        r == probe_at(probes@, k as int),
{
    if k < probes.len() {
        probes[k]
    } else {
        ItemProbe { source_readable: false, existing_dest_size: None }
    }
}

pub open spec fn source_error(item: DeploymentItem) -> Seq<char> {
    "source missing or unreadable: "@ + item.source_path@
}

pub open spec fn folder_error(path: Seq<char>) -> Seq<char> {
    "destination not writable: "@ + path
}

pub open spec fn conflict_error(item: DeploymentItem) -> Seq<char> {
    "conflicting sources for destination: "@ + item.dest_path@
}

pub open spec fn skip_warning(item: DeploymentItem) -> Seq<char> {
    "will be skipped: "@ + item.dest_path@
}

pub open spec fn space_error() -> Seq<char> {
    "insufficient free space at destination"@
}

/// Errors for the unreadable sources among the first `n` items.
pub open spec fn source_errors(items: Seq<DeploymentItem>, probes: Seq<ItemProbe>, n: int) -> Seq<
    Seq<char>,
>
    decreases n,
{
    if n <= 0 {
        seq![]
    } else if probe_at(probes, n - 1).source_readable {
        source_errors(items, probes, n - 1)
    } else {
        source_errors(items, probes, n - 1).push(source_error(items[n - 1]))
    }
}

pub open spec fn folder_errors(unwritable: Seq<String>) -> Seq<Seq<char>> {
    unwritable.map_values(|p: String| folder_error(p@))
}

/// An item already present at the destination with the same size, that
/// will not be overwritten.
pub open spec fn already_present(item: DeploymentItem, probe: ItemProbe, overwrite: bool) -> bool {
    !overwrite && probe.existing_dest_size == Some(item.bytes)
}

/// Bytes of the first `n` items that are already present.
pub open spec fn present_bytes(
    items: Seq<DeploymentItem>,
    probes: Seq<ItemProbe>,
    overwrite: bool,
    n: int,
) -> int
    decreases n,
{
    if n <= 0 {
        0
    } else if already_present(items[n - 1], probe_at(probes, n - 1), overwrite) {
        present_bytes(items, probes, overwrite, n - 1) + items[n - 1].bytes
    } else {
        present_bytes(items, probes, overwrite, n - 1)
    }
}

/// Bytes the destination must still take: the plan's total less what is
/// already there.
pub open spec fn needed_bytes(plan: DeploymentPlan, probe: DestinationProbe, overwrite: bool) -> int {
    let present = present_bytes(plan.items@, probe.items@, overwrite, plan.items@.len() as int);
    if present >= plan.total_bytes {
        0
    } else {
        plan.total_bytes - present
    }
}

pub open spec fn space_errors(plan: DeploymentPlan, probe: DestinationProbe, overwrite: bool) -> Seq<
    Seq<char>,
> {
    if probe.free_bytes < needed_bytes(plan, probe, overwrite) {
        seq![space_error()]
    } else {
        seq![]
    }
}

/// Item `j` writes the same destination as an earlier item with another source.
pub open spec fn conflicts_with_earlier(items: Seq<DeploymentItem>, j: int) -> bool {
    exists|i: int|
        0 <= i < j && #[trigger] items[i].dest_path@ == items[j].dest_path@ && items[i].source_path@
            != items[j].source_path@
}

pub open spec fn conflict_errors(items: Seq<DeploymentItem>, n: int) -> Seq<Seq<char>>
    decreases n,
{
    if n <= 0 {
        seq![]
    } else if conflicts_with_earlier(items, n - 1) {
        conflict_errors(items, n - 1).push(conflict_error(items[n - 1]))
    } else {
        conflict_errors(items, n - 1)
    }
}

pub open spec fn skip_warnings(
    items: Seq<DeploymentItem>,
    probes: Seq<ItemProbe>,
    overwrite: bool,
    n: int,
) -> Seq<Seq<char>>
    decreases n,
{
    if n <= 0 {
        seq![]
    } else if !overwrite && probe_at(probes, n - 1).existing_dest_size is Some {
        skip_warnings(items, probes, overwrite, n - 1).push(skip_warning(items[n - 1]))
    } else {
        skip_warnings(items, probes, overwrite, n - 1)
    }
}

/// Every error of a plan, all checks run.
pub open spec fn plan_errors(plan: DeploymentPlan, probe: DestinationProbe, overwrite: bool) -> Seq<
    Seq<char>,
> {
    let n = plan.items@.len() as int;
    source_errors(plan.items@, probe.items@, n) + folder_errors(probe.unwritable@) + space_errors(
        plan,
        probe,
        overwrite,
    ) + conflict_errors(plan.items@, n)
}

pub open spec fn plan_warnings(plan: DeploymentPlan, probe: DestinationProbe, overwrite: bool) -> Seq<
    Seq<char>,
> {
    skip_warnings(plan.items@, probe.items@, overwrite, plan.items@.len() as int)
}

fn prefixed(prefix: &str, s: &String) -> (r: String)
    ensures
        r@ == prefix@ + s@,
{
    let mut r = String::from_str(prefix);
    r.append(s.as_str());
    r
}

fn check_sources(items: &Vec<DeploymentItem>, probes: &Vec<ItemProbe>, errors: &mut Vec<String>)
    ensures
        string_views(final(errors)@) == string_views(old(errors)@) + source_errors(
            items@,
            probes@,
            items@.len() as int,
        ),
{
    let ghost start = string_views(errors@);
    let mut i: usize = 0;
    while i < items.len()
        invariant
            i <= items@.len(),
            string_views(errors@) =~= start + source_errors(items@, probes@, i as int),
        decreases items@.len() - i,
    {
        if !probe_of(probes, i).source_readable {
            let e = prefixed("source missing or unreadable: ", &items[i].source_path);
            let ghost before = errors@;
            errors.push(e);
            proof {
                assert(string_views(errors@) =~= string_views(before).push(e@));
            }
        }
        i = i + 1;
    }
}

fn check_folders(unwritable: &Vec<String>, errors: &mut Vec<String>)
    ensures
        string_views(final(errors)@) == string_views(old(errors)@) + folder_errors(unwritable@),
{
    let ghost start = string_views(errors@);
    let mut i: usize = 0;
    while i < unwritable.len()
        invariant
            i <= unwritable@.len(),
            string_views(errors@) =~= start + folder_errors(unwritable@.subrange(0, i as int)),
        decreases unwritable@.len() - i,
    {
        let e = prefixed("destination not writable: ", &unwritable[i]);
        let ghost before = errors@;
        errors.push(e);
        proof {
            assert(string_views(errors@) =~= string_views(before).push(e@));
            assert(folder_errors(unwritable@.subrange(0, i + 1)) =~= folder_errors(
                unwritable@.subrange(0, i as int),
            ).push(folder_error(unwritable@[i as int]@)));
        }
        i = i + 1;
    }
    assert(unwritable@.subrange(0, unwritable@.len() as int) =~= unwritable@);
}

/// Bytes the destination must still take for `plan`.
pub fn bytes_needed(plan: &DeploymentPlan, probes: &Vec<ItemProbe>, overwrite: bool) -> (r: u64)
    ensures
        r == ({
            let present = present_bytes(plan.items@, probes@, overwrite, plan.items@.len() as int);
            if present >= plan.total_bytes {
                0
            } else {
                plan.total_bytes - present
            }
        }),
{
    let items = &plan.items;
    // Saturates at u64::MAX, which already covers any total.
    let mut acc: u64 = 0;
    let mut i: usize = 0;
    while i < items.len()
        invariant
            i <= items@.len(),
            items == &plan.items,
            acc == (if present_bytes(items@, probes@, overwrite, i as int) > u64::MAX {
                u64::MAX as int
            } else {
                present_bytes(items@, probes@, overwrite, i as int)
            }),
            present_bytes(items@, probes@, overwrite, i as int) >= 0,
        decreases items@.len() - i,
    {
        let b = items[i].bytes;
        let present = !overwrite && match probe_of(probes, i).existing_dest_size {
            Some(s) => s == b,
            None => false,
        };
        if present {
            if acc > u64::MAX - b {
                acc = u64::MAX;
            } else {
                acc = acc + b;
            }
        }
        i = i + 1;
    }
    if acc >= plan.total_bytes {
        0
    } else {
        plan.total_bytes - acc
    }
}

fn check_conflicts(items: &Vec<DeploymentItem>, errors: &mut Vec<String>)
    ensures
        string_views(final(errors)@) == string_views(old(errors)@) + conflict_errors(
            items@,
            items@.len() as int,
        ),
{
    let ghost start = string_views(errors@);
    let mut j: usize = 0;
    while j < items.len()
        invariant
            j <= items@.len(),
            string_views(errors@) =~= start + conflict_errors(items@, j as int),
        decreases items@.len() - j,
    {
        let mut found = false;
        let mut i: usize = 0;
        while i < j
            invariant
                i <= j < items@.len(),
                found == exists|a: int|
                    0 <= a < i && #[trigger] items@[a].dest_path@ == items@[j as int].dest_path@
                        && items@[a].source_path@ != items@[j as int].source_path@,
            decreases j - i,
        {
            if items[i].dest_path == items[j].dest_path && !(items[i].source_path
                == items[j].source_path) {
                found = true;
            }
            i = i + 1;
        }
        if found {
            let e = prefixed("conflicting sources for destination: ", &items[j].dest_path);
            let ghost before = errors@;
            errors.push(e);
            proof {
                assert(string_views(errors@) =~= string_views(before).push(e@));
            }
        }
        j = j + 1;
    }
}

fn collect_skips(
    items: &Vec<DeploymentItem>,
    probes: &Vec<ItemProbe>,
    overwrite: bool,
) -> (r: Vec<String>)
    ensures
        string_views(r@) == skip_warnings(items@, probes@, overwrite, items@.len() as int),
{
    let mut warnings: Vec<String> = Vec::new();
    let mut i: usize = 0;
    while i < items.len()
        invariant
            i <= items@.len(),
            string_views(warnings@) =~= skip_warnings(items@, probes@, overwrite, i as int),
        decreases items@.len() - i,
    {
        if !overwrite && probe_of(probes, i).existing_dest_size.is_some() {
            let w = prefixed("will be skipped: ", &items[i].dest_path);
            let ghost before = warnings@;
            warnings.push(w);
            proof {
                assert(string_views(warnings@) =~= string_views(before).push(w@));
            }
        }
        i = i + 1;
    }
    warnings
}

/// Checks `plan` against the probe of its sources and destination. Every
/// check runs, and its errors accumulate: unreadable sources, unwritable
/// folders, too little free space, and items that write one destination
/// from different sources. Existing destination files that will not be
/// overwritten give warnings only. The plan is valid iff there is no error.
pub fn validate(plan: &DeploymentPlan, overwrite_existing: bool, probe: &DestinationProbe) -> (r:
    ValidationResult)
    ensures
        string_views(r.errors@) == plan_errors(*plan, *probe, overwrite_existing),
        string_views(r.warnings@) == plan_warnings(*plan, *probe, overwrite_existing),
        r.valid == (r.errors@.len() == 0),
{
    let mut errors: Vec<String> = Vec::new();
    check_sources(&plan.items, &probe.items, &mut errors);
    check_folders(&probe.unwritable, &mut errors);
    let needed = bytes_needed(plan, &probe.items, overwrite_existing);
    let ghost before_space = errors@;
    if probe.free_bytes < needed {
        errors.push(String::from_str("insufficient free space at destination"));
    }
    proof {
        assert(string_views(errors@) =~= string_views(before_space) + space_errors(
            *plan,
            *probe,
            overwrite_existing,
        ));
    }
    check_conflicts(&plan.items, &mut errors);
    let warnings = collect_skips(&plan.items, &probe.items, overwrite_existing);
    let valid = errors.len() == 0;
    proof {
        assert(string_views(errors@) =~= plan_errors(*plan, *probe, overwrite_existing));
    }
    ValidationResult { valid, errors, warnings }
}

/// The validity flag agrees with the error list: a plan is valid exactly
/// when no check reported an error, whatever the warnings.
pub proof fn validity_matches_errors(
    r: ValidationResult,
    plan: DeploymentPlan,
    probe: DestinationProbe,
    overwrite: bool,
)
    requires
        string_views(r.errors@) == plan_errors(plan, probe, overwrite),
        r.valid == (r.errors@.len() == 0),
    ensures
        r.valid <==> plan_errors(plan, probe, overwrite).len() == 0,
{
}

/// The folders of a plan's destination whose writability is checked: the
/// destination root, then each resolved category folder.
pub fn destination_folders(plan: &DeploymentPlan) -> (r: Vec<String>)
    ensures
        plan.resolved_paths is None ==> string_views(r@) == seq![plan.destination_path@],
        plan.resolved_paths is Some ==> {
            let p = plan.resolved_paths->0;
            string_views(r@) == seq![
                plan.destination_path@,
                p.bios@,
                p.roms@,
                p.saves@,
                p.states@,
                p.screenshots@,
            ]
        },
{
    let mut r: Vec<String> = Vec::new();
    r.push(plan.destination_path.clone());
    match &plan.resolved_paths {
        Some(p) => {
            r.push(p.bios.clone());
            r.push(p.roms.clone());
            r.push(p.saves.clone());
            r.push(p.states.clone());
            r.push(p.screenshots.clone());
        },
        None => {},
    }
    assert(string_views(r@) =~= if plan.resolved_paths is None {
        seq![plan.destination_path@]
    } else {
        let p = plan.resolved_paths->0;
        seq![plan.destination_path@, p.bios@, p.roms@, p.saves@, p.states@, p.screenshots@]
    });
    r
}

} // verus!
