//! Turning a deployment request into an itemized, byte-accounted plan.
//!
//! Facts that only the filesystem knows (which BIOS files the user has and
//! their sizes, which BIOS files the destination already holds, which save
//! and state files sit next to each ROM) are gathered by the caller and
//! handed in as plain values.

use vstd::prelude::*;
use crate::views::{opt_view, string_views};
use crate::model::{
    BiosFileRef, BiosRequirement, CommandError, DeploymentConfig, DeploymentItem, DeploymentItemKind,
    DeploymentPlan, Game, ResolvedDeploymentPaths,
};
use crate::plan::{plan_accounted, prefix_bytes, sum_bytes, total_bytes_of};
use crate::resolver::join_path;

verus! {

/// The folder a frontend expects a platform's ROMs in, below the ROM path.
#[derive(Clone, Debug)]
pub struct PlatformFolder {
    pub platform_id: String,
    pub folder: String,
}

/// A BIOS file found in the user's library.
#[derive(Clone, Debug)]
pub struct BiosSource {
    pub filename: String,
    pub source_path: String,
    /// Size on disk, where it could be read.
    pub bytes: Option<u64>,
}

/// A save or state file found next to a selected game's ROM.
#[derive(Clone, Debug)]
pub struct CompanionFile {
    pub game_id: i64,
    /// `Save` or `State`; other kinds are ignored.
    pub kind: DeploymentItemKind,
    pub source_path: String,
    pub filename: String,
    pub bytes: Option<u64>,
}

/// What the filesystem collaborators reported for a plan.
#[derive(Clone, Debug)]
pub struct BuildFacts {
    pub platform_folders: Vec<PlatformFolder>,
    pub bios_sources: Vec<BiosSource>,
    /// The folder of the user's BIOS library.
    pub bios_library: String,
    /// Filenames already present in the destination's BIOS folder.
    pub bios_present: Vec<String>,
    pub companions: Vec<CompanionFile>,
}

/// An item as plain values: kind, source, destination, size, platform, game.
pub type ItemView = (DeploymentItemKind, Seq<char>, Seq<char>, u64, Option<Seq<char>>, Option<i64>);

pub open spec fn item_view(i: DeploymentItem) -> ItemView {
    (i.kind, i.source_path@, i.dest_path@, i.bytes, opt_view(i.platform_id), i.game_id)
}

pub open spec fn item_views(s: Seq<DeploymentItem>) -> Seq<ItemView> {
    s.map_values(|i: DeploymentItem| item_view(i))
}

pub open spec fn size_or_zero(b: Option<u64>) -> u64 {
    match b {
        Some(v) => v,
        None => 0,
    }
}

pub open spec fn unknown_size_warning(source: Seq<char>) -> Seq<char> {
    "unknown size, counted as 0: "@ + source
}

pub open spec fn size_warnings(source: Seq<char>, b: Option<u64>) -> Seq<Seq<char>> {
    if b is None {
        seq![unknown_size_warning(source)]
    } else {
        seq![]
    }
}

// ---------------------------------------------------------------------------
// ROM items

/// Index of the first of the first `n` games with the given id, or -1.
pub open spec fn first_game(games: Seq<Game>, id: i64, n: int) -> int
    decreases n,
{
    if n <= 0 {
        -1
    } else if first_game(games, id, n - 1) >= 0 {
        first_game(games, id, n - 1)
    } else if games[n - 1].id == id {
        n - 1
    } else {
        -1
    }
}

pub open spec fn game_of(games: Seq<Game>, id: i64) -> int {
    first_game(games, id, games.len() as int)
}

/// The folder of the first of the first `n` entries for a platform.
pub open spec fn first_folder(folders: Seq<PlatformFolder>, pid: Seq<char>, n: int) -> Option<
    Seq<char>,
>
    decreases n,
{
    if n <= 0 {
        None
    } else if first_folder(folders, pid, n - 1) is Some {
        first_folder(folders, pid, n - 1)
    } else if folders[n - 1].platform_id@ == pid {
        Some(folders[n - 1].folder@)
    } else {
        None
    }
}

/// The ROM folder of a platform: its configured folder, else its id.
pub open spec fn rom_folder(folders: Seq<PlatformFolder>, pid: Seq<char>) -> Seq<char> {
    match first_folder(folders, pid, folders.len() as int) {
        Some(f) => f,
        None => pid,
    }
}

pub open spec fn rom_view(g: Game, roms: Seq<char>, folders: Seq<PlatformFolder>) -> ItemView {
    (
        DeploymentItemKind::Rom,
        g.filepath@,
        join_path(join_path(roms, rom_folder(folders, g.platform_id@)), g.filename@),
        g.file_size,
        Some(g.platform_id@),
        Some(g.id),
    )
}

pub open spec fn folder_warning(pid: Seq<char>) -> Seq<char> {
    "no destination folder for platform "@ + pid
}

/// Every selected id names a game record.
pub open spec fn all_selected_known(ids: Seq<i64>, games: Seq<Game>) -> bool {
    forall|k: int| 0 <= k < ids.len() ==> game_of(games, #[trigger] ids[k]) >= 0
}

/// The ROM items of the first `n` selected games.
pub open spec fn rom_views(
    ids: Seq<i64>,
    games: Seq<Game>,
    roms: Seq<char>,
    folders: Seq<PlatformFolder>,
    n: int,
) -> Seq<ItemView> {
    Seq::new(n as nat, |k: int| rom_view(games[game_of(games, ids[k])], roms, folders))
}

pub open spec fn rom_warnings(
    ids: Seq<i64>,
    games: Seq<Game>,
    folders: Seq<PlatformFolder>,
    n: int,
) -> Seq<Seq<char>>
    decreases n,
{
    if n <= 0 {
        seq![]
    } else {
        let g = games[game_of(games, ids[n - 1])];
        if first_folder(folders, g.platform_id@, folders.len() as int) is None {
            rom_warnings(ids, games, folders, n - 1).push(folder_warning(g.platform_id@))
        } else {
            rom_warnings(ids, games, folders, n - 1)
        }
    }
}

fn find_game(games: &Vec<Game>, id: i64) -> (r: Option<usize>)
    ensures
        r is Some <==> game_of(games@, id) >= 0,
        r is Some ==> r->0 == game_of(games@, id) && r->0 < games@.len(),
{
    let mut i: usize = 0;
    while i < games.len()
        invariant
            i <= games@.len(),
            first_game(games@, id, i as int) == -1,
        decreases games@.len() - i,
    {
        if games[i].id == id {
            proof {
                lemma_first_game_stays(games@, id, i as int + 1, games@.len() as int);
            }
            return Some(i);
        }
        i = i + 1;
    }
    None
}

proof fn lemma_first_game_stays(games: Seq<Game>, id: i64, a: int, b: int)
    requires
        0 <= a <= b <= games.len(),
        first_game(games, id, a) >= 0,
    ensures
        first_game(games, id, b) == first_game(games, id, a),
    decreases b - a,
{
    if a < b {
        lemma_first_game_stays(games, id, a, b - 1);
    }
}

proof fn lemma_first_folder_stays(folders: Seq<PlatformFolder>, pid: Seq<char>, a: int, b: int)
    requires
        0 <= a <= b <= folders.len(),
        first_folder(folders, pid, a) is Some,
    ensures
        first_folder(folders, pid, b) == first_folder(folders, pid, a),
    decreases b - a,
{
    if a < b {
        lemma_first_folder_stays(folders, pid, a, b - 1);
    }
}

fn find_folder(folders: &Vec<PlatformFolder>, pid: &String) -> (r: Option<String>)
    ensures
        opt_view(r) == first_folder(folders@, pid@, folders@.len() as int),
{
    let mut i: usize = 0;
    while i < folders.len()
        invariant
            i <= folders@.len(),
            first_folder(folders@, pid@, i as int) is None,
        decreases folders@.len() - i,
    {
        if folders[i].platform_id == *pid {
            proof {
                lemma_first_folder_stays(folders@, pid@, i as int + 1, folders@.len() as int);
            }
            return Some(folders[i].folder.clone());
        }
        i = i + 1;
    }
    None
}

fn join(a: &String, b: &String) -> (r: String)
    ensures
        r@ == join_path(a@, b@),
{
    let mut r = a.clone();
    r.append("/");
    r.append(b.as_str());
    r
}

fn clone_opt(p: &Option<String>) -> (r: Option<String>)
    ensures
        opt_view(r) == opt_view(*p),
{
    match p {
        Some(s) => Some(s.clone()),
        None => None,
    }
}

/// One ROM item per selected game, in selection order, each copied from
/// the game's file to `roms/<platform folder>/<filename>`. A platform with
/// no configured folder uses its id as folder name, with a warning.
/// Fails with `InvalidInput` when a selected id has no game record.
pub fn rom_items(
    game_ids: &Vec<i64>,
    games: &Vec<Game>,
    roms: &String,
    folders: &Vec<PlatformFolder>,
    warnings: &mut Vec<String>,
) -> (r: Result<Vec<DeploymentItem>, CommandError>)
    ensures
        r is Ok <==> all_selected_known(game_ids@, games@),
        r is Ok ==> item_views(r->Ok_0@) == rom_views(
            game_ids@,
            games@,
            roms@,
            folders@,
            game_ids@.len() as int,
        ),
        r is Ok ==> string_views(final(warnings)@) == string_views(old(warnings)@) + rom_warnings(
            game_ids@,
            games@,
            folders@,
            game_ids@.len() as int,
        ),
        r is Err ==> r->Err_0 is InvalidInput,
{
    let ghost start = string_views(warnings@);
    let mut items: Vec<DeploymentItem> = Vec::new();
    let mut k: usize = 0;
    while k < game_ids.len()
        invariant
            k <= game_ids@.len(),
            forall|a: int| 0 <= a < k ==> game_of(games@, #[trigger] game_ids@[a]) >= 0,
            item_views(items@) =~= rom_views(game_ids@, games@, roms@, folders@, k as int),
            string_views(warnings@) =~= start + rom_warnings(game_ids@, games@, folders@, k as int),
        decreases game_ids@.len() - k,
    {
        let gi = match find_game(games, game_ids[k]) {
            Some(gi) => gi,
            None => {
                return Err(
                    CommandError::InvalidInput {
                        field: String::from_str("gameIds"),
                        message: String::from_str("a selected game has no catalog record"),
                    },
                );
            },
        };
        let g = &games[gi];
        let folder = match find_folder(folders, &g.platform_id) {
            Some(f) => f,
            None => {
                let mut w = String::from_str("no destination folder for platform ");
                w.append(g.platform_id.as_str());
                let ghost before = warnings@;
                warnings.push(w);
                proof {
                    assert(string_views(warnings@) =~= string_views(before).push(w@));
                }
                g.platform_id.clone()
            },
        };
        let dir = join(roms, &folder);
        let item = DeploymentItem {
            kind: DeploymentItemKind::Rom,
            source_path: g.filepath.clone(),
            dest_path: join(&dir, &g.filename),
            bytes: g.file_size,
            platform_id: Some(g.platform_id.clone()),
            game_id: Some(g.id),
        };
        let ghost before_items = items@;
        items.push(item);
        proof {
            assert(item_views(items@) =~= item_views(before_items).push(item_view(item)));
        }
        k = k + 1;
    }
    Ok(items)
}

// ---------------------------------------------------------------------------
// BIOS items

pub open spec fn platform_selected(platforms: Seq<String>, pid: Seq<char>) -> bool {
    exists|a: int| 0 <= a < platforms.len() && #[trigger] platforms[a]@ == pid
}

pub open spec fn contains_name(names: Seq<String>, fname: Seq<char>) -> bool {
    exists|k: int| 0 <= k < names.len() && #[trigger] names[k]@ == fname
}

pub open spec fn ref_names(refs: Seq<BiosFileRef>) -> Seq<Seq<char>> {
    refs.map_values(|f: BiosFileRef| f.filename@)
}

/// Filenames, required then optional, that the first `n` requirement
/// entries of selected platforms list, in catalog order.
pub open spec fn listed_names(platforms: Seq<String>, reqs: Seq<BiosRequirement>, n: int) -> Seq<
    Seq<char>,
>
    decreases n,
{
    if n <= 0 {
        seq![]
    } else if platform_selected(platforms, reqs[n - 1].platform_id@) {
        listed_names(platforms, reqs, n - 1) + ref_names(reqs[n - 1].required@) + ref_names(
            reqs[n - 1].optional@,
        )
    } else {
        listed_names(platforms, reqs, n - 1)
    }
}

/// The first of the first `n` library files with the given filename.
pub open spec fn first_source(sources: Seq<BiosSource>, fname: Seq<char>, n: int) -> Option<
    BiosSource,
>
    decreases n,
{
    if n <= 0 {
        None
    } else if first_source(sources, fname, n - 1) is Some {
        first_source(sources, fname, n - 1)
    } else if sources[n - 1].filename@ == fname {
        Some(sources[n - 1])
    } else {
        None
    }
}

pub open spec fn source_of_file(sources: Seq<BiosSource>, fname: Seq<char>) -> Option<BiosSource> {
    first_source(sources, fname, sources.len() as int)
}

pub open spec fn missing_source_warning(path: Seq<char>) -> Seq<char> {
    "BIOS file not in library, counted as 0: "@ + path
}

/// The item for a needed BIOS file: copied from the library file of that
/// name, or, where the library lacks it, from where the library folder
/// would hold it, with size 0.
pub open spec fn bios_view(
    fname: Seq<char>,
    sources: Seq<BiosSource>,
    library: Seq<char>,
    bios: Seq<char>,
) -> ItemView {
    match source_of_file(sources, fname) {
        Some(s) => (
            DeploymentItemKind::Bios,
            s.source_path@,
            join_path(bios, fname),
            size_or_zero(s.bytes),
            None,
            None,
        ),
        None => (DeploymentItemKind::Bios, join_path(library, fname), join_path(bios, fname), 0, None, None),
    }
}

pub open spec fn bios_file_warnings(
    fname: Seq<char>,
    sources: Seq<BiosSource>,
    library: Seq<char>,
) -> Seq<Seq<char>> {
    match source_of_file(sources, fname) {
        Some(s) => size_warnings(s.source_path@, s.bytes),
        None => seq![missing_source_warning(join_path(library, fname))],
    }
}

/// The BIOS items for the first `n` listed filenames: one per distinct
/// filename that the destination's BIOS folder lacks.
pub open spec fn bios_views(
    names: Seq<Seq<char>>,
    sources: Seq<BiosSource>,
    present: Seq<String>,
    library: Seq<char>,
    bios: Seq<char>,
    n: int,
) -> Seq<ItemView>
    decreases n,
{
    if n <= 0 {
        seq![]
    } else {
        let prev = bios_views(names, sources, present, library, bios, n - 1);
        let f = names[n - 1];
        if !contains_name(present, f) && !(exists|k: int|
            0 <= k < prev.len() && #[trigger] prev[k].2 == join_path(bios, f)) {
            prev.push(bios_view(f, sources, library, bios))
        } else {
            prev
        }
    }
}

pub open spec fn bios_warnings(
    names: Seq<Seq<char>>,
    sources: Seq<BiosSource>,
    present: Seq<String>,
    library: Seq<char>,
    bios: Seq<char>,
    n: int,
) -> Seq<Seq<char>>
    decreases n,
{
    if n <= 0 {
        seq![]
    } else {
        let prev = bios_warnings(names, sources, present, library, bios, n - 1);
        if bios_views(names, sources, present, library, bios, n).len() > bios_views(
            names,
            sources,
            present,
            library,
            bios,
            n - 1,
        ).len() {
            prev + bios_file_warnings(names[n - 1], sources, library)
        } else {
            prev
        }
    }
}

pub open spec fn catalog_warning(pid: Seq<char>) -> Seq<char> {
    "no BIOS catalog entry for platform "@ + pid
}

pub open spec fn has_requirement(reqs: Seq<BiosRequirement>, pid: Seq<char>) -> bool {
    exists|b: int| 0 <= b < reqs.len() && #[trigger] reqs[b].platform_id@ == pid
}

pub open spec fn catalog_warnings(platforms: Seq<String>, reqs: Seq<BiosRequirement>, n: int) -> Seq<
    Seq<char>,
>
    decreases n,
{
    if n <= 0 {
        seq![]
    } else if has_requirement(reqs, platforms[n - 1]@) {
        catalog_warnings(platforms, reqs, n - 1)
    } else {
        catalog_warnings(platforms, reqs, n - 1).push(catalog_warning(platforms[n - 1]@))
    }
}

fn name_in(names: &Vec<String>, fname: &String) -> (r: bool)
    ensures
        r == contains_name(names@, fname@),
{
    let mut k: usize = 0;
    while k < names.len()
        invariant
            k <= names@.len(),
            forall|a: int| 0 <= a < k ==> names@[a]@ != fname@,
        decreases names@.len() - k,
    {
        if names[k] == *fname {
            return true;
        }
        k = k + 1;
    }
    false
}

fn push_names(refs: &Vec<BiosFileRef>, names: &mut Vec<String>)
    ensures
        string_views(final(names)@) == string_views(old(names)@) + ref_names(refs@),
{
    let ghost start = string_views(names@);
    let mut k: usize = 0;
    while k < refs.len()
        invariant
            k <= refs@.len(),
            string_views(names@) =~= start + ref_names(refs@.subrange(0, k as int)),
        decreases refs@.len() - k,
    {
        let ghost before = names@;
        names.push(refs[k].filename.clone());
        proof {
            assert(string_views(names@) =~= string_views(before).push(refs@[k as int].filename@));
            assert(ref_names(refs@.subrange(0, k + 1)) =~= ref_names(
                refs@.subrange(0, k as int),
            ).push(refs@[k as int].filename@));
        }
        k = k + 1;
    }
    assert(refs@.subrange(0, refs@.len() as int) =~= refs@);
}

/// The filenames that the selected platforms' requirement entries list,
/// required then optional, entry by entry; repeats included.
pub fn listed_bios_names(platforms: &Vec<String>, reqs: &Vec<BiosRequirement>) -> (r: Vec<String>)
    ensures
        string_views(r@) == listed_names(platforms@, reqs@, reqs@.len() as int),
{
    let mut names: Vec<String> = Vec::new();
    let mut b: usize = 0;
    while b < reqs.len()
        invariant
            b <= reqs@.len(),
            string_views(names@) =~= listed_names(platforms@, reqs@, b as int),
        decreases reqs@.len() - b,
    {
        if name_in(platforms, &reqs[b].platform_id) {
            push_names(&reqs[b].required, &mut names);
            push_names(&reqs[b].optional, &mut names);
        }
        b = b + 1;
    }
    names
}

proof fn lemma_first_source_stays(sources: Seq<BiosSource>, fname: Seq<char>, a: int, b: int)
    requires
        0 <= a <= b <= sources.len(),
        first_source(sources, fname, a) is Some,
    ensures
        first_source(sources, fname, b) == first_source(sources, fname, a),
    decreases b - a,
{
    if a < b {
        lemma_first_source_stays(sources, fname, a, b - 1);
    }
}

fn find_source(sources: &Vec<BiosSource>, fname: &String) -> (r: Option<usize>)
    ensures
        r is None <==> source_of_file(sources@, fname@) is None,
        r is Some ==> r->0 < sources@.len() && source_of_file(sources@, fname@) == Some(
            sources@[r->0 as int],
        ),
{
    let mut i: usize = 0;
    while i < sources.len()
        invariant
            i <= sources@.len(),
            first_source(sources@, fname@, i as int) is None,
        decreases sources@.len() - i,
    {
        if sources[i].filename == *fname {
            proof {
                lemma_first_source_stays(sources@, fname@, i as int + 1, sources@.len() as int);
            }
            return Some(i);
        }
        i = i + 1;
    }
    None
}

fn dest_in(items: &Vec<DeploymentItem>, dest: &String) -> (r: bool)
    ensures
        r == exists|k: int| 0 <= k < items@.len() && #[trigger] item_views(items@)[k].2 == dest@,
{
    let mut k: usize = 0;
    while k < items.len()
        invariant
            k <= items@.len(),
            forall|a: int| 0 <= a < k ==> item_views(items@)[a].2 != dest@,
        decreases items@.len() - k,
    {
        if items[k].dest_path == *dest {
            assert(item_views(items@)[k as int].2 == dest@);
            return true;
        }
        k = k + 1;
    }
    false
}

fn bytes_or_zero(source: &String, b: Option<u64>, warnings: &mut Vec<String>) -> (r: u64)
    ensures
        r == size_or_zero(b),
        string_views(final(warnings)@) == string_views(old(warnings)@) + size_warnings(source@, b),
{
    match b {
        Some(v) => {
            assert(string_views(warnings@) =~= string_views(warnings@) + size_warnings(source@, b));
            v
        },
        None => {
            let mut w = String::from_str("unknown size, counted as 0: ");
            w.append(source.as_str());
            let ghost before = warnings@;
            warnings.push(w);
            proof {
                assert(string_views(warnings@) =~= string_views(before) + size_warnings(
                    source@,
                    b,
                ));
            }
            0
        },
    }
}

/// Warns once per selected platform that has no BIOS catalog entry.
pub fn warn_missing_catalog(
    platforms: &Vec<String>,
    reqs: &Vec<BiosRequirement>,
    warnings: &mut Vec<String>,
)
    ensures
        string_views(final(warnings)@) == string_views(old(warnings)@) + catalog_warnings(
            platforms@,
            reqs@,
            platforms@.len() as int,
        ),
{
    let ghost start = string_views(warnings@);
    let mut a: usize = 0;
    while a < platforms.len()
        invariant
            a <= platforms@.len(),
            string_views(warnings@) =~= start + catalog_warnings(platforms@, reqs@, a as int),
        decreases platforms@.len() - a,
    {
        let mut found = false;
        let mut b: usize = 0;
        while b < reqs.len()
            invariant
                b <= reqs@.len(),
                a < platforms@.len(),
                found == exists|x: int|
                    0 <= x < b && #[trigger] reqs@[x].platform_id@ == platforms@[a as int]@,
            decreases reqs@.len() - b,
        {
            if reqs[b].platform_id == platforms[a] {
                found = true;
            }
            b = b + 1;
        }
        if !found {
            let mut w = String::from_str("no BIOS catalog entry for platform ");
            w.append(platforms[a].as_str());
            let ghost before = warnings@;
            warnings.push(w);
            proof {
                assert(string_views(warnings@) =~= string_views(before).push(w@));
            }
        }
        a = a + 1;
    }
}

/// One BIOS item per distinct listed filename that the destination's BIOS
/// folder lacks, copied to `bios/<filename>`. The source is the library
/// file of that name; where the library lacks it, the path it would have in
/// the library folder, counted as 0 bytes with a warning, so that
/// validation reports the missing source.
pub fn bios_items(
    names: &Vec<String>,
    sources: &Vec<BiosSource>,
    present: &Vec<String>,
    library: &String,
    bios: &String,
    warnings: &mut Vec<String>,
) -> (r: Vec<DeploymentItem>)
    ensures
        item_views(r@) == bios_views(
            string_views(names@),
            sources@,
            present@,
            library@,
            bios@,
            names@.len() as int,
        ),
        string_views(final(warnings)@) == string_views(old(warnings)@) + bios_warnings(
            string_views(names@),
            sources@,
            present@,
            library@,
            bios@,
            names@.len() as int,
        ),
{
    let ghost nv = string_views(names@);
    let ghost start = string_views(warnings@);
    let mut items: Vec<DeploymentItem> = Vec::new();
    let mut i: usize = 0;
    while i < names.len()
        invariant
            i <= names@.len(),
            nv == string_views(names@),
            item_views(items@) =~= bios_views(nv, sources@, present@, library@, bios@, i as int),
            string_views(warnings@) =~= start + bios_warnings(
                nv,
                sources@,
                present@,
                library@,
                bios@,
                i as int,
            ),
        decreases names@.len() - i,
    {
        let f = &names[i];
        assert(nv[i as int] == f@);
        let dest = join(bios, f);
        if !name_in(present, f) && !dest_in(&items, &dest) {
            let (source_path, bytes) = match find_source(sources, f) {
                Some(k) => {
                    let s = &sources[k];
                    let bytes = bytes_or_zero(&s.source_path, s.bytes, warnings);
                    (s.source_path.clone(), bytes)
                },
                None => {
                    let p = join(library, f);
                    let mut w = String::from_str("BIOS file not in library, counted as 0: ");
                    w.append(p.as_str());
                    let ghost before = warnings@;
                    warnings.push(w);
                    proof {
                        assert(string_views(warnings@) =~= string_views(before).push(w@));
                    }
                    (p, 0)
                },
            };
            let item = DeploymentItem {
                kind: DeploymentItemKind::Bios,
                source_path,
                dest_path: dest,
                bytes,
                platform_id: None,
                game_id: None,
            };
            let ghost before_items = items@;
            items.push(item);
            proof {
                assert(item_views(items@) =~= item_views(before_items).push(item_view(item)));
            }
        }
        i = i + 1;
    }
    items
}

// ---------------------------------------------------------------------------
// Save and state items

pub open spec fn companion_included(c: CompanionFile, config: DeploymentConfig) -> bool {
    &&& (c.kind == DeploymentItemKind::Save && config.include_saves) || (c.kind
        == DeploymentItemKind::State && config.include_states)
    &&& exists|k: int| 0 <= k < config.game_ids@.len() && #[trigger] config.game_ids@[k] == c.game_id
}

pub open spec fn companion_view(c: CompanionFile, saves: Seq<char>, states: Seq<char>) -> ItemView {
    (
        c.kind,
        c.source_path@,
        join_path(
            if c.kind == DeploymentItemKind::Save {
                saves
            } else {
                states
            },
            c.filename@,
        ),
        size_or_zero(c.bytes),
        None,
        Some(c.game_id),
    )
}

pub open spec fn companion_views(
    config: DeploymentConfig,
    files: Seq<CompanionFile>,
    saves: Seq<char>,
    states: Seq<char>,
    n: int,
) -> Seq<ItemView>
    decreases n,
{
    if n <= 0 {
        seq![]
    } else if companion_included(files[n - 1], config) {
        companion_views(config, files, saves, states, n - 1).push(
            companion_view(files[n - 1], saves, states),
        )
    } else {
        companion_views(config, files, saves, states, n - 1)
    }
}

pub open spec fn companion_warnings(config: DeploymentConfig, files: Seq<CompanionFile>, n: int) -> Seq<
    Seq<char>,
>
    decreases n,
{
    if n <= 0 {
        seq![]
    } else if companion_included(files[n - 1], config) {
        companion_warnings(config, files, n - 1) + size_warnings(
            files[n - 1].source_path@,
            files[n - 1].bytes,
        )
    } else {
        companion_warnings(config, files, n - 1)
    }
}

/// Index of the last '.' among the first `n` characters, past the first
/// character, or -1.
pub open spec fn last_dot(s: Seq<char>, n: int) -> int
    decreases n,
{
    if n <= 1 {
        -1
    } else if s[n - 1] == '.' {
        n - 1
    } else {
        last_dot(s, n - 1)
    }
}

proof fn lemma_last_dot_range(s: Seq<char>, n: int)
    ensures
        last_dot(s, n) == -1 || 1 <= last_dot(s, n) < n,
    decreases n,
{
    if n > 1 {
        lemma_last_dot_range(s, n - 1);
    }
}

/// A file name without its last extension. A name with no dot past its
/// first character is its own stem.
pub open spec fn file_stem(s: Seq<char>) -> Seq<char> {
    let d = last_dot(s, s.len() as int);
    if d > 0 {
        s.subrange(0, d)
    } else {
        s
    }
}

/// The save and state files that may sit next to a ROM: its stem with the
/// `.srm`, `.sav` and `.state` extensions.
pub open spec fn companion_names(rom: Seq<char>) -> Seq<(Seq<char>, DeploymentItemKind)> {
    let stem = file_stem(rom);
    seq![
        (stem + ".srm"@, DeploymentItemKind::Save),
        (stem + ".sav"@, DeploymentItemKind::Save),
        (stem + ".state"@, DeploymentItemKind::State),
    ]
}

fn find_last_dot(s: &str) -> (r: Option<usize>)
    ensures
        r is Some <==> last_dot(s@, s@.len() as int) >= 0,
        r is Some ==> r->0 == last_dot(s@, s@.len() as int) && r->0 < s@.len(),
{
    let n = s.unicode_len();
    let mut i: usize = n;
    while i > 1
        invariant
            i <= n,
            n == s@.len(),
            last_dot(s@, n as int) == last_dot(s@, i as int),
        decreases i,
    {
        if s.get_char(i - 1) == '.' {
            return Some(i - 1);
        }
        i = i - 1;
    }
    None
}

/// The names, with their kinds, of the save and state files that may sit
/// next to the ROM named `rom_filename`.
pub fn companion_candidates(rom_filename: &String) -> (r: Vec<(String, DeploymentItemKind)>)
    ensures
        r@.map_values(|c: (String, DeploymentItemKind)| (c.0@, c.1)) == companion_names(
            rom_filename@,
        ),
{
    let s = rom_filename.as_str();
    proof {
        lemma_last_dot_range(s@, s@.len() as int);
    }
    let stem = match find_last_dot(s) {
        Some(d) => String::from_str(s.substring_char(0, d)),
        None => rom_filename.clone(),
    };
    assert(stem@ == file_stem(rom_filename@));
    let mut r: Vec<(String, DeploymentItemKind)> = Vec::new();
    let mut a = stem.clone();
    a.append(".srm");
    r.push((a, DeploymentItemKind::Save));
    let mut b = stem.clone();
    b.append(".sav");
    r.push((b, DeploymentItemKind::Save));
    let mut c = stem;
    c.append(".state");
    r.push((c, DeploymentItemKind::State));
    assert(r@[0].0@ == stem@ + ".srm"@);
    assert(r@[1].0@ == stem@ + ".sav"@);
    assert(r@[2].0@ == stem@ + ".state"@);
    assert(r@.map_values(|c: (String, DeploymentItemKind)| (c.0@, c.1)) =~= companion_names(
        rom_filename@,
    ));
    r
}

fn id_selected(ids: &Vec<i64>, id: i64) -> (r: bool)
    ensures
        r == exists|k: int| 0 <= k < ids@.len() && #[trigger] ids@[k] == id,
{
    let mut k: usize = 0;
    while k < ids.len()
        invariant
            k <= ids@.len(),
            forall|a: int| 0 <= a < k ==> ids@[a] != id,
        decreases ids@.len() - k,
    {
        if ids[k] == id {
            return true;
        }
        k = k + 1;
    }
    false
}

/// The save and state files of selected games, where the configuration
/// includes their kind, copied to the saves or states folder.
pub fn companion_items(
    config: &DeploymentConfig,
    files: &Vec<CompanionFile>,
    saves: &String,
    states: &String,
    warnings: &mut Vec<String>,
) -> (r: Vec<DeploymentItem>)
    ensures
        item_views(r@) == companion_views(*config, files@, saves@, states@, files@.len() as int),
        string_views(final(warnings)@) == string_views(old(warnings)@) + companion_warnings(
            *config,
            files@,
            files@.len() as int,
        ),
{
    let ghost start = string_views(warnings@);
    let mut items: Vec<DeploymentItem> = Vec::new();
    let mut i: usize = 0;
    while i < files.len()
        invariant
            i <= files@.len(),
            item_views(items@) =~= companion_views(*config, files@, saves@, states@, i as int),
            string_views(warnings@) =~= start + companion_warnings(*config, files@, i as int),
        decreases files@.len() - i,
    {
        let f = &files[i];
        let wanted = match f.kind {
            DeploymentItemKind::Save => config.include_saves,
            DeploymentItemKind::State => config.include_states,
            _ => false,
        };
        if wanted && id_selected(&config.game_ids, f.game_id) {
            let dir = match f.kind {
                DeploymentItemKind::Save => saves,
                _ => states,
            };
            let bytes = bytes_or_zero(&f.source_path, f.bytes, warnings);
            let item = DeploymentItem {
                kind: f.kind,
                source_path: f.source_path.clone(),
                dest_path: join(dir, &f.filename),
                bytes,
                platform_id: None,
                game_id: Some(f.game_id),
            };
            let ghost before_items = items@;
            items.push(item);
            proof {
                assert(item_views(items@) =~= item_views(before_items).push(item_view(item)));
            }
        }
        i = i + 1;
    }
    items
}

// ---------------------------------------------------------------------------
// Placing items

/// Index of the first of the first `n` views with destination `d`, or -1.
pub open spec fn first_dest(s: Seq<ItemView>, d: Seq<char>, n: int) -> int
    decreases n,
{
    if n <= 0 {
        -1
    } else if first_dest(s, d, n - 1) >= 0 {
        first_dest(s, d, n - 1)
    } else if s[n - 1].2 == d {
        n - 1
    } else {
        -1
    }
}

/// Adds an item; an earlier item with the same destination is replaced in
/// place (the later item wins).
pub open spec fn place_view(s: Seq<ItemView>, v: ItemView) -> Seq<ItemView> {
    let k = first_dest(s, v.2, s.len() as int);
    if k >= 0 {
        s.update(k, v)
    } else {
        s.push(v)
    }
}

pub open spec fn place_all(s: Seq<ItemView>) -> Seq<ItemView>
    decreases s.len(),
{
    if s.len() == 0 {
        seq![]
    } else {
        place_view(place_all(s.drop_last()), s.last())
    }
}

pub open spec fn duplicate_warning(d: Seq<char>) -> Seq<char> {
    "duplicate destination, later item wins: "@ + d
}

pub open spec fn place_warnings(s: Seq<ItemView>) -> Seq<Seq<char>>
    decreases s.len(),
{
    if s.len() == 0 {
        seq![]
    } else {
        let prev = place_all(s.drop_last());
        if first_dest(prev, s.last().2, prev.len() as int) >= 0 {
            place_warnings(s.drop_last()).push(duplicate_warning(s.last().2))
        } else {
            place_warnings(s.drop_last())
        }
    }
}

proof fn lemma_first_dest_stays(s: Seq<ItemView>, d: Seq<char>, a: int, b: int)
    requires
        0 <= a <= b <= s.len(),
        first_dest(s, d, a) >= 0,
    ensures
        first_dest(s, d, b) == first_dest(s, d, a),
    decreases b - a,
{
    if a < b {
        lemma_first_dest_stays(s, d, a, b - 1);
    }
}

/// Places `item` into `items`, replacing an earlier item with the same
/// destination, and warns of the collision.
pub fn place_item(items: &mut Vec<DeploymentItem>, item: DeploymentItem, warnings: &mut Vec<String>)
    ensures
        item_views(final(items)@) == place_view(item_views(old(items)@), item_view(item)),
        string_views(final(warnings)@) == string_views(old(warnings)@) + (if first_dest(
            item_views(old(items)@),
            item.dest_path@,
            old(items)@.len() as int,
        ) >= 0 {
            seq![duplicate_warning(item.dest_path@)]
        } else {
            seq![]
        }),
{
    let ghost views = item_views(items@);
    let mut k: usize = 0;
    while k < items.len()
        invariant
            k <= items@.len(),
            views == item_views(items@),
            items@ == old(items)@,
            warnings@ == old(warnings)@,
            first_dest(views, item.dest_path@, k as int) == -1,
        decreases items@.len() - k,
    {
        if items[k].dest_path == item.dest_path {
            proof {
                assert(views[k as int] == item_view(items@[k as int]));
                assert(first_dest(views, item.dest_path@, k as int + 1) == k);
                lemma_first_dest_stays(views, item.dest_path@, k as int + 1, items@.len() as int);
            }
            let mut w = String::from_str("duplicate destination, later item wins: ");
            w.append(item.dest_path.as_str());
            let ghost before = warnings@;
            warnings.push(w);
            proof {
                assert(string_views(warnings@) =~= string_views(before).push(w@));
            }
            let ghost old_items = items@;
            items.set(k, item);
            proof {
                assert(item_views(items@) =~= views.update(k as int, item_view(item)));
            }
            return;
        }
        k = k + 1;
    }
    let ghost old_items = items@;
    items.push(item);
    proof {
        assert(item_views(items@) =~= views.push(item_view(item)));
        assert(string_views(warnings@) =~= string_views(warnings@) + seq![]);
    }
}

// ---------------------------------------------------------------------------
// Whole plans

pub open spec fn view_bytes(s: Seq<ItemView>) -> int
    decreases s.len(),
{
    if s.len() == 0 {
        0
    } else {
        view_bytes(s.drop_last()) + s.last().3
    }
}

proof fn lemma_view_bytes(items: Seq<DeploymentItem>)
    ensures
        sum_bytes(items) == view_bytes(item_views(items)),
    decreases items.len(),
{
    if items.len() > 0 {
        let rest = items.drop_last();
        lemma_view_bytes(rest);
        assert(item_views(items).drop_last() =~= item_views(rest));
        lemma_prefix_drop_last(items);
    }
}

proof fn lemma_prefix_drop_last(items: Seq<DeploymentItem>)
    requires
        items.len() > 0,
    ensures
        sum_bytes(items) == sum_bytes(items.drop_last()) + items.last().bytes,
{
    lemma_prefix_bytes_agree(items, items.drop_last(), items.len() - 1);
}

proof fn lemma_prefix_bytes_agree(a: Seq<DeploymentItem>, b: Seq<DeploymentItem>, n: int)
    requires
        0 <= n <= a.len(),
        n <= b.len(),
        forall|k: int| 0 <= k < n ==> a[k] == b[k],
    ensures
        prefix_bytes(a, n) == prefix_bytes(b, n),
    decreases n,
{
    if n > 0 {
        lemma_prefix_bytes_agree(a, b, n - 1);
    }
}

fn copy_item(i: &DeploymentItem) -> (r: DeploymentItem)
    ensures
        item_view(r) == item_view(*i),
{
    DeploymentItem {
        kind: i.kind,
        source_path: i.source_path.clone(),
        dest_path: i.dest_path.clone(),
        bytes: i.bytes,
        platform_id: clone_opt(&i.platform_id),
        game_id: i.game_id,
    }
}

/// Places the candidate items in order (a later item replaces an earlier
/// one with the same destination) and totals them. The plan's file count is
/// its number of items and its byte count the sum of their sizes; fails with
/// `InvalidInput` where that sum does not fit in 64 bits.
pub fn assemble_plan(
    plan_id: String,
    config: &DeploymentConfig,
    resolved: ResolvedDeploymentPaths,
    candidates: &Vec<DeploymentItem>,
    warnings: Vec<String>,
) -> (r: Result<DeploymentPlan, CommandError>)
    ensures
        r is Ok <==> view_bytes(place_all(item_views(candidates@))) <= u64::MAX,
        r is Err ==> r->Err_0 is InvalidInput,
        r is Ok ==> {
            let plan = r->Ok_0;
            &&& item_views(plan.items@) == place_all(item_views(candidates@))
            &&& plan_accounted(plan)
            &&& plan.plan_id == plan_id
            &&& plan.device_profile_id == config.device_profile_id
            &&& plan.destination_path@ == config.destination_path@
            &&& plan.resolved_paths == Some(resolved)
            &&& string_views(plan.warnings@) == string_views(warnings@) + place_warnings(
                item_views(candidates@),
            )
        },
{
    let ghost cv = item_views(candidates@);
    let ghost start = string_views(warnings@);
    let mut warnings = warnings;
    let mut items: Vec<DeploymentItem> = Vec::new();
    let mut i: usize = 0;
    while i < candidates.len()
        invariant
            i <= candidates@.len(),
            cv == item_views(candidates@),
            item_views(items@) == place_all(cv.subrange(0, i as int)),
            string_views(warnings@) == start + place_warnings(cv.subrange(0, i as int)),
        decreases candidates@.len() - i,
    {
        let c = copy_item(&candidates[i]);
        let ghost before_items = item_views(items@);
        proof {
            assert(cv.subrange(0, i + 1).drop_last() =~= cv.subrange(0, i as int));
            assert(cv.subrange(0, i + 1).last() == item_view(c));
        }
        place_item(&mut items, c, &mut warnings);
        proof {
            assert(string_views(warnings@) =~= start + place_warnings(cv.subrange(0, i + 1)));
        }
        i = i + 1;
    }
    proof {
        assert(cv.subrange(0, candidates@.len() as int) =~= cv);
        lemma_view_bytes(items@);
    }
    let total = match total_bytes_of(&items) {
        Some(t) => t,
        None => {
            return Err(
                CommandError::InvalidInput {
                    field: String::from_str("totalBytes"),
                    message: String::from_str("the plan's total size does not fit in 64 bits"),
                },
            );
        },
    };
    let total_files = items.len() as u64;
    Ok(
        DeploymentPlan {
            plan_id,
            device_profile_id: config.device_profile_id,
            destination_path: config.destination_path.clone(),
            resolved_paths: Some(resolved),
            items,
            total_files,
            total_bytes: total,
            warnings,
        },
    )
}

/// The distinct platforms of the first `n` selected games, in order of
/// first appearance.
pub open spec fn distinct_platforms(ids: Seq<i64>, games: Seq<Game>, n: int) -> Seq<String>
    decreases n,
{
    if n <= 0 {
        seq![]
    } else {
        let prev = distinct_platforms(ids, games, n - 1);
        let p = games[game_of(games, ids[n - 1])].platform_id;
        if contains_name(prev, p@) {
            prev
        } else {
            prev.push(p)
        }
    }
}

fn selected_platforms(ids: &Vec<i64>, games: &Vec<Game>) -> (r: Vec<String>)
    requires
        all_selected_known(ids@, games@),
    ensures
        r@ == distinct_platforms(ids@, games@, ids@.len() as int),
{
    let mut r: Vec<String> = Vec::new();
    let mut k: usize = 0;
    while k < ids.len()
        invariant
            k <= ids@.len(),
            all_selected_known(ids@, games@),
            r@ == distinct_platforms(ids@, games@, k as int),
        decreases ids@.len() - k,
    {
        let gi = match find_game(games, ids[k]) {
            Some(gi) => gi,
            None => {
                proof {
                    assert(game_of(games@, ids@[k as int]) >= 0);
                }
                k = k + 1;
                continue;
            },
        };
        let p = &games[gi].platform_id;
        if !name_in(&r, p) {
            r.push(p.clone());
        }
        k = k + 1;
    }
    r
}

/// Every candidate item of a request, before placement: ROMs, then BIOS
/// files where the configuration includes them, then saves and states.
pub open spec fn candidate_views(
    config: DeploymentConfig,
    resolved: ResolvedDeploymentPaths,
    games: Seq<Game>,
    reqs: Seq<BiosRequirement>,
    facts: BuildFacts,
) -> Seq<ItemView> {
    let ids = config.game_ids@;
    let platforms = distinct_platforms(ids, games, ids.len() as int);
    rom_views(ids, games, resolved.roms@, facts.platform_folders@, ids.len() as int) + (
    if config.include_bios {
        let names = listed_names(platforms, reqs, reqs.len() as int);
        bios_views(
            names,
            facts.bios_sources@,
            facts.bios_present@,
            facts.bios_library@,
            resolved.bios@,
            names.len() as int,
        )
    } else {
        seq![]
    }) + companion_views(
        config,
        facts.companions@,
        resolved.saves@,
        resolved.states@,
        facts.companions@.len() as int,
    )
}

/// Every warning of a request, in the order the builder raises them.
pub open spec fn build_warnings(
    config: DeploymentConfig,
    resolved: ResolvedDeploymentPaths,
    games: Seq<Game>,
    reqs: Seq<BiosRequirement>,
    facts: BuildFacts,
) -> Seq<Seq<char>> {
    let ids = config.game_ids@;
    let platforms = distinct_platforms(ids, games, ids.len() as int);
    rom_warnings(ids, games, facts.platform_folders@, ids.len() as int) + (if config.include_bios {
        let names = listed_names(platforms, reqs, reqs.len() as int);
        catalog_warnings(platforms, reqs, platforms.len() as int) + bios_warnings(
            names,
            facts.bios_sources@,
            facts.bios_present@,
            facts.bios_library@,
            resolved.bios@,
            names.len() as int,
        )
    } else {
        seq![]
    }) + companion_warnings(config, facts.companions@, facts.companions@.len() as int)
        + place_warnings(candidate_views(config, resolved, games, reqs, facts))
}

/// The configuration can be planned: it names a destination and at least
/// one game, and every selected game has a record.
pub open spec fn config_acceptable(config: DeploymentConfig, games: Seq<Game>) -> bool {
    &&& config.destination_path@.len() > 0
    &&& config.game_ids@.len() > 0
    &&& all_selected_known(config.game_ids@, games)
}

/// Builds the plan of a deployment request. Fails fast with `InvalidInput`
/// on an empty destination, an empty selection, a selected id with no game
/// record, or a total size beyond 64 bits; everything else is at most a
/// warning. The plan's totals always agree with its items.
pub fn build_plan(
    plan_id: String,
    config: &DeploymentConfig,
    resolved: ResolvedDeploymentPaths,
    games: &Vec<Game>,
    bios_requirements: &Vec<BiosRequirement>,
    facts: &BuildFacts,
) -> (r: Result<DeploymentPlan, CommandError>)
    ensures
        r is Ok <==> config_acceptable(*config, games@) && view_bytes(
            place_all(candidate_views(*config, resolved, games@, bios_requirements@, *facts)),
        ) <= u64::MAX,
        r is Err ==> r->Err_0 is InvalidInput,
        r is Ok ==> {
            let plan = r->Ok_0;
            &&& item_views(plan.items@) == place_all(
                candidate_views(*config, resolved, games@, bios_requirements@, *facts),
            )
            &&& plan_accounted(plan)
            &&& plan.plan_id == plan_id
            &&& plan.device_profile_id == config.device_profile_id
            &&& plan.destination_path@ == config.destination_path@
            &&& plan.resolved_paths == Some(resolved)
            &&& string_views(plan.warnings@) == build_warnings(
                *config,
                resolved,
                games@,
                bios_requirements@,
                *facts,
            )
        },
{
    if config.destination_path.as_str().is_empty() {
        return Err(
            CommandError::InvalidInput {
                field: String::from_str("destinationPath"),
                message: String::from_str("no destination path"),
            },
        );
    }
    if config.game_ids.len() == 0 {
        return Err(
            CommandError::InvalidInput {
                field: String::from_str("gameIds"),
                message: String::from_str("no game selected"),
            },
        );
    }
    let mut warnings: Vec<String> = Vec::new();
    let roms = match rom_items(
        &config.game_ids,
        games,
        &resolved.roms,
        &facts.platform_folders,
        &mut warnings,
    ) {
        Ok(items) => items,
        Err(e) => {
            return Err(e);
        },
    };
    let ghost w1 = string_views(warnings@);
    let bios = if config.include_bios {
        let platforms = selected_platforms(&config.game_ids, games);
        warn_missing_catalog(&platforms, bios_requirements, &mut warnings);
        let names = listed_bios_names(&platforms, bios_requirements);
        bios_items(
            &names,
            &facts.bios_sources,
            &facts.bios_present,
            &facts.bios_library,
            &resolved.bios,
            &mut warnings,
        )
    } else {
        Vec::new()
    };
    let ghost w2 = string_views(warnings@);
    let extras = companion_items(
        config,
        &facts.companions,
        &resolved.saves,
        &resolved.states,
        &mut warnings,
    );
    let mut candidates = roms;
    let ghost v1 = item_views(candidates@);
    let mut bios = bios;
    let mut extras = extras;
    let ghost vb = item_views(bios@);
    let ghost ve = item_views(extras@);
    candidates.append(&mut bios);
    candidates.append(&mut extras);
    proof {
        assert(item_views(candidates@) =~= v1 + vb + ve);
        assert(item_views(candidates@) =~= candidate_views(
            *config,
            resolved,
            games@,
            bios_requirements@,
            *facts,
        ));
        assert(string_views(warnings@) =~= rom_warnings(
            config.game_ids@,
            games@,
            facts.platform_folders@,
            config.game_ids@.len() as int,
        ) + (w2.subrange(w1.len() as int, w2.len() as int)) + companion_warnings(
            *config,
            facts.companions@,
            facts.companions@.len() as int,
        ));
    }
    assemble_plan(plan_id, config, resolved, &candidates, warnings)
}

} // verus!
