use rom_deploy::builder::{
    assemble_plan, build_plan, companion_candidates, place_item, BiosSource, BuildFacts, CompanionFile, PlatformFolder,
};
use rom_deploy::model::{
    BiosFileRef, BiosRequirement, CommandError, Confidence, DeploymentConfig, DeploymentItem,
    DeploymentItemKind, Game, LayoutPaths, ResolvedDeploymentPaths,
};
use rom_deploy::resolver::resolve;

fn game(id: i64, platform: &str, name: &str, size: u64) -> Game {
    Game {
        id,
        title: name.to_string(),
        platform_id: platform.to_string(),
        filepath: format!("/lib/{}/{}", platform, name),
        filename: name.to_string(),
        file_size: size,
        format: "rom".to_string(),
        md5: None,
        crc32: None,
        sha1: None,
        sha256: None,
        has_metadata: false,
        is_hack: false,
        metadata: None,
        created_at: "2024-01-01T00:00:00Z".to_string(),
        updated_at: "2024-01-01T00:00:00Z".to_string(),
    }
}

fn paths() -> ResolvedDeploymentPaths {
    let none = LayoutPaths { bios: None, roms: None, saves: None, states: None, screenshots: None };
    resolve("/sd", &none, &none, Confidence::High, &None, false)
}

fn config(ids: Vec<i64>) -> DeploymentConfig {
    DeploymentConfig {
        device_profile_id: 4,
        destination_path: "/sd".to_string(),
        game_ids: ids,
        include_bios: true,
        include_saves: true,
        include_states: false,
        overwrite_existing: false,
    }
}

fn bios_ref(name: &str) -> BiosFileRef {
    BiosFileRef {
        bios_id: name.to_string(),
        name: name.to_string(),
        filename: name.to_string(),
        region: None,
        notes: None,
    }
}

fn facts() -> BuildFacts {
    BuildFacts {
        platform_folders: vec![PlatformFolder {
            platform_id: "psx".to_string(),
            folder: "PS".to_string(),
        }],
        bios_sources: vec![
            BiosSource {
                filename: "scph1001.bin".to_string(),
                source_path: "/bios/scph1001.bin".to_string(),
                bytes: Some(512),
            },
            BiosSource {
                filename: "scph5501.bin".to_string(),
                source_path: "/bios/scph5501.bin".to_string(),
                bytes: None,
            },
            BiosSource {
                filename: "present.bin".to_string(),
                source_path: "/bios/present.bin".to_string(),
                bytes: Some(9),
            },
            BiosSource {
                filename: "unused.bin".to_string(),
                source_path: "/bios/unused.bin".to_string(),
                bytes: Some(9),
            },
        ],
        bios_library: "/bios".to_string(),
        bios_present: vec!["present.bin".to_string()],
        companions: vec![
            CompanionFile {
                game_id: 1,
                kind: DeploymentItemKind::Save,
                source_path: "/lib/psx/a.srm".to_string(),
                filename: "a.srm".to_string(),
                bytes: Some(8),
            },
            CompanionFile {
                game_id: 1,
                kind: DeploymentItemKind::State,
                source_path: "/lib/psx/a.st0".to_string(),
                filename: "a.st0".to_string(),
                bytes: Some(100),
            },
            CompanionFile {
                game_id: 9,
                kind: DeploymentItemKind::Save,
                source_path: "/lib/x.srm".to_string(),
                filename: "x.srm".to_string(),
                bytes: Some(8),
            },
        ],
    }
}

fn reqs() -> Vec<BiosRequirement> {
    vec![BiosRequirement {
        platform_id: "psx".to_string(),
        required: vec![bios_ref("scph1001.bin"), bios_ref("present.bin")],
        optional: vec![bios_ref("scph5501.bin")],
    }]
}

#[test]
fn plan_lists_roms_bios_and_saves() {
    let games = vec![game(1, "psx", "a.cue", 1000), game(2, "gba", "b.gba", 300)];
    let p = build_plan("plan-1".to_string(), &config(vec![1, 2]), paths(), &games, &reqs(), &facts())
        .unwrap();
    let dests: Vec<&str> = p.items.iter().map(|i| i.dest_path.as_str()).collect();
    assert_eq!(
        dests,
        vec![
            "/sd/roms/PS/a.cue",
            "/sd/roms/gba/b.gba",
            "/sd/bios/scph1001.bin",
            "/sd/bios/scph5501.bin",
            "/sd/saves/a.srm",
        ]
    );
    assert_eq!(p.items[0].source_path, "/lib/psx/a.cue");
    assert_eq!(p.items[0].kind, DeploymentItemKind::Rom);
    assert_eq!(p.items[0].platform_id, Some("psx".to_string()));
    assert_eq!(p.items[2].kind, DeploymentItemKind::Bios);
    assert_eq!(p.items[3].bytes, 0);
    assert_eq!(p.items[4].game_id, Some(1));
    assert_eq!(p.total_files, 5);
    assert_eq!(p.total_bytes, 1000 + 300 + 512 + 0 + 8);
    assert_eq!(p.total_bytes, p.items.iter().map(|i| i.bytes).sum::<u64>());
    assert_eq!(p.plan_id, "plan-1");
    assert_eq!(p.device_profile_id, 4);
    assert_eq!(
        p.warnings,
        vec![
            "no destination folder for platform gba".to_string(),
            "no BIOS catalog entry for platform gba".to_string(),
            "unknown size, counted as 0: /bios/scph5501.bin".to_string(),
        ]
    );
}

#[test]
fn states_and_bios_follow_the_flags() {
    let games = vec![game(1, "psx", "a.cue", 1000)];
    let mut c = config(vec![1]);
    c.include_bios = false;
    c.include_saves = false;
    c.include_states = true;
    let p = build_plan("p".to_string(), &c, paths(), &games, &reqs(), &facts()).unwrap();
    let dests: Vec<&str> = p.items.iter().map(|i| i.dest_path.as_str()).collect();
    assert_eq!(dests, vec!["/sd/roms/PS/a.cue", "/sd/states/a.st0"]);
    assert_eq!(p.total_bytes, 1100);
}

#[test]
fn later_item_wins_a_shared_destination() {
    let games = vec![game(1, "psx", "a.cue", 10), game(2, "psx", "a.cue", 20)];
    let mut c = config(vec![1, 2]);
    c.include_bios = false;
    let p = build_plan("p".to_string(), &c, paths(), &games, &reqs(), &facts()).unwrap();
    assert_eq!(p.items.len(), 2);
    assert_eq!(p.items[0].bytes, 20);
    assert_eq!(p.items[0].game_id, Some(2));
    assert_eq!(p.total_bytes, 28);
    assert_eq!(
        p.warnings,
        vec!["duplicate destination, later item wins: /sd/roms/PS/a.cue".to_string()]
    );
}

#[test]
fn malformed_requests_fail_fast() {
    let games = vec![game(1, "psx", "a.cue", 10)];
    let mut c = config(vec![1]);
    c.destination_path = String::new();
    let e = build_plan("p".to_string(), &c, paths(), &games, &reqs(), &facts()).unwrap_err();
    assert!(matches!(e, CommandError::InvalidInput { ref field, .. } if field == "destinationPath"));
    let e = build_plan("p".to_string(), &config(vec![]), paths(), &games, &reqs(), &facts())
        .unwrap_err();
    assert!(matches!(e, CommandError::InvalidInput { ref field, .. } if field == "gameIds"));
    let e = build_plan("p".to_string(), &config(vec![1, 5]), paths(), &games, &reqs(), &facts())
        .unwrap_err();
    assert!(matches!(e, CommandError::InvalidInput { ref field, .. } if field == "gameIds"));
}

#[test]
fn oversized_plans_are_refused() {
    let games = vec![game(1, "psx", "a.cue", u64::MAX), game(2, "psx", "b.cue", 1)];
    let mut c = config(vec![1, 2]);
    c.include_bios = false;
    let e = build_plan("p".to_string(), &c, paths(), &games, &reqs(), &facts()).unwrap_err();
    assert!(matches!(e, CommandError::InvalidInput { ref field, .. } if field == "totalBytes"));
}

fn raw(dest: &str, bytes: u64) -> DeploymentItem {
    DeploymentItem {
        kind: DeploymentItemKind::Other,
        source_path: format!("/src{}", dest),
        dest_path: dest.to_string(),
        bytes,
        platform_id: None,
        game_id: None,
    }
}

#[test]
fn placing_replaces_in_place() {
    let mut items = vec![raw("/a", 1), raw("/b", 2)];
    let mut warnings = vec![];
    place_item(&mut items, raw("/c", 3), &mut warnings);
    assert!(warnings.is_empty());
    place_item(&mut items, raw("/a", 4), &mut warnings);
    let got: Vec<(String, u64)> = items.iter().map(|i| (i.dest_path.clone(), i.bytes)).collect();
    assert_eq!(
        got,
        vec![("/a".to_string(), 4), ("/b".to_string(), 2), ("/c".to_string(), 3)]
    );
    assert_eq!(warnings, vec!["duplicate destination, later item wins: /a".to_string()]);
}

#[test]
fn assembled_totals_match_items() {
    let c = config(vec![1]);
    let items = vec![raw("/a", 7), raw("/b", 8), raw("/a", 9)];
    let p = assemble_plan("p".to_string(), &c, paths(), &items, vec!["x".to_string()]).unwrap();
    assert_eq!(p.total_files, 2);
    assert_eq!(p.total_bytes, 17);
    assert_eq!(p.warnings.len(), 2);
    assert_eq!(p.destination_path, "/sd");
}

#[test]
fn needed_bios_missing_from_library_is_still_planned() {
    let games = vec![game(1, "psx", "a.cue", 1000)];
    let reqs = vec![BiosRequirement {
        platform_id: "psx".to_string(),
        required: vec![bios_ref("gone.bin"), bios_ref("scph1001.bin"), bios_ref("gone.bin")],
        optional: vec![bios_ref("present.bin")],
    }];
    let mut c = config(vec![1]);
    c.include_saves = false;
    let p = build_plan("p".to_string(), &c, paths(), &games, &reqs, &facts()).unwrap();
    let got: Vec<(&str, &str, u64)> = p
        .items
        .iter()
        .map(|i| (i.source_path.as_str(), i.dest_path.as_str(), i.bytes))
        .collect();
    assert_eq!(
        got,
        vec![
            ("/lib/psx/a.cue", "/sd/roms/PS/a.cue", 1000),
            ("/bios/gone.bin", "/sd/bios/gone.bin", 0),
            ("/bios/scph1001.bin", "/sd/bios/scph1001.bin", 512),
        ]
    );
    assert_eq!(
        p.warnings,
        vec!["BIOS file not in library, counted as 0: /bios/gone.bin".to_string()]
    );
}

#[test]
fn companion_names_follow_the_rom_stem() {
    let names = |rom: &str| -> Vec<(String, DeploymentItemKind)> {
        companion_candidates(&rom.to_string())
    };
    assert_eq!(
        names("Super Game (USA).sfc"),
        vec![
            ("Super Game (USA).srm".to_string(), DeploymentItemKind::Save),
            ("Super Game (USA).sav".to_string(), DeploymentItemKind::Save),
            ("Super Game (USA).state".to_string(), DeploymentItemKind::State),
        ]
    );
    assert_eq!(names("a.b.cue")[0].0, "a.b.srm");
    assert_eq!(names("noext")[2].0, "noext.state");
    assert_eq!(names(".hidden")[1].0, ".hidden.sav");
}
