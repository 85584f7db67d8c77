use rom_deploy::model::{DeploymentItem, DeploymentItemKind, DeploymentPlan};
use rom_deploy::validator::{bytes_needed, destination_folders, validate, DestinationProbe, ItemProbe};

const MB: u64 = 1_000_000;

fn item(source: &str, dest: &str, bytes: u64) -> DeploymentItem {
    DeploymentItem {
        kind: DeploymentItemKind::Rom,
        source_path: source.to_string(),
        dest_path: dest.to_string(),
        bytes,
        platform_id: Some("snes".to_string()),
        game_id: None,
    }
}

fn plan(items: Vec<DeploymentItem>) -> DeploymentPlan {
    let total: u64 = items.iter().map(|i| i.bytes).sum();
    DeploymentPlan {
        plan_id: "plan-a".to_string(),
        device_profile_id: 1,
        destination_path: "/sd".to_string(),
        resolved_paths: None,
        total_files: items.len() as u64,
        total_bytes: total,
        items,
        warnings: vec![],
    }
}

fn ok_probe(n: usize, free: u64) -> DestinationProbe {
    DestinationProbe {
        free_bytes: free,
        unwritable: vec![],
        items: vec![ItemProbe { source_readable: true, existing_dest_size: None }; n],
    }
}

#[test]
fn existing_identical_file_only_warns() {
    let p = plan(vec![
        item("/lib/a.sfc", "/sd/roms/a.sfc", 200 * MB),
        item("/lib/b.sfc", "/sd/roms/b.sfc", 200 * MB),
        item("/lib/c.sfc", "/sd/roms/c.sfc", 100 * MB),
    ]);
    let mut probe = ok_probe(3, 400 * MB);
    probe.items[1].existing_dest_size = Some(200 * MB);
    let r = validate(&p, false, &probe);
    assert!(r.valid);
    assert!(r.errors.is_empty());
    assert_eq!(r.warnings, vec!["will be skipped: /sd/roms/b.sfc".to_string()]);
    assert_eq!(bytes_needed(&p, &probe.items, false), 300 * MB);
}

#[test]
fn overwrite_counts_everything() {
    let p = plan(vec![item("/a", "/sd/a", 10), item("/b", "/sd/b", 5)]);
    let mut probe = ok_probe(2, 12);
    probe.items[0].existing_dest_size = Some(10);
    assert_eq!(bytes_needed(&p, &probe.items, true), 15);
    let r = validate(&p, true, &probe);
    assert!(!r.valid);
    assert_eq!(r.errors, vec!["insufficient free space at destination".to_string()]);
    assert!(r.warnings.is_empty());
    let r = validate(&p, false, &probe);
    assert!(r.valid);
}

#[test]
fn every_check_reports() {
    let p = plan(vec![
        item("/a", "/sd/x", 10),
        item("/b", "/sd/x", 10),
        item("/c", "/sd/y", 10),
    ]);
    let mut probe = ok_probe(3, 5);
    probe.items[2].source_readable = false;
    probe.unwritable = vec!["/sd".to_string()];
    let r = validate(&p, false, &probe);
    assert!(!r.valid);
    assert_eq!(
        r.errors,
        vec![
            "source missing or unreadable: /c".to_string(),
            "destination not writable: /sd".to_string(),
            "insufficient free space at destination".to_string(),
            "conflicting sources for destination: /sd/x".to_string(),
        ]
    );
}

#[test]
fn same_source_twice_is_no_conflict() {
    let p = plan(vec![item("/a", "/sd/x", 1), item("/a", "/sd/x", 1)]);
    let r = validate(&p, false, &ok_probe(2, 100));
    assert!(r.valid);
    assert_eq!(r.valid, r.errors.is_empty());
}

#[test]
fn empty_plan_is_valid() {
    let p = plan(vec![]);
    let r = validate(&p, false, &ok_probe(0, 0));
    assert!(r.valid);
}

#[test]
fn folders_of_a_plan() {
    let p = plan(vec![]);
    assert_eq!(destination_folders(&p), vec!["/sd".to_string()]);
}

#[test]
fn unprobed_items_count_as_unreadable() {
    let p = plan(vec![item("/a", "/sd/a", 1), item("/b", "/sd/b", 1)]);
    let r = validate(&p, false, &ok_probe(1, 100));
    assert!(!r.valid);
    assert_eq!(r.errors, vec!["source missing or unreadable: /b".to_string()]);
}
