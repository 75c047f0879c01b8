use ksud::child::{module_candidates, plan_child, ChildPlan, EntryKind, ModuleEntry};
use ksud::error::MountError;
use ksud::guard::AutoMountExt4;
use ksud::layers::{lowerdir_config, LayerStack, OVERLAY_SOURCE};
use ksud::overlay::{Event, OverlayRun, Phase};
use ksud::paths::{child_mount_points, is_child_mount, relative_path, starts_with, str_less};
use ksud::strategy::{first_strategy, next_attempt, next_ext4_step, Attempt, Ext4Event, Ext4Step, Strategy};

fn strings(v: &[&str]) -> Vec<String> {
    v.iter().map(|s| s.to_string()).collect()
}

fn entry(path: &str, kind: EntryKind) -> ModuleEntry {
    ModuleEntry { path: path.to_string(), kind }
}

#[test]
fn lowerdir_keeps_module_order_and_stock_last() {
    let dirs = strings(&["/data/adb/modules/a/system", "/data/adb/modules/b/system"]);
    assert_eq!(
        lowerdir_config(&dirs, "/system"),
        "/data/adb/modules/a/system:/data/adb/modules/b/system:/system"
    );
}

#[test]
fn lowerdir_without_modules_is_stock_alone() {
    assert_eq!(lowerdir_config(&Vec::new(), "/system"), "/system");
}

#[test]
fn lowerdir_keeps_repeated_entries() {
    let dirs = strings(&["/m", "/m"]);
    assert_eq!(lowerdir_config(&dirs, "/s"), "/m:/m:/s");
}

#[test]
fn writable_layers_need_both_directories() {
    let both = LayerStack::new(strings(&["/m"]), "/s".to_string(), Some("/u".to_string()), true, Some("/w".to_string()), true);
    assert_eq!(both.writable, Some(("/u".to_string(), "/w".to_string())));
    assert_eq!(both.legacy_options(), "lowerdir=/m:/s,upperdir=/u,workdir=/w");

    let upper_only = LayerStack::new(strings(&["/m"]), "/s".to_string(), Some("/u".to_string()), true, None, false);
    assert_eq!(upper_only.writable, None);
    assert_eq!(upper_only.legacy_options(), "lowerdir=/m:/s");

    let work_only = LayerStack::new(strings(&["/m"]), "/s".to_string(), None, false, Some("/w".to_string()), true);
    assert_eq!(work_only.writable, None);

    let missing = LayerStack::new(strings(&["/m"]), "/s".to_string(), Some("/u".to_string()), true, Some("/w".to_string()), false);
    assert_eq!(missing.writable, None);
    assert_eq!(missing.legacy_options(), "lowerdir=/m:/s");
}

#[test]
fn modern_config_sets_layers_then_source() {
    let stack = LayerStack::new(strings(&["/m"]), "/s".to_string(), Some("/u".to_string()), true, Some("/w".to_string()), true);
    let expected: Vec<(String, String)> = vec![
        ("lowerdir".to_string(), "/m:/s".to_string()),
        ("upperdir".to_string(), "/u".to_string()),
        ("workdir".to_string(), "/w".to_string()),
        ("source".to_string(), OVERLAY_SOURCE.to_string()),
    ];
    assert_eq!(stack.modern_config(), expected);
    let ro = LayerStack::new(strings(&["/m"]), "/s".to_string(), None, false, None, false);
    assert_eq!(ro.modern_config().len(), 2);
    assert_eq!(ro.lowerdir(), "/m:/s");
}

#[test]
fn modern_failure_falls_back_to_legacy_without_error() {
    assert_eq!(first_strategy(), Strategy::Modern);
    assert_eq!(next_attempt(Strategy::Modern, false, true), Attempt::Try(Strategy::Legacy));
    assert_eq!(next_attempt(Strategy::Legacy, true, true), Attempt::Succeeded);
    assert_eq!(next_attempt(Strategy::Legacy, false, true), Attempt::Failed(MountError::LegacyMount));
    assert_eq!(next_attempt(Strategy::Modern, true, true), Attempt::Succeeded);
    assert_eq!(next_attempt(Strategy::Modern, false, false), Attempt::Failed(MountError::ModernMount));
}

#[test]
fn ext4_steps_in_order() {
    let mut step = Ext4Step::AllocateLoop;
    step = next_ext4_step(step, Ext4Event::Succeeded);
    assert_eq!(step, Ext4Step::AttachLoop);
    step = next_ext4_step(step, Ext4Event::Succeeded);
    assert_eq!(step, Ext4Step::Mount(Strategy::Modern));
    step = next_ext4_step(step, Ext4Event::Failed);
    assert_eq!(step, Ext4Step::Mount(Strategy::Legacy));
    step = next_ext4_step(step, Ext4Event::Succeeded);
    assert_eq!(step, Ext4Step::Done);
}

#[test]
fn ext4_errors() {
    assert_eq!(next_ext4_step(Ext4Step::AllocateLoop, Ext4Event::Failed), Ext4Step::Failed(MountError::LoopAllocation));
    assert_eq!(next_ext4_step(Ext4Step::AttachLoop, Ext4Event::Failed), Ext4Step::Failed(MountError::LoopAttach));
    assert_eq!(
        next_ext4_step(Ext4Step::Mount(Strategy::Modern), Ext4Event::PathNotText),
        Ext4Step::Mount(Strategy::Legacy)
    );
    assert_eq!(
        next_ext4_step(Ext4Step::Mount(Strategy::Legacy), Ext4Event::PathNotText),
        Ext4Step::Failed(MountError::InvalidPathEncoding)
    );
    assert_eq!(
        next_ext4_step(Ext4Step::Mount(Strategy::Legacy), Ext4Event::Failed),
        Ext4Step::Failed(MountError::LegacyMount)
    );
}

#[test]
fn string_order_and_prefixes() {
    assert!(str_less("/a", "/b"));
    assert!(str_less("/a", "/a/b"));
    assert!(!str_less("/a/b", "/a"));
    assert!(!str_less("/a", "/a"));
    assert!(starts_with("/system/bin", "/system"));
    assert!(!starts_with("/sys", "/system"));
    assert_eq!(relative_path("/system", "/system/vendor"), "/vendor");
}

#[test]
fn child_mounts_are_strict_descendants() {
    assert!(is_child_mount("/system", "/system/vendor"));
    assert!(!is_child_mount("/system", "/system"));
    assert!(!is_child_mount("/system", "/system_ext"));
    assert!(!is_child_mount("/system", "/"));
    assert!(is_child_mount("/system/", "/system/vendor"));
}

#[test]
fn child_mounts_sorted_and_unique() {
    let table = strings(&["/", "/system/vendor", "/data", "/system/app", "/system", "/system/vendor", "/system_ext"]);
    assert_eq!(child_mount_points("/system", &table), strings(&["/system/app", "/system/vendor"]));
}

#[test]
fn candidates_follow_module_order() {
    let roots = strings(&["/m1", "/m2"]);
    assert_eq!(module_candidates(&roots, "/data"), strings(&["/m1/data", "/m2/data"]));
}

#[test]
fn plan_bind_when_no_module_provides() {
    let entries = vec![entry("/m1/data", EntryKind::Missing), entry("/m2/data", EntryKind::Missing)];
    assert!(matches!(plan_child(&entries, true), ChildPlan::Bind));
    assert!(matches!(plan_child(&Vec::new(), false), ChildPlan::Bind));
}

#[test]
fn plan_leave_when_stock_not_directory() {
    let entries = vec![entry("/m1/data", EntryKind::Directory)];
    assert!(matches!(plan_child(&entries, false), ChildPlan::Leave));
}

#[test]
fn plan_overlay_collects_directories_in_order() {
    let entries = vec![
        entry("/m1/data", EntryKind::Directory),
        entry("/m2/data", EntryKind::Missing),
        entry("/m3/data", EntryKind::Directory),
    ];
    match plan_child(&entries, true) {
        ChildPlan::Overlay(d) => assert_eq!(d, strings(&["/m1/data", "/m3/data"])),
        _ => panic!("expected an overlay"),
    }
}

#[test]
fn plan_blocker_masks_lower_modules() {
    let blocked = vec![entry("/m1/data", EntryKind::Other), entry("/m2/data", EntryKind::Directory)];
    assert!(matches!(plan_child(&blocked, true), ChildPlan::Leave));
    let after_dir = vec![entry("/m1/data", EntryKind::Directory), entry("/m2/data", EntryKind::Other)];
    match plan_child(&after_dir, true) {
        ChildPlan::Overlay(d) => assert_eq!(d, strings(&["/m1/data"])),
        _ => panic!("expected an overlay"),
    }
}

#[test]
fn no_children_single_root_mount() {
    let table = strings(&["/", "/data", "/system"]);
    let mut run = OverlayRun::start("/system", &strings(&["/m"]), &table);
    assert_eq!(run.phase, Phase::MountRoot);
    assert!(run.mount_points.is_empty());
    let stack = run.root_stack(None, false, None, false);
    assert_eq!(stack.lowerdir(), "/m:/system");
    run.advance(Event::Succeeded);
    assert_eq!(run.phase, Phase::Done);
    assert_eq!(run.outcome(), Some(Ok(())));
}

#[test]
fn unoverridden_child_is_bound_back() {
    let mut run = OverlayRun::start("/root", &strings(&["/m"]), &strings(&["/root", "/root/data"]));
    run.advance(Event::Succeeded);
    assert_eq!(run.phase, Phase::Probe(0));
    assert_eq!(run.child_stock(0), "./data");
    assert_eq!(run.child_candidates(0), strings(&["/m/data"]));
    run.advance(Event::Probed { stock_exists: true, stock_is_dir: true, modules: vec![entry("/m/data", EntryKind::Missing)] });
    assert_eq!(run.phase, Phase::Bind(0));
    run.advance(Event::Succeeded);
    assert_eq!(run.outcome(), Some(Ok(())));
}

#[test]
fn module_directory_overlays_child() {
    let mut run = OverlayRun::start("/root", &strings(&["/m"]), &strings(&["/root/data"]));
    run.advance(Event::Succeeded);
    run.advance(Event::Probed { stock_exists: true, stock_is_dir: true, modules: vec![entry("/m/data", EntryKind::Directory)] });
    assert_eq!(run.phase, Phase::Overlay(0));
    let stack = run.child_stack(0);
    assert_eq!(stack.lowerdir(), "/m/data:./data");
    assert_eq!(stack.writable, None);
    run.advance(Event::Succeeded);
    assert_eq!(run.outcome(), Some(Ok(())));
}

#[test]
fn missing_stock_child_is_skipped() {
    let mut run = OverlayRun::start("/root", &strings(&["/m"]), &strings(&["/root/a", "/root/b"]));
    run.advance(Event::Succeeded);
    run.advance(Event::Probed { stock_exists: false, stock_is_dir: false, modules: Vec::new() });
    assert_eq!(run.phase, Phase::Probe(1));
}

#[test]
fn root_failure_ends_run() {
    let mut run = OverlayRun::start("/root", &strings(&["/m"]), &strings(&["/root/data"]));
    run.advance(Event::Failed);
    assert_eq!(run.phase, Phase::Failed(MountError::RootOverlay));
    run.advance(Event::Succeeded);
    assert_eq!(run.outcome(), Some(Err(MountError::RootOverlay)));
}

#[test]
fn child_failure_reverts_root() {
    let mut run = OverlayRun::start("/root", &strings(&["/m"]), &strings(&["/root/data", "/root/x"]));
    run.advance(Event::Succeeded);
    run.advance(Event::Probed { stock_exists: true, stock_is_dir: true, modules: vec![entry("/m/data", EntryKind::Directory)] });
    run.advance(Event::Failed);
    assert_eq!(run.phase, Phase::Bind(0));
    run.advance(Event::Failed);
    assert_eq!(run.phase, Phase::Revert);
    assert_eq!(run.outcome(), None);
    run.advance(Event::Succeeded);
    assert_eq!(run.outcome(), Some(Err(MountError::ChildMount)));
}

#[test]
fn failed_revert_reports_revert_error() {
    let mut run = OverlayRun::start("/root", &Vec::new(), &strings(&["/root/data"]));
    run.advance(Event::Succeeded);
    run.advance(Event::Probed { stock_exists: true, stock_is_dir: true, modules: Vec::new() });
    assert_eq!(run.phase, Phase::Bind(0));
    run.advance(Event::Failed);
    run.advance(Event::Failed);
    assert_eq!(run.outcome(), Some(Err(MountError::Revert)));
}

#[test]
fn guard_with_auto_unmount_detaches_once() {
    let mut g = AutoMountExt4::try_new(Ok(()), "/mnt/img", true).unwrap();
    assert_eq!(g.target(), "/mnt/img");
    assert_eq!(g.release(), Some("/mnt/img".to_string()));
    assert_eq!(g.release(), None);
}

#[test]
fn guard_without_auto_unmount_keeps_mount() {
    let mut g = AutoMountExt4::try_new(Ok(()), "/mnt/img", false).unwrap();
    assert_eq!(g.release(), None);
    assert!(g.released);
}

#[test]
fn guard_not_made_for_failed_mount() {
    assert!(matches!(
        AutoMountExt4::try_new(Err(MountError::LegacyMount), "/mnt/img", true),
        Err(MountError::LegacyMount)
    ));
}
