use dirsync::{decide_entry, decide_single_file, lookup_dest, plan_level, Decision, DirEntry, Args};

fn entry(name: &str, is_file: bool, mtime: u128) -> DirEntry {
    DirEntry {
        name: name.to_string(),
        path: format!("root/{}", name),
        is_file,
        mtime,
    }
}

fn cfg(recursive: bool, force: bool, update: bool, exclude: Vec<&str>) -> Args {
    Args {
        src_path: "src".to_string(),
        dest_path: "dest".to_string(),
        recursive,
        force,
        update,
        exclude_patterns: exclude.into_iter().map(|p| p.to_string()).collect(),
    }
}

#[test]
fn flat_copy_with_exclusion() {
    let c = cfg(true, false, false, vec!["b\\.log"]);
    let src = vec![entry("a.txt", true, 10), entry("b.log", true, 20), entry("sub", false, 30)];
    let dest: Vec<DirEntry> = Vec::new();
    let plan = plan_level(&c, &src, &dest);
    assert_eq!(plan, vec![Decision::CopyFile, Decision::Exclude, Decision::RecurseDir]);
}

#[test]
fn same_mtime_no_flags_is_gated() {
    let c = cfg(false, false, false, vec![]);
    let src_entry = entry("x.txt", true, 100);
    let dest = vec![entry("x.txt", true, 100)];
    let d = decide_entry(&c, &src_entry, &dest);
    assert_eq!(d, Decision::SkipExistsNoForce);
}

#[test]
fn update_with_equal_mtime_skips_unchanged() {
    let c = cfg(false, false, true, vec![]);
    let d = decide_entry(&c, &entry("x.txt", true, 100), &vec![entry("x.txt", true, 100)]);
    assert_eq!(d, Decision::SkipUnchanged);
}

#[test]
fn force_with_equal_mtime_skips_unchanged() {
    let c = cfg(false, true, false, vec![]);
    let d = decide_entry(&c, &entry("x.txt", true, 100), &vec![entry("x.txt", true, 100)]);
    assert_eq!(d, Decision::SkipUnchanged);
}

#[test]
fn update_with_different_mtime_copies() {
    let c = cfg(false, false, true, vec![]);
    let d = decide_entry(&c, &entry("x.txt", true, 100), &vec![entry("x.txt", true, 99)]);
    assert_eq!(d, Decision::CopyFile);
}

#[test]
fn force_overwrites_older_and_newer() {
    let c = cfg(false, true, false, vec![]);
    let older = decide_entry(&c, &entry("x.txt", true, 100), &vec![entry("x.txt", true, 50)]);
    let newer = decide_entry(&c, &entry("x.txt", true, 100), &vec![entry("x.txt", true, 150)]);
    assert_eq!(older, Decision::CopyFile);
    assert_eq!(newer, Decision::CopyFile);
}

#[test]
fn no_flags_existing_entry_not_overwritten() {
    let c = cfg(false, false, false, vec![]);
    let older = decide_entry(&c, &entry("x.txt", true, 100), &vec![entry("x.txt", true, 50)]);
    let newer = decide_entry(&c, &entry("x.txt", true, 100), &vec![entry("x.txt", true, 150)]);
    assert_eq!(older, Decision::SkipExistsNoForce);
    assert_eq!(newer, Decision::SkipExistsNoForce);
}

#[test]
fn directory_without_recursion_is_skipped() {
    let c = cfg(false, false, false, vec![]);
    let d = decide_entry(&c, &entry("sub", false, 0), &Vec::new());
    assert_eq!(d, Decision::SkipRecursionDisabled);
}

#[test]
fn directory_with_recursion_descends() {
    let c = cfg(true, false, false, vec![]);
    let d = decide_entry(&c, &entry("sub", false, 0), &Vec::new());
    assert_eq!(d, Decision::RecurseDir);
}

#[test]
fn existing_directory_hits_overwrite_gate() {
    let c = cfg(true, false, false, vec![]);
    let d = decide_entry(&c, &entry("sub", false, 0), &vec![entry("sub", false, 0)]);
    assert_eq!(d, Decision::SkipExistsNoForce);
}

#[test]
fn excluded_despite_force_and_update() {
    let c = cfg(true, true, true, vec!["secret.*"]);
    let d = decide_entry(&c, &entry("secrets.txt", true, 5), &Vec::new());
    assert_eq!(d, Decision::Exclude);
}

#[test]
fn new_file_is_copied() {
    let c = cfg(false, false, false, vec![]);
    let d = decide_entry(&c, &entry("fresh.txt", true, 5), &vec![entry("other.txt", true, 5)]);
    assert_eq!(d, Decision::CopyFile);
}

#[test]
fn exclusion_is_anchored_whole_name() {
    let c = cfg(false, false, false, vec!["b"]);
    let partial = decide_entry(&c, &entry("ab", true, 1), &Vec::new());
    let whole = decide_entry(&c, &entry("b", true, 1), &Vec::new());
    assert_eq!(partial, Decision::CopyFile);
    assert_eq!(whole, Decision::Exclude);
}

#[test]
fn malformed_pattern_matches_nothing() {
    let c = cfg(false, false, false, vec!["("]);
    let d = decide_entry(&c, &entry("(", true, 1), &Vec::new());
    assert_eq!(d, Decision::CopyFile);
}

#[test]
fn second_run_copies_nothing() {
    let c = cfg(true, false, false, vec![]);
    let src = vec![entry("a.txt", true, 1), entry("b.txt", true, 2), entry("sub", false, 3)];
    let dest = vec![entry("a.txt", true, 1), entry("b.txt", true, 2), entry("sub", false, 3)];
    let plan = plan_level(&c, &src, &dest);
    assert_eq!(
        plan,
        vec![Decision::SkipExistsNoForce, Decision::SkipExistsNoForce, Decision::SkipExistsNoForce]
    );
}

#[test]
fn lookup_dest_takes_first_match() {
    let dest = vec![entry("a", true, 1), entry("x", true, 2), entry("x", true, 3)];
    assert_eq!(lookup_dest(&dest, "x"), Some(2));
}

#[test]
fn lookup_dest_misses() {
    let dest = vec![entry("a", true, 1)];
    assert_eq!(lookup_dest(&dest, "b"), None);
}

#[test]
fn single_file_into_empty_destination() {
    let c = cfg(false, false, false, vec![]);
    assert_eq!(decide_single_file(&c, "x.txt", &Vec::new()), Decision::CopyFile);
}

#[test]
fn single_file_gated_without_flags() {
    let c = cfg(false, false, false, vec![]);
    let dest = vec![entry("x.txt", true, 100)];
    assert_eq!(decide_single_file(&c, "x.txt", &dest), Decision::SkipExistsNoForce);
}

#[test]
fn single_file_skips_staleness_check() {
    let c = cfg(false, false, true, vec![]);
    let dest = vec![entry("x.txt", true, 100)];
    assert_eq!(decide_single_file(&c, "x.txt", &dest), Decision::CopyFile);
}
