use font_manager::family::group_families;
use font_manager::fonts::{resolve_face, FaceRecord, FaceSource, FaceStyle, FontVariant};
use font_manager::identity::{content_digest, face_id};
use font_manager::install::{files_identical, registry_name, InstallAction, InstallPhase, InstallResult, PathInstall};
use font_manager::preview::{check_preview_location, check_preview_size, check_preview_type, encode_preview, preview_mime};
use font_manager::paths::{has_font_extension, path_extension, path_under};
use font_manager::registry::{matching_names, RegistryValue};
use font_manager::uninstall::{after_delete, after_registry_removal, check_uninstall};
use std::collections::HashMap;

const SYSTEM_DIR: &str = "C:\\Windows\\Fonts";
const USER_DIR: &str = "C:\\Users\\me\\AppData\\Local\\Microsoft\\Windows\\Fonts";

#[test]
fn face_id_is_sha1_hex_of_path_then_name() {
    assert_eq!(face_id("ab", "c"), "a9993e364706816aba3e25717850c26c9cd0d89d");
    assert_eq!(face_id("/f/a.ttf", "A-Bold"), face_id("/f/a.ttf", "A-Bold"));
    assert_ne!(face_id("/f/a.ttf", "A-Bold"), face_id("/f/a.ttf", "A-Regular"));
    assert_ne!(face_id("/f/a.ttf", "A-Bold"), face_id("/f/b.ttf", "A-Bold"));
    assert_eq!(face_id("x", "y").len(), 40);
}

#[test]
fn content_digest_is_sha256_hex() {
    assert_eq!(
        content_digest(b"abc"),
        "ba7816bf8f01cfea414140de5dae2223b00361a396177a9cb410ff61f20015ad"
    );
}

#[test]
fn identical_files_need_equal_size_and_digest() {
    assert!(files_identical(b"font", b"font"));
    assert!(!files_identical(b"font", b"fonts"));
    assert!(!files_identical(b"font", b"fond"));
}

#[test]
fn paths_under_directories() {
    assert!(path_under("C:\\Windows\\Fonts\\arial.ttf", SYSTEM_DIR));
    assert!(path_under("C:\\Windows\\Fonts", SYSTEM_DIR));
    assert!(!path_under("C:\\Windows\\FontsExtra\\a.ttf", SYSTEM_DIR));
    assert!(!path_under("D:\\fonts\\a.ttf", SYSTEM_DIR));
    assert!(!path_under("C:\\Windows\\Fonts\\a.ttf", ""));
    assert!(path_under("C:/Windows/Fonts/a.ttf", SYSTEM_DIR));
    assert!(path_under("C:\\Windows\\\\Fonts\\a.ttf", SYSTEM_DIR));
    assert!(path_under("C:\\Windows\\Fonts\\a.ttf", "C:\\Windows\\Fonts\\"));
    assert!(!path_under("C:\\Windows", SYSTEM_DIR));
}

#[test]
fn system_font_with_forward_slashes_is_protected() {
    let r = check_uninstall("C:/Windows/Fonts/arial.ttf", SYSTEM_DIR, true).unwrap();
    assert!(!r.success);
    assert_eq!(r.message, "Cannot uninstall system core fonts.");
}

#[test]
fn extensions_are_read_from_the_file_name() {
    assert_eq!(path_extension("/fonts/Foo-Bold.ttf"), Some("ttf".to_string()));
    assert_eq!(path_extension("C:\\a.b\\Foo"), None);
    assert_eq!(path_extension("/fonts/.ttf"), None);
    assert!(has_font_extension("/fonts/Foo.TTF"));
    assert!(has_font_extension("/fonts/Foo.otf"));
    assert!(!has_font_extension("/fonts/readme.txt"));
    assert!(!has_font_extension("/fonts/Foo"));
}

fn face(family: &str, weight: u16, ps: &str, source: FaceSource) -> FaceRecord {
    FaceRecord {
        family: Some(family.to_string()),
        style: FaceStyle::Normal,
        weight,
        postscript_name: ps.to_string(),
        source,
        index: 0,
    }
}

#[test]
fn resolve_face_builds_the_variant() {
    let f = face("Roboto", 400, "Roboto-Bold", FaceSource::File("C:\\Windows\\Fonts\\rb.ttf".to_string()));
    let v = resolve_face(&f, &None, SYSTEM_DIR);
    assert_eq!(v.weight, 700);
    assert_eq!(v.family, "Roboto");
    assert_eq!(v.style, "normal");
    assert_eq!(v.path, "C:\\Windows\\Fonts\\rb.ttf");
    assert_eq!(v.id, face_id("C:\\Windows\\Fonts\\rb.ttf", "Roboto-Bold"));
    assert_eq!(v.full_name, Some("Roboto-Bold".to_string()));
    assert_eq!(v.postscript_name, Some("Roboto-Bold".to_string()));
    assert!(v.is_system_core);

    let unreadable = face("Roboto", 700, "Roboto", FaceSource::File("D:\\f\\r.ttf".to_string()));
    let v = resolve_face(&unreadable, &Some(vec![1, 2, 3, 4]), SYSTEM_DIR);
    assert_eq!(v.full_name, Some("Roboto Bold".to_string()));
    assert!(!v.is_system_core);

    let m = FaceRecord { family: None, ..face("", 200, "Mem", FaceSource::Binary) };
    let v = resolve_face(&m, &Some(vec![0u8; 4]), SYSTEM_DIR);
    assert_eq!(v.family, "Unknown");
    assert_eq!(v.path, "memory");
    assert_eq!(v.id, face_id("memory", "Mem"));
    assert_eq!(v.full_name, Some("Mem ExtraLight".to_string()));
    assert!(!v.is_system_core);
}

fn variant(family: &str, weight: u16, style: &str, ps: &str) -> FontVariant {
    FontVariant {
        id: ps.to_string(),
        family: family.to_string(),
        style: style.to_string(),
        weight,
        path: String::new(),
        postscript_name: Some(ps.to_string()),
        full_name: None,
        is_system_core: false,
    }
}

#[test]
fn families_are_grouped_and_sorted() {
    let input = vec![
        variant("Roboto", 700, "normal", "r1"),
        variant("Arial", 400, "normal", "a1"),
        variant("Roboto", 400, "italic", "r2"),
        variant("Roboto", 400, "normal", "r3"),
        variant("Arial", 400, "normal", "a2"),
    ];
    let r = group_families(input);
    assert_eq!(r.total_families, 2);
    assert_eq!(r.total_variants, 5);
    assert_eq!(r.families[0].family, "Arial");
    assert_eq!(r.families[1].family, "Roboto");
    let ids: Vec<&str> = r.families[0].variants.iter().map(|v| v.id.as_str()).collect();
    assert_eq!(ids, vec!["a1", "a2"]);
    let ids: Vec<&str> = r.families[1].variants.iter().map(|v| v.id.as_str()).collect();
    assert_eq!(ids, vec!["r2", "r3", "r1"]);
}

#[test]
fn no_variants_give_no_families() {
    let r = group_families(vec![]);
    assert_eq!(r.total_families, 0);
    assert_eq!(r.total_variants, 0);
}

/// A file system and registry in memory, driven through the install machine.
struct World {
    files: HashMap<String, Vec<u8>>,
    registry: HashMap<String, String>,
    copies: usize,
    copy_failures: usize,
}

fn dest_of(path: &str) -> String {
    let name = path.rsplit(['/', '\\']).next().unwrap();
    format!("{}\\{}", USER_DIR, name)
}

fn install(world: &mut World, paths: &[&str], family: &str) -> InstallResult {
    let mut result = InstallResult::new();
    for p in paths {
        let dest = dest_of(p);
        let mut job = PathInstall::new(p.to_string());
        let mut action = job.on_source_checked(world.files.contains_key(*p));
        loop {
            action = match action {
                InstallAction::Probe => job.on_probed(Ok(vec![Some(family.to_string())])),
                InstallAction::CheckDestination => {
                    let identical = match world.files.get(&dest) {
                        Some(d) => files_identical(&world.files[*p], d),
                        None => false,
                    };
                    job.on_destination_checked(identical)
                }
                InstallAction::Copy { .. } => {
                    if world.copy_failures > 0 {
                        world.copy_failures -= 1;
                        job.on_copy_attempted(Err("locked".to_string()))
                    } else {
                        let data = world.files[*p].clone();
                        world.files.insert(dest.clone(), data);
                        world.copies += 1;
                        job.on_copy_attempted(Ok(()))
                    }
                }
                InstallAction::Register => {
                    world.registry.insert(job.registry_name.clone(), dest.clone());
                    job.on_registered(Ok(()))
                }
                InstallAction::Fail { remove_copy } => {
                    if remove_copy {
                        world.files.remove(&dest);
                    }
                    result.record_failure(job.error.clone());
                    break;
                }
                InstallAction::Succeed => {
                    result.record_success();
                    break;
                }
            };
        }
        assert_eq!(job.phase, InstallPhase::Finished);
    }
    result
}

fn world_with(path: &str) -> World {
    let mut files = HashMap::new();
    files.insert(path.to_string(), vec![1, 2, 3]);
    World { files, registry: HashMap::new(), copies: 0, copy_failures: 0 }
}

#[test]
fn reinstalling_an_identical_file_skips_the_copy() {
    let mut w = world_with("/fonts/Foo-Bold.ttf");
    let r1 = install(&mut w, &["/fonts/Foo-Bold.ttf"], "Foo");
    assert_eq!(w.copies, 1);
    w.registry.clear();
    let r2 = install(&mut w, &["/fonts/Foo-Bold.ttf"], "Foo");
    assert_eq!(w.copies, 1);
    assert_eq!(r1.success_count, 1);
    assert_eq!(r2.success_count, 1);
    assert_eq!(w.registry.get("Foo (TrueType)"), Some(&dest_of("/fonts/Foo-Bold.ttf")));
}

#[test]
fn unsupported_file_type_fails_without_side_effects() {
    let mut w = world_with("/fonts/readme.txt");
    let r = install(&mut w, &["/fonts/readme.txt"], "Foo");
    assert_eq!(r.success_count, 0);
    assert_eq!(r.failed_count, 1);
    assert_eq!(r.errors.len(), 1);
    assert!(r.errors[0].contains("Unsupported file type"));
    assert_eq!(w.files.len(), 1);
    assert!(w.registry.is_empty());
    assert_eq!(w.copies, 0);
}

#[test]
fn missing_file_and_batch_order_are_reported() {
    let mut w = world_with("/fonts/A.ttf");
    let r = install(&mut w, &["/fonts/missing.ttf", "/fonts/A.ttf", "/fonts/x.txt"], "A");
    assert_eq!(r.success_count, 1);
    assert_eq!(r.failed_count, 2);
    assert_eq!(r.errors, vec!["File not found: /fonts/missing.ttf".to_string(), "File not found: /fonts/x.txt".to_string()]);
}

#[test]
fn copy_is_retried_three_times() {
    let mut w = world_with("/fonts/A.ttf");
    w.copy_failures = 2;
    let r = install(&mut w, &["/fonts/A.ttf"], "A");
    assert_eq!(r.success_count, 1);
    let mut w = world_with("/fonts/A.ttf");
    w.copy_failures = 3;
    let r = install(&mut w, &["/fonts/A.ttf"], "A");
    assert_eq!(r.failed_count, 1);
    assert_eq!(r.errors, vec!["Failed to copy file /fonts/A.ttf: locked".to_string()]);
}

#[test]
fn failed_registration_removes_only_a_fresh_copy() {
    let mut job = PathInstall::new("/f/A.ttf".to_string());
    assert_eq!(job.on_source_checked(true), InstallAction::Probe);
    assert_eq!(job.on_probed(Ok(vec![None])), InstallAction::CheckDestination);
    assert_eq!(job.registry_name, "Unknown (TrueType)");
    assert_eq!(job.on_destination_checked(false), InstallAction::Copy { wait_first: false });
    assert_eq!(job.on_copy_attempted(Ok(())), InstallAction::Register);
    assert_eq!(job.on_registered(Err("denied".to_string())), InstallAction::Fail { remove_copy: true });
    assert_eq!(job.error, "Failed to register font /f/A.ttf: denied");

    let mut job = PathInstall::new("/f/A.ttf".to_string());
    job.on_source_checked(true);
    job.on_probed(Ok(vec![Some("A".to_string())]));
    assert_eq!(job.on_destination_checked(true), InstallAction::Register);
    assert_eq!(job.on_registered(Err("denied".to_string())), InstallAction::Fail { remove_copy: false });
}

#[test]
fn probe_failures_are_typed() {
    let mut job = PathInstall::new("/f/A.ttf".to_string());
    job.on_source_checked(true);
    assert_eq!(job.on_probed(Err("bad table".to_string())), InstallAction::Fail { remove_copy: false });
    assert_eq!(job.error, "Failed to parse font file /f/A.ttf: bad table");
    let mut job = PathInstall::new("/f/A.ttf".to_string());
    job.on_source_checked(true);
    job.on_probed(Ok(vec![]));
    assert_eq!(job.error, "No font faces found in file: /f/A.ttf");
}

#[test]
fn batch_failure_counts_every_path() {
    let r = InstallResult::batch_failed(3, "Could not determine LOCALAPPDATA directory".to_string());
    assert_eq!(r.failed_count, 3);
    assert_eq!(r.success_count, 0);
    assert_eq!(r.errors.len(), 1);
    assert_eq!(registry_name("Arial"), "Arial (TrueType)");
}

fn uninstall(world: &mut World, path: &str) -> (bool, String) {
    if let Some(r) = check_uninstall(path, SYSTEM_DIR, world.files.contains_key(path)) {
        return (r.success, r.message);
    }
    let values: Vec<RegistryValue> = world
        .registry
        .iter()
        .map(|(k, v)| RegistryValue { name: k.clone(), data: v.clone() })
        .collect();
    let names = matching_names(&values, path);
    for n in &names {
        world.registry.remove(n);
    }
    if let Some(r) = after_registry_removal(path, USER_DIR, Ok(!names.is_empty())) {
        return (r.success, r.message);
    }
    let deleted = world.files.remove(path).map(|_| ()).ok_or("gone".to_string());
    let r = after_delete(deleted);
    (r.success, r.message)
}

#[test]
fn system_fonts_are_never_uninstalled() {
    let mut w = world_with("C:\\Windows\\Fonts\\arial.ttf");
    w.registry.insert("Arial (TrueType)".to_string(), "C:\\Windows\\Fonts\\arial.ttf".to_string());
    let (ok, msg) = uninstall(&mut w, "C:\\Windows\\Fonts\\arial.ttf");
    assert!(!ok);
    assert_eq!(msg, "Cannot uninstall system core fonts.");
    assert_eq!(w.registry.len(), 1);
    let (ok, _) = uninstall(&mut World { files: HashMap::new(), registry: HashMap::new(), copies: 0, copy_failures: 0 }, "C:\\Windows\\Fonts\\gone.ttf");
    assert!(!ok);
}

#[test]
fn unregistered_file_outside_user_directory_is_kept() {
    let mut w = world_with("D:\\other\\a.ttf");
    let (ok, msg) = uninstall(&mut w, "D:\\other\\a.ttf");
    assert!(!ok);
    assert_eq!(msg, "Registry entry not found and file is not in user fonts directory.");
    assert!(w.files.contains_key("D:\\other\\a.ttf"));
}

#[test]
fn install_then_uninstall_round_trip() {
    let mut w = world_with("/fonts/Foo-Bold.ttf");
    let r = install(&mut w, &["/fonts/Foo-Bold.ttf"], "Foo");
    assert_eq!(r.success_count, 1);
    let dest = dest_of("/fonts/Foo-Bold.ttf");
    assert_eq!(w.registry.get("Foo (TrueType)"), Some(&dest));
    let (ok, msg) = uninstall(&mut w, &dest);
    assert!(ok, "{}", msg);
    assert_eq!(msg, "Font uninstalled successfully.");
    assert!(w.registry.is_empty());
    assert!(!w.files.contains_key(&dest));
}

#[test]
fn registry_matching_ignores_case_and_keeps_order() {
    let values = vec![
        RegistryValue { name: "A".to_string(), data: "C:\\Fonts\\A.TTF".to_string() },
        RegistryValue { name: "B".to_string(), data: "C:\\Fonts\\b.ttf".to_string() },
        RegistryValue { name: "C".to_string(), data: "c:\\fonts\\a.ttf".to_string() },
    ];
    assert_eq!(matching_names(&values, "c:\\FONTS\\a.ttf"), vec!["A".to_string(), "C".to_string()]);
    assert!(matching_names(&values, "C:\\Fonts\\z.ttf").is_empty());
}

#[test]
fn uninstall_errors_carry_their_cause() {
    let r = after_registry_removal("x", USER_DIR, Err("denied".to_string())).unwrap();
    assert!(!r.success);
    assert_eq!(r.message, "Failed to access registry: denied");
    let r = after_delete(Err("busy".to_string()));
    assert!(!r.success);
    assert_eq!(r.message, "Failed to delete file: busy. You might need to close applications using this font.");
    let r = check_uninstall("D:\\a.ttf", SYSTEM_DIR, false).unwrap();
    assert_eq!(r.message, "Font file not found.");
    assert!(after_registry_removal("D:\\a.ttf", USER_DIR, Ok(true)).is_none());
}

#[test]
fn preview_checks_and_encoding() {
    assert_eq!(check_preview_type("/f/a.txt"), Err("Unsupported file type".to_string()));
    assert!(check_preview_type("/f/a.OTF").is_ok());
    assert!(check_preview_location("C:\\Windows\\Fonts\\a.ttf", SYSTEM_DIR, USER_DIR).is_ok());
    assert!(check_preview_location(&format!("{}\\a.ttf", USER_DIR), SYSTEM_DIR, USER_DIR).is_ok());
    assert_eq!(
        check_preview_location("D:\\a.ttf", SYSTEM_DIR, USER_DIR),
        Err("Font path is not in an allowed directory".to_string())
    );
    assert!(check_preview_size(25 * 1024 * 1024).is_ok());
    assert_eq!(check_preview_size(25 * 1024 * 1024 + 1), Err("Font file too large".to_string()));
    assert_eq!(preview_mime("/f/a.OtF"), "font/otf");
    assert_eq!(preview_mime("/f/a.ttf"), "font/ttf");
    let p = encode_preview("/f/a.otf", b"abcd").unwrap();
    assert_eq!(p.base64, "YWJjZA==");
    assert_eq!(p.mime, "font/otf");
}
