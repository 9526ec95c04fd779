use canvas_lms_sync::File;
use canvas_lms_sync::canvas_api::files::{FileResp, FolderResp};
use canvas_lms_sync::canvas_api::modules::ModuleItemResp;
use canvas_lms_sync::path::{desktop_link_contents, sanitize_file_name, url_shortcut_contents};
use canvas_lms_sync::sync::{
    IndentStack, ModuleItemAction, SyncConfig, folder_map_from_list, module_item_step,
    plan_download, resolve_course_file, resolve_file_url, resolve_module_file,
};

fn folder(id: i64, name: &str, parent: Option<i64>) -> FolderResp {
    FolderResp { id, name: name.to_string(), parent_folder_id: parent }
}

fn file_resp(id: i64, name: &str, folder_id: i64, size: i64, url: &str) -> FileResp {
    FileResp {
        id,
        uuid: format!("uuid{}", id),
        folder_id,
        display_name: name.to_string(),
        url: url.to_string(),
        size,
        created_at: "2020-01-01T00:00:00Z".to_string(),
        updated_at: "2020-01-02T00:00:00Z".to_string(),
        modified_at: "2020-01-03T00:00:00Z".to_string(),
    }
}

fn item(type_: &str, title: &str, indent: i64, content_id: Option<i64>, url: Option<&str>) -> ModuleItemResp {
    ModuleItemResp {
        id: 1,
        module_id: 2,
        position: 3,
        title: title.to_string(),
        indent,
        type_: type_.to_string(),
        content_id,
        url: url.map(|u| u.to_string()),
    }
}

#[test]
fn sanitize_replaces_reserved_characters() {
    assert_eq!(sanitize_file_name("a/b\\c:d*e?f\"g<h>i|j"), "a_b_c_d_e_f_g_h_i_j");
    assert_eq!(sanitize_file_name("plain name.pdf"), "plain name.pdf");
    assert_eq!(sanitize_file_name(""), "");
    assert_eq!(sanitize_file_name("report:final.pdf"), "report_final.pdf");
}

#[test]
fn nesting_stack_prunes_on_add() {
    let mut stack = IndentStack::new();
    stack.add(1, "A".to_string());
    assert_eq!(stack.get(), vec!["A"]);
    stack.add(2, "B".to_string());
    assert_eq!(stack.get(), vec!["A", "B"]);
    stack.add(2, "C".to_string());
    assert_eq!(stack.get(), vec!["A", "C"]);
    stack.add(1, "D".to_string());
    assert_eq!(stack.get(), vec!["D"]);
}

#[test]
fn path_resolution_through_folder_chain() {
    let folders = folder_map_from_list(vec![
        folder(1, "F1", None),
        folder(2, "F2", Some(1)),
        folder(3, "F3", Some(2)),
    ]);
    let f = resolve_course_file(
        file_resp(10, "report:final.pdf", 3, 100, "https://h/direct"),
        &folders,
        "https://h",
    );
    assert_eq!(f.local_path(), vec!["F1", "F2", "F3", "report_final.pdf"]);
}

#[test]
fn missing_folder_gives_incomplete_prefix() {
    let folders = folder_map_from_list(vec![folder(2, "F2", Some(9))]);
    let f = resolve_course_file(
        file_resp(10, "a.txt", 2, 1, "https://h/direct"),
        &folders,
        "https://h",
    );
    // folder 9 was never listed: the chain stops there instead of failing
    assert_eq!(f.local_path(), vec!["F2", "a.txt"]);
}

#[test]
fn folder_cycle_terminates() {
    let folders = folder_map_from_list(vec![folder(1, "A", Some(2)), folder(2, "B", Some(1))]);
    let f = resolve_course_file(
        file_resp(10, "x", 1, 1, "https://h/direct"),
        &folders,
        "https://h",
    );
    // inconsistent remote data: the walk is cut off, not looped forever
    assert_eq!(f.local_path(), vec!["B", "A", "x"]);
}

#[test]
fn url_synthesis_when_record_has_none() {
    let r = file_resp(77, "x", 1, 1, "");
    assert_eq!(
        resolve_file_url(&r, "https://h/"),
        "https://h/files/77/download?download_frd=1&verifier=uuid77"
    );
    let r = file_resp(77, "x", 1, 1, "https://h/direct");
    assert_eq!(resolve_file_url(&r, "https://h/"), "https://h/direct");
}

#[test]
fn skip_rule_matches_on_size_alone() {
    let folders = folder_map_from_list(vec![]);
    let f = resolve_course_file(file_resp(1, "a", 0, 100, "https://h/d"), &folders, "https://h");
    assert!(f.local_file_matches(Some(100)));
    assert!(!f.local_file_matches(Some(99)));
    assert!(!f.local_file_matches(None));
    assert!(plan_download(&f, Some(100)).is_none());
    let t = plan_download(&f, None).expect("a missing local file is downloaded");
    assert_eq!(t.url, "https://h/d");
    assert_eq!(t.path, vec!["a"]);
}

#[test]
fn negative_remote_size_never_matches() {
    let folders = folder_map_from_list(vec![]);
    let f = resolve_course_file(file_resp(1, "a", 0, -5, "https://h/d"), &folders, "https://h");
    assert!(!f.local_file_matches(Some(0)));
    assert!(plan_download(&f, Some(0)).is_some());
}

#[test]
fn flat_sync_second_run_submits_nothing() {
    let folders = folder_map_from_list(vec![folder(1, "F1", None)]);
    let listing = vec![
        file_resp(1, "a.txt", 1, 10, "https://h/a"),
        file_resp(2, "b.txt", 1, 20, "https://h/b"),
    ];
    // first run: nothing on disk, both files are planned
    let mut disk: Vec<(Vec<String>, u64)> = Vec::new();
    let mut first_run = 0;
    for r in &listing {
        let f = resolve_course_file(r.clone(), &folders, "https://h");
        let local = disk.iter().find(|(p, _)| *p == f.local_path()).map(|(_, n)| *n);
        if let Some(t) = plan_download(&f, local) {
            // a completed download leaves a file of exactly the remote size
            disk.push((t.path.clone(), f.size as u64));
            first_run += 1;
        }
    }
    assert_eq!(first_run, 2);
    // second run against the unchanged remote: everything matches
    let mut second_run = 0;
    for r in &listing {
        let f = resolve_course_file(r.clone(), &folders, "https://h");
        let local = disk.iter().find(|(p, _)| *p == f.local_path()).map(|(_, n)| *n);
        if plan_download(&f, local).is_some() {
            second_run += 1;
        }
    }
    assert_eq!(second_run, 0);
}

#[test]
fn module_items_drive_stack_and_actions() {
    let config = SyncConfig { courseid: 7, path: vec!["root".to_string()] };
    let mut stack = IndentStack::new();

    let a = module_item_step(&mut stack, &item("SubHeader", "Week 1", 1, None, None), "M", &config);
    assert!(matches!(a, ModuleItemAction::Heading));
    assert_eq!(stack.get(), vec!["Week 1"]);

    let a = module_item_step(&mut stack, &item("File", "f", 2, Some(42), None), "M", &config);
    assert!(matches!(a, ModuleItemAction::FetchFile(42)));
    assert_eq!(stack.get(), vec!["Week 1"]);

    let a = module_item_step(&mut stack, &item("File", "f", 2, None, None), "M", &config);
    assert!(matches!(a, ModuleItemAction::Malformed));

    let a = module_item_step(
        &mut stack,
        &item("ExternalUrl", "Site:1", 2, None, Some("https://elsewhere")),
        "M:x",
        &config,
    );
    match a {
        ModuleItemAction::WriteLink(url, title, path) => {
            assert_eq!(url, "https://elsewhere");
            assert_eq!(title, "Site:1");
            assert_eq!(path, vec!["root", "Modules", "M_x", "Site_1"]);
        }
        other => panic!("expected a link, got {:?}", other),
    }

    let a = module_item_step(&mut stack, &item("ExternalTool", "T", 2, None, None), "M", &config);
    assert!(matches!(a, ModuleItemAction::Ignore));

    let a = module_item_step(&mut stack, &item("Discussion", "D", 2, None, None), "M", &config);
    assert!(matches!(a, ModuleItemAction::Ignore));
}

#[test]
fn module_file_path_uses_stack_segments() {
    let mut stack = IndentStack::new();
    stack.add(1, "Week 1".to_string());
    stack.add(2, "Reading".to_string());
    let f = resolve_module_file(
        file_resp(5, "notes?.pdf", 0, 9, ""),
        "My Module",
        &stack,
        "https://h",
    );
    assert_eq!(
        f.local_path(),
        vec!["Modules", "My Module", "Week 1", "Reading", "notes_.pdf"]
    );
    assert_eq!(f.url, "https://h/files/5/download?download_frd=1&verifier=uuid5");
    let mut file = File::from_resp(file_resp(5, "plain", 0, 9, "https://h/u"));
    file.folder_path = vec!["A".to_string()];
    let t = file.into_task();
    assert_eq!(t.url, "https://h/u");
    assert_eq!(t.path, vec!["A", "plain"]);
}

#[test]
fn shortcut_file_contents() {
    assert_eq!(
        url_shortcut_contents("https://e/x"),
        "[InternetShortcut]\nURL=https://e/x\n"
    );
    assert_eq!(
        desktop_link_contents("root/Modules/M/T", "https://e/x"),
        "[Desktop Entry]\nEncoding=UTF-8\nName=root/Modules/M/T\nType=Link\nURL=https://e/x\nIcon=text-html\n"
    );
}
