use laoshi::bundle::{
    bundle_file_name, bundle_to_text, count_uploads, data_dir, data_files_dir, join_path,
    plan_bundle_sync, plan_stale_cleanup, BundleEntry,
};
use laoshi::config::FileBundle;
use laoshi::error::Error;
use laoshi::ids::AssistantId;

fn aid(s: &str) -> AssistantId {
    AssistantId::new(s.to_string())
}

#[test]
fn bundle_name_exact_format() {
    let name = bundle_file_name("laoshi-01", "knowledge", &aid("asst_42"), "md");
    assert_eq!(name, "laoshi-01-knowledge-bundle-asst_42.md");
}

#[test]
fn bundle_name_deterministic_and_sensitive_to_assistant() {
    // Bundle artifact determinism: same inputs, byte-identical name;
    // another assistant reference, another name.
    let a = bundle_file_name("laoshi-01", "knowledge", &aid("asst_42"), "md");
    let b = bundle_file_name("laoshi-01", "knowledge", &aid("asst_42"), "md");
    let c = bundle_file_name("laoshi-01", "knowledge", &aid("asst_43"), "md");
    assert_eq!(a, b);
    assert_ne!(a, c);
}

#[test]
fn bundle_text_exact_output() {
    let entries = vec![BundleEntry {
        path: "files/a.md".to_string(),
        lines: vec!["one".to_string(), "two".to_string()],
    }];
    let text = bundle_to_text(&entries);
    assert_eq!(text, "\n// ==== file path: files/a.md\n\none\ntwo\n\n\n\n");
}

#[test]
fn bundle_text_concatenates_in_order() {
    let entries = vec![
        BundleEntry { path: "a".to_string(), lines: vec!["x".to_string()] },
        BundleEntry { path: "b".to_string(), lines: Vec::new() },
    ];
    let text = bundle_to_text(&entries);
    assert_eq!(
        text,
        "\n// ==== file path: a\n\nx\n\n\n\n\n// ==== file path: b\n\n\n\n\n"
    );
}

#[test]
fn bundle_text_empty() {
    assert_eq!(bundle_to_text(&Vec::new()), "");
}

#[test]
fn cleanup_deletes_only_stale_paths() {
    let candidates = vec![
        "laoshi/.laoshi/files/laoshi-01-knowledge-bundle-asst_old.md".to_string(),
        "laoshi/.laoshi/files/laoshi-01-knowledge-bundle-asst_new.md".to_string(),
    ];
    let plan = plan_stale_cleanup(&candidates, &aid("asst_new")).unwrap();
    assert_eq!(
        plan,
        vec!["laoshi/.laoshi/files/laoshi-01-knowledge-bundle-asst_old.md".to_string()]
    );
}

#[test]
fn cleanup_fails_closed_on_foreign_path() {
    // Path safety: one candidate outside the data directory fails the
    // whole plan; nothing is slated for deletion.
    let candidates = vec![
        "laoshi/.laoshi/files/laoshi-01-knowledge-bundle-asst_old.md".to_string(),
        "src/main.rs".to_string(),
    ];
    match plan_stale_cleanup(&candidates, &aid("asst_new")) {
        Err(Error::ShouldNotDeleteLocalFile(p)) => assert_eq!(p, "src/main.rs"),
        other => panic!("expected ShouldNotDeleteLocalFile, got {:?}", other),
    }
}

#[test]
fn cleanup_keeps_current_artifacts_even_outside_data_dir() {
    // A path stamped with the current assistant is not a deletion
    // candidate, so it does not trip the safety check either.
    let candidates = vec!["elsewhere/laoshi-01-knowledge-bundle-asst_new.md".to_string()];
    let plan = plan_stale_cleanup(&candidates, &aid("asst_new")).unwrap();
    assert!(plan.is_empty());
}

#[test]
fn cleanup_empty_candidates() {
    let plan = plan_stale_cleanup(&Vec::new(), &aid("asst_new")).unwrap();
    assert!(plan.is_empty());
}

#[test]
fn data_dirs_carry_the_stamp() {
    assert_eq!(data_dir("laoshi"), "laoshi/.laoshi");
    assert_eq!(data_files_dir("laoshi"), "laoshi/.laoshi/files");
    let p = join_path(&data_files_dir("laoshi"), "laoshi-01-knowledge-bundle-asst_1.md");
    assert_eq!(p, "laoshi/.laoshi/files/laoshi-01-knowledge-bundle-asst_1.md");
    assert!(p.contains(".laoshi"));
}

#[test]
fn bundle_sync_forces_on_recreate_or_missing_artifact() {
    let bundle = FileBundle {
        bundle_name: "knowledge".to_string(),
        src_dir: "files".to_string(),
        src_globs: vec!["*.md".to_string()],
        dst_ext: "md".to_string(),
    };
    let s = plan_bundle_sync("laoshi-01", &bundle, &aid("asst_1"), false, true);
    assert_eq!(s.artifact_name, "laoshi-01-knowledge-bundle-asst_1.md");
    assert!(!s.force_reupload);
    assert!(plan_bundle_sync("laoshi-01", &bundle, &aid("asst_1"), true, true).force_reupload);
    assert!(plan_bundle_sync("laoshi-01", &bundle, &aid("asst_1"), false, false).force_reupload);
}

#[test]
fn count_uploads_counts_fresh_uploads() {
    assert_eq!(count_uploads(&Vec::new()), 0);
    assert_eq!(count_uploads(&vec![true, false, true, true]), 3);
    assert_eq!(count_uploads(&vec![false, false]), 0);
}
