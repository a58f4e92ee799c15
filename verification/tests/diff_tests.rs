use ghzinga::domain::{ChangedFile, ResourceId};
use ghzinga::github::diff::{parse_diff_header_path, parse_unified_diff_patches, pr_diff_command};
use ghzinga::github::gh_cli::apply_file_patches;

fn patch_for<'a>(patches: &'a [(String, String)], path: &str) -> &'a str {
    patches
        .iter()
        .rev()
        .find(|(p, _)| p == path)
        .map(|(_, body)| body.as_str())
        .expect("patch")
}

#[test]
fn parses_unified_diff_patches_by_file_path() {
    let patches = parse_unified_diff_patches(
        "From abc\n\
diff --git a/src/one.rs b/src/one.rs\n\
index 111..222 100644\n\
--- a/src/one.rs\n\
+++ b/src/one.rs\n\
@@ -1 +1 @@\n\
-old\n\
+new\n\
diff --git a/docs/two.md b/docs/two.md\n\
@@ -2 +2 @@\n\
+line\n",
    );

    assert!(patch_for(&patches, "src/one.rs").contains("+new"));
    assert!(patch_for(&patches, "docs/two.md").contains("+line"));
}

#[test]
fn diff_sections_keep_header_and_lines_in_order() {
    let patches = parse_unified_diff_patches(
        "preamble\ndiff --git a/x b/y\n@@ -1 +1 @@\r\n+z\ndiff --git a/q b/q\n",
    );
    assert_eq!(
        patches,
        vec![
            ("y".to_string(), "diff --git a/x b/y\n@@ -1 +1 @@\n+z".to_string()),
            ("q".to_string(), "diff --git a/q b/q".to_string()),
        ]
    );
    assert!(parse_unified_diff_patches("no header\n+line\n").is_empty());
}

#[test]
fn diff_header_path_reads_the_new_side() {
    assert_eq!(parse_diff_header_path("diff --git a/old b/new").as_deref(), Some("new"));
    assert_eq!(parse_diff_header_path("diff --git a/old a/kept").as_deref(), Some("kept"));
    assert_eq!(parse_diff_header_path("diff --git a/old c/x"), None);
    assert_eq!(parse_diff_header_path("diff --git nospace"), None);
    assert_eq!(parse_diff_header_path("index 111..222"), None);
}

#[test]
fn parsed_patches_apply_to_changed_files() {
    let mut files = vec![ChangedFile {
        path: "src/one.rs".into(),
        additions: 1,
        deletions: 1,
        change_type: "MODIFIED".into(),
        patch: None,
    }];
    let patches = parse_unified_diff_patches("diff --git a/src/one.rs b/src/one.rs\n+new\n");
    apply_file_patches(&mut files, patches);
    assert_eq!(
        files[0].patch.as_deref(),
        Some("diff --git a/src/one.rs b/src/one.rs\n+new")
    );
}

#[test]
fn pr_diff_command_names_repo_and_number() {
    let id = ResourceId::from_owner_repo_number("openclaw/openclaw", "81834").unwrap();
    assert_eq!(
        pr_diff_command(&id),
        vec!["gh", "pr", "diff", "81834", "-R", "openclaw/openclaw", "--patch"]
    );
}
