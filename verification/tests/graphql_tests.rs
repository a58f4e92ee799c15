use ghzinga::domain::{ResourceId, ResourceKind};
use ghzinga::github::dto::{
    ChangedFilesConnection, ChangedFilesData, ChangedFilesPullRequest, ChangedFilesRepository,
    ChangedFilesResponse, FileDto, PageInfoDto,
};
use ghzinga::github::graphql::{
    changed_files_command, changed_files_page, graphql_command, timeline_query, PageStep,
    REVIEW_THREADS_QUERY,
};

fn id() -> ResourceId {
    ResourceId::from_owner_repo_number("openclaw/openclaw", "81834").unwrap()
}

fn page(has_next: bool, cursor: Option<&str>) -> ChangedFilesResponse {
    ChangedFilesResponse {
        data: ChangedFilesData {
            repository: Some(ChangedFilesRepository {
                pull_request: Some(ChangedFilesPullRequest {
                    files: ChangedFilesConnection {
                        page_info: PageInfoDto {
                            has_next_page: has_next,
                            end_cursor: cursor.map(str::to_string),
                        },
                        nodes: vec![FileDto {
                            path: "src/lib.rs".into(),
                            additions: 2,
                            deletions: 1,
                            change_type: Some("MODIFIED".into()),
                        }],
                    },
                }),
            }),
        },
    }
}

#[test]
fn timeline_query_selects_the_resource_kind() {
    let pr = timeline_query(ResourceKind::PullRequest);
    assert!(pr.contains("    pullRequest(number: $number) {"));
    assert!(pr.contains("CROSS_REFERENCED_EVENT"));
    let issue = timeline_query(ResourceKind::Issue);
    assert!(issue.contains("    issue(number: $number) {"));
    assert!(!issue.contains("{{"));
}

#[test]
fn graphql_command_passes_owner_name_number_and_query() {
    let command = graphql_command(&id(), REVIEW_THREADS_QUERY);
    assert_eq!(
        &command[..9],
        &["gh", "api", "graphql", "-f", "owner=openclaw", "-f", "name=openclaw", "-F", "number=81834"]
    );
    assert_eq!(command[9], "-f");
    assert!(command[10].starts_with("query=\nquery("));
    assert_eq!(command.len(), 11);
}

#[test]
fn changed_files_command_starts_from_null_cursor() {
    let first = changed_files_command(&id(), None);
    assert_eq!(&first[9..11], &["-F", "after=null"]);
    let next = changed_files_command(&id(), Some("Y3Vyc29y"));
    assert_eq!(next[10], "after=Y3Vyc29y");
}

#[test]
fn changed_file_pages_say_what_follows() {
    let (files, step) = changed_files_page(page(false, None));
    assert_eq!(files.len(), 1);
    assert_eq!(files[0].change_type, "MODIFIED");
    assert_eq!(step, PageStep::Last);

    let (_, step) = changed_files_page(page(true, Some("abc")));
    assert_eq!(step, PageStep::Next("abc".into()));

    let (_, step) = changed_files_page(page(true, None));
    assert_eq!(step, PageStep::MissingCursor);

    let (files, step) = changed_files_page(ChangedFilesResponse {
        data: ChangedFilesData { repository: None },
    });
    assert!(files.is_empty());
    assert_eq!(step, PageStep::Last);
}
