use analysis_pipeline::model::AnalysisRequest;
use analysis_pipeline::runner::{
    accessibility_request, bundled_candidate_paths, derive_args, dev_candidate_paths,
    files_selection_outcome, first_existing, folder_selection_outcome, greet, not_found_message,
    path_join,
};

fn request(
    project_path: &str,
    scan_types: &[&str],
    files: Option<&[&str]>,
) -> AnalysisRequest {
    AnalysisRequest {
        project_path: String::from(project_path),
        scan_types: scan_types.iter().map(|s| String::from(*s)).collect(),
        files: files.map(|fs| fs.iter().map(|s| String::from(*s)).collect()),
    }
}

#[test]
fn files_win_over_project_path() {
    let req = request("/p", &["security", "testing"], Some(&["/p/a.go", "/p/b.go"]));
    let args = derive_args(&req);
    assert_eq!(args, vec!["--analyzers", "security,testing", "/p/a.go", "/p/b.go"]);
}

#[test]
fn bare_project_path_without_scan_types() {
    let req = request("/p", &[], None);
    assert_eq!(derive_args(&req), vec!["/p"]);
}

#[test]
fn empty_file_list_falls_back_to_project_path() {
    let req = request("/p", &[], Some(&[]));
    assert_eq!(derive_args(&req), vec!["/p"]);
    let req2 = request("/p", &["security"], Some(&[]));
    assert_eq!(derive_args(&req2), vec!["--analyzers", "security", "/p"]);
}

#[test]
fn scan_types_precede_the_target() {
    let req = request("/p", &["accessibility"], None);
    assert_eq!(derive_args(&req), vec!["--analyzers", "accessibility", "/p"]);
}

#[test]
fn bundled_candidates_are_ordered_most_specific_first() {
    let paths = bundled_candidate_paths("res", "local", "data");
    assert_eq!(
        paths,
        vec![
            "res/analysis-engine.exe",
            "res/analysis-engine.exe-x86_64-pc-windows-msvc.exe",
            "res/binaries/analysis-engine.exe",
            "local/analysis-engine.exe",
            "data/analysis-engine.exe",
        ]
    );
}

#[test]
fn empty_directory_joins_to_the_bare_name() {
    assert_eq!(path_join("", "analysis-engine.exe"), "analysis-engine.exe");
    assert_eq!(path_join("d", "n"), "d/n");
}

#[test]
fn dev_candidates_are_the_fixed_list() {
    let paths = dev_candidate_paths();
    assert_eq!(paths.len(), 9);
    assert_eq!(paths[0], "../../analysis-engine/scanner.exe");
    assert_eq!(paths[8], "../analysis-engine.exe");
}

#[test]
fn first_existing_picks_the_least_index() {
    assert_eq!(first_existing(&vec![false, false, true, true]), Some(2));
    assert_eq!(first_existing(&vec![true]), Some(0));
    assert_eq!(first_existing(&vec![false, false]), None);
    assert_eq!(first_existing(&Vec::new()), None);
}

#[test]
fn not_found_message_lists_all_candidates() {
    let msg = not_found_message(&vec![String::from("a"), String::from("b")]);
    assert_eq!(
        msg,
        "Analysis engine binary not found. Searched paths:\n  - \"a\"\n  - \"b\""
    );
}

#[test]
fn selection_outcomes() {
    assert_eq!(folder_selection_outcome(Some(String::from("/p"))), Ok(String::from("/p")));
    assert_eq!(folder_selection_outcome(None), Err(String::from("No folder selected")));
    assert_eq!(
        files_selection_outcome(Some(vec![String::from("/a")])),
        Ok(vec![String::from("/a")])
    );
    assert_eq!(files_selection_outcome(None), Err(String::from("No files selected")));
}

#[test]
fn greeting_embeds_the_name() {
    assert_eq!(greet("World"), "Hello, World! You've been greeted from Rust!");
}

#[test]
fn accessibility_request_is_folder_based() {
    let req = accessibility_request(String::from("/proj"));
    assert_eq!(req.project_path, "/proj");
    assert_eq!(req.scan_types, vec!["accessibility"]);
    assert!(req.files.is_none());
}
