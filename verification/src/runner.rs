//! The process locator and runner policies: the ordered candidate paths
//! for the engine binary, the first-existing decision, the derived
//! argument list of a request, and the small decision functions around
//! the host shell's dialogs.

use vstd::prelude::*;
use vstd::string::*;
use crate::lines::{join_with, join_from, line_views, lemma_join_push};
use crate::model::AnalysisRequest;

verus! {

/// The argument list derived from a request: a single `--analyzers` flag
/// with the comma-joined scan types when any are given, then the targets;
/// the targets are the individual files when present and non-empty (one
/// argument per file, input order kept), otherwise the project path.
pub open spec fn derived_args_spec(req: AnalysisRequest) -> Seq<Seq<char>> {
    let targets = if req.files is Some && req.files->0@.len() > 0 {
        line_views(req.files->0@)
    } else {
        seq![req.project_path@]
    };
    if req.scan_types@.len() > 0 {
        seq!["--analyzers"@, join_with(line_views(req.scan_types@), ","@)] + targets
    } else {
        targets
    }
}

/// Derives the engine's argument list from a request.
pub fn derive_args(req: &AnalysisRequest) -> (r: Vec<String>)
    ensures
        line_views(r@) == derived_args_spec(*req),
{
    let ghost flags_part: Seq<Seq<char>> = if req.scan_types@.len() > 0 {
        seq!["--analyzers"@, join_with(line_views(req.scan_types@), ","@)]
    } else {
        Seq::empty()
    };
    let mut args: Vec<String> = Vec::new();
    if req.scan_types.len() > 0 {
        args.push("--analyzers".to_owned());
        let joined = join_from(&req.scan_types, 0, ",");
        proof {
            assert(line_views(req.scan_types@).skip(0) =~= line_views(req.scan_types@));
        }
        args.push(joined);
    }
    proof {
        assert(line_views(args@) =~= flags_part);
    }
    let use_files = match &req.files {
        Some(fs) => fs.len() > 0,
        None => false,
    };
    if use_files {
        match &req.files {
            Some(fs) => {
                let mut i: usize = 0;
                while i < fs.len()
                    invariant
                        i <= fs@.len(),
                        line_views(args@) == flags_part + line_views(fs@).take(i as int),
                    decreases fs@.len() - i,
                {
                    let ghost old_args = args@;
                    args.push(fs[i].clone());
                    proof {
                        let av = line_views(args@);
                        let target = flags_part + line_views(fs@).take(i + 1);
                        assert(av.len() == args@.len());
                        assert(args@.len() == old_args.len() + 1);
                        assert(line_views(old_args).len() == old_args.len());
                        assert(line_views(fs@).take(i as int).len() == i as int);
                        assert(old_args.len() == flags_part.len() + i);
                        assert(av.len() == target.len());
                        assert forall|k: int| 0 <= k < av.len() implies av[k] == target[k] by {
                            assert(av[k] == args@[k]@);
                            if k < old_args.len() {
                                assert(args@[k] == old_args[k]);
                                assert(line_views(old_args)[k] == old_args[k]@);
                                assert(target[k] == (flags_part + line_views(fs@).take(i as int))[k]);
                            } else {
                                assert(args@[k]@ == fs@[i as int]@);
                                assert(target[k] == line_views(fs@).take(i + 1)[i as int]);
                            }
                        }
                        assert(av =~= target);
                    }
                    i += 1;
                }
                proof {
                    assert(line_views(fs@).take(fs@.len() as int) =~= line_views(fs@));
                    assert(line_views(args@) =~= derived_args_spec(*req));
                }
            },
            None => {
                proof {
                    assert(false);
                }
            },
        }
    } else {
        args.push(req.project_path.clone());
        proof {
            assert(line_views(args@) =~= flags_part + seq![req.project_path@]);
            assert(line_views(args@) =~= derived_args_spec(*req));
        }
    }
    args
}

/// A directory and a file name joined with a forward slash; an empty
/// directory yields the bare name (a join against an empty path).
pub open spec fn path_join_spec(dir: Seq<char>, name: Seq<char>) -> Seq<char> {
    if dir.len() == 0 {
        name
    } else {
        dir + "/"@ + name
    }
}

/// Joins a directory and a file name.
pub fn path_join(dir: &str, name: &str) -> (r: String)
    ensures
        r@ == path_join_spec(dir@, name@),
{
    if dir.unicode_len() == 0 {
        name.to_owned()
    } else {
        let mut s = dir.to_owned();
        s.append("/");
        s.append(name);
        s
    }
}

/// The ordered candidate locations of the bundled engine binary, most
/// specific first: the resource directory root, its platform-specific
/// name, its `binaries` subdirectory, then the app-data directories.
pub open spec fn bundled_candidates_spec(
    resource_dir: Seq<char>,
    app_local_data_dir: Seq<char>,
    app_data_dir: Seq<char>,
) -> Seq<Seq<char>> {
    seq![
        path_join_spec(resource_dir, "analysis-engine.exe"@),
        path_join_spec(resource_dir, "analysis-engine.exe-x86_64-pc-windows-msvc.exe"@),
        path_join_spec(path_join_spec(resource_dir, "binaries"@), "analysis-engine.exe"@),
        path_join_spec(app_local_data_dir, "analysis-engine.exe"@),
        path_join_spec(app_data_dir, "analysis-engine.exe"@),
    ]
}

/// Builds the ordered bundled-binary candidate paths.
pub fn bundled_candidate_paths(
    resource_dir: &str,
    app_local_data_dir: &str,
    app_data_dir: &str,
) -> (r: Vec<String>)
    ensures
        line_views(r@) == bundled_candidates_spec(resource_dir@, app_local_data_dir@, app_data_dir@),
{
    let mut r: Vec<String> = Vec::new();
    r.push(path_join(resource_dir, "analysis-engine.exe"));
    r.push(path_join(resource_dir, "analysis-engine.exe-x86_64-pc-windows-msvc.exe"));
    let binaries = path_join(resource_dir, "binaries");
    r.push(path_join(binaries.as_str(), "analysis-engine.exe"));
    r.push(path_join(app_local_data_dir, "analysis-engine.exe"));
    r.push(path_join(app_data_dir, "analysis-engine.exe"));
    proof {
        assert(line_views(r@) =~= bundled_candidates_spec(
            resource_dir@,
            app_local_data_dir@,
            app_data_dir@,
        ));
    }
    r
}

/// The ordered development-time and working-directory candidate paths
/// tried when no bundled binary exists.
pub open spec fn dev_candidates_spec() -> Seq<Seq<char>> {
    seq![
        "../../analysis-engine/scanner.exe"@,
        "../../../analysis-engine/scanner.exe"@,
        "../../analysis-engine/analysis-engine.exe"@,
        "scanner.exe"@,
        "analysis-engine.exe"@,
        "binaries/analysis-engine.exe"@,
        "src-tauri/binaries/analysis-engine.exe"@,
        "./analysis-engine.exe"@,
        "../analysis-engine.exe"@,
    ]
}

/// Builds the ordered development-time candidate paths.
pub fn dev_candidate_paths() -> (r: Vec<String>)
    ensures
        line_views(r@) == dev_candidates_spec(),
{
    let mut r: Vec<String> = Vec::new();
    r.push("../../analysis-engine/scanner.exe".to_owned());
    r.push("../../../analysis-engine/scanner.exe".to_owned());
    r.push("../../analysis-engine/analysis-engine.exe".to_owned());
    r.push("scanner.exe".to_owned());
    r.push("analysis-engine.exe".to_owned());
    r.push("binaries/analysis-engine.exe".to_owned());
    r.push("src-tauri/binaries/analysis-engine.exe".to_owned());
    r.push("./analysis-engine.exe".to_owned());
    r.push("../analysis-engine.exe".to_owned());
    proof {
        assert(line_views(r@) =~= dev_candidates_spec());
    }
    r
}

/// Picks the first candidate that exists: given one existence flag per
/// candidate, returns the least index whose flag is set, or `None` when
/// none is.  Order is the locator's policy: earlier candidates win.
pub fn first_existing(exists_flags: &Vec<bool>) -> (r: Option<usize>)
    ensures
        match r {
            Some(p) => {
                &&& (p as int) < exists_flags@.len()
                &&& exists_flags@[p as int]
                &&& forall|j: int| 0 <= j < p ==> !exists_flags@[j]
            },
            None => forall|j: int| 0 <= j < exists_flags@.len() ==> !exists_flags@[j],
        },
{
    let mut i: usize = 0;
    while i < exists_flags.len()
        invariant
            i <= exists_flags@.len(),
            forall|j: int| 0 <= j < i ==> !exists_flags@[j],
        decreases exists_flags@.len() - i,
    {
        if exists_flags[i] {
            return Some(i);
        }
        i += 1;
    }
    None
}

/// The locator's diagnostic message: every candidate path that was tried,
/// one per line, each quoted.
pub open spec fn not_found_message_spec(paths: Seq<Seq<char>>) -> Seq<char> {
    "Analysis engine binary not found. Searched paths:\n"@ + join_with(
        paths.map_values(|p: Seq<char>| "  - \""@ + p + "\""@),
        "\n"@,
    )
}

/// Builds the locator's "not found" diagnostic listing all candidates.
pub fn not_found_message(paths: &Vec<String>) -> (r: String)
    ensures
        r@ == not_found_message_spec(line_views(paths@)),
{
    let ghost decorated = line_views(paths@).map_values(|p: Seq<char>| "  - \""@ + p + "\""@);
    let mut r = "Analysis engine binary not found. Searched paths:\n".to_owned();
    let mut i: usize = 0;
    proof {
        assert(decorated.take(0) =~= Seq::<Seq<char>>::empty());
    }
    while i < paths.len()
        invariant
            i <= paths@.len(),
            decorated == line_views(paths@).map_values(|p: Seq<char>| "  - \""@ + p + "\""@),
            r@ == "Analysis engine binary not found. Searched paths:\n"@ + join_with(
                decorated.take(i as int),
                "\n"@,
            ),
        decreases paths@.len() - i,
    {
        if i > 0 {
            r.append("\n");
        }
        r.append("  - \"");
        r.append(paths[i].as_str());
        r.append("\"");
        proof {
            let pre = decorated.take(i as int);
            assert(decorated.take(i + 1) =~= pre.push(decorated[i as int]));
            lemma_join_push(pre, "\n"@, decorated[i as int]);
            assert(decorated[i as int] == "  - \""@ + paths@[i as int]@ + "\""@);
            assert(r@ =~= "Analysis engine binary not found. Searched paths:\n"@ + join_with(
                decorated.take(i + 1),
                "\n"@,
            ));
        }
        i += 1;
    }
    proof {
        assert(decorated.take(paths@.len() as int) =~= decorated);
    }
    r
}

/// The outcome of a folder-picker dialog: the chosen path, or the
/// "no folder selected" error when the dialog was dismissed.
pub fn folder_selection_outcome(selection: Option<String>) -> (r: Result<String, String>)
    ensures
        match selection {
            Some(p) => r == Result::<String, String>::Ok(p),
            None => r is Err && r->Err_0@ == "No folder selected"@,
        },
{
    match selection {
        Some(p) => Ok(p),
        None => Err("No folder selected".to_owned()),
    }
}

/// The outcome of a file-picker dialog: the chosen paths, or the
/// "no files selected" error when the dialog was dismissed.
pub fn files_selection_outcome(selection: Option<Vec<String>>) -> (r: Result<
    Vec<String>,
    String,
>)
    ensures
        match selection {
            Some(ps) => r == Result::<Vec<String>, String>::Ok(ps),
            None => r is Err && r->Err_0@ == "No files selected"@,
        },
{
    match selection {
        Some(ps) => Ok(ps),
        None => Err("No files selected".to_owned()),
    }
}

/// The greeting of the host shell's smoke-test command.
pub fn greet(name: &str) -> (r: String)
    ensures
        r@ == "Hello, "@ + name@ + "! You've been greeted from Rust!"@,
{
    let mut r = "Hello, ".to_owned();
    r.append(name);
    r.append("! You've been greeted from Rust!");
    r
}

/// Builds the fixed request of an accessibility-only analysis of a
/// project folder.
pub fn accessibility_request(project_path: String) -> (r: AnalysisRequest)
    ensures
        r.project_path == project_path,
        line_views(r.scan_types@) == seq!["accessibility"@],
        r.files is None,
{
    let mut scan_types: Vec<String> = Vec::new();
    scan_types.push("accessibility".to_owned());
    proof {
        assert(line_views(scan_types@) =~= seq!["accessibility"@]);
    }
    AnalysisRequest { project_path, scan_types, files: None }
}

} // verus!
