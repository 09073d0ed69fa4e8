//! Directory names, worker command line, and where a run writes.
use vstd::prelude::*;

verus! {

/// Hidden subdirectory of the output folder that holds a single input file.
pub const STAGING_DIR_NAME: &'static str = "_gui_input";

/// Output folder used, under the project root, when none is given.
pub const DEFAULT_OUTPUT_DIR_NAME: &'static str = "output_gui";

/// Entry script of the worker, under the project root.
pub const WORKER_SCRIPT_NAME: &'static str = "run.py";

/// Subdirectory of the output folder where the worker leaves its result.
pub const FINAL_STAGE_DIR_NAME: &'static str = "final_output";

/// Whether `c` has the Unicode White_Space property.
pub open spec fn is_white_space(c: char) -> bool {
    let u = c as u32;
    (0x09 <= u && u <= 0x0D) || u == 0x20 || u == 0x85 || u == 0xA0 || u == 0x1680
        || (0x2000 <= u && u <= 0x200A) || u == 0x2028 || u == 0x2029 || u == 0x202F
        || u == 0x205F || u == 0x3000
}

/// Relies on char::is_whitespace, which tests the Unicode White_Space property.
pub assume_specification[ char::is_whitespace ](c: char) -> (r: bool)
    ensures
        r == is_white_space(c),
;

/// The parent of a path: the path without its final component, where it
/// has one.
pub uninterp spec fn parent_path_of(p: Seq<char>) -> Option<Seq<char>>;

/// Relies on std::path::Path::parent: the path without its final
/// component, or none for a root, a prefix or the empty path.
#[verifier::external_body]
fn path_parent(p: &str) -> (r: Option<String>)
    ensures
        r is Some == parent_path_of(p@) is Some,
        r matches Some(q) ==> parent_path_of(p@) == Some(q@),
        p@.len() == 0 ==> r is None,
{
    std::path::Path::new(p).parent().map(|q| q.to_string_lossy().into_owned())
}

/// Whether a path is absolute on the build target.
pub uninterp spec fn is_absolute_path(p: Seq<char>) -> bool;

/// Relies on std::path::Path::is_absolute: whether the path stands on its
/// own, independent of the working directory.
#[verifier::external_body]
fn path_is_absolute(p: &str) -> (r: bool)
    ensures
        r == is_absolute_path(p@),
{
    std::path::Path::new(p).is_absolute()
}

/// `rest` appended to `base` as a path.
pub uninterp spec fn joined_path(base: Seq<char>, rest: Seq<char>) -> Seq<char>;

/// Relies on std::path::Path::join: `rest` adjoined to `base` as a path.
#[verifier::external_body]
fn path_join(base: &str, rest: &str) -> (r: String)
    ensures
        r@ == joined_path(base@, rest@),
{
    std::path::Path::new(base).join(rest).to_string_lossy().into_owned()
}

/// The four stage output directories, in pipeline order.
pub open spec fn spec_stage_dir_names() -> Seq<Seq<char>> {
    seq![
        "stage_1_restore_output"@,
        "stage_2_detection_output"@,
        "stage_3_face_output"@,
        "final_output"@,
    ]
}

/// Names of the four stage output directories, in pipeline order; the
/// last one receives the final artifact.
pub fn stage_dir_names() -> (r: Vec<String>)
    ensures
        r@.map_values(|s: String| s@) == spec_stage_dir_names(),
{
    let mut v: Vec<String> = Vec::new();
    v.push(String::from_str("stage_1_restore_output"));
    v.push(String::from_str("stage_2_detection_output"));
    v.push(String::from_str("stage_3_face_output"));
    v.push(String::from_str(FINAL_STAGE_DIR_NAME));
    assert(v@.map_values(|s: String| s@) =~= spec_stage_dir_names());
    v
}

/// The worker's arguments after the interpreter.
pub open spec fn spec_worker_args(
    script: Seq<char>,
    input_folder: Seq<char>,
    output_folder: Seq<char>,
    gpu: Seq<char>,
    with_scratch: bool,
    hr: bool,
) -> Seq<Seq<char>> {
    let base = seq![
        "-u"@,
        script,
        "--input_folder"@,
        input_folder,
        "--output_folder"@,
        output_folder,
        "--GPU"@,
        gpu,
    ];
    let with_s = if with_scratch { base.push("--with_scratch"@) } else { base };
    if hr { with_s.push("--HR"@) } else { with_s }
}

/// Builds the worker's argument list, with each optional flag present
/// exactly when its option is set.
pub fn worker_args(
    script: &str,
    input_folder: &str,
    output_folder: &str,
    gpu: &str,
    with_scratch: bool,
    hr: bool,
) -> (r: Vec<String>)
    ensures
        r@.map_values(|s: String| s@) == spec_worker_args(
            script@,
            input_folder@,
            output_folder@,
            gpu@,
            with_scratch,
            hr,
        ),
{
    let mut v: Vec<String> = Vec::new();
    v.push(String::from_str("-u"));
    v.push(String::from_str(script));
    v.push(String::from_str("--input_folder"));
    v.push(String::from_str(input_folder));
    v.push(String::from_str("--output_folder"));
    v.push(String::from_str(output_folder));
    v.push(String::from_str("--GPU"));
    v.push(String::from_str(gpu));
    let ghost base = v@.map_values(|s: String| s@);
    if with_scratch {
        v.push(String::from_str("--with_scratch"));
    }
    let ghost mid = v@.map_values(|s: String| s@);
    assert(mid =~= if with_scratch { base.push("--with_scratch"@) } else { base });
    if hr {
        v.push(String::from_str("--HR"));
    }
    assert(v@.map_values(|s: String| s@) =~= if hr { mid.push("--HR"@) } else { mid });
    v
}

/// Every character of `s` is white space (so trimming leaves nothing).
pub open spec fn is_blank_seq(s: Seq<char>) -> bool {
    forall|i: int| 0 <= i < s.len() ==> is_white_space(#[trigger] s[i])
}

/// Returns whether `s` is empty once trimmed of white space.
pub fn is_blank(s: &str) -> (r: bool)
    ensures
        r == is_blank_seq(s@),
{
    let n = s.unicode_len();
    let mut i: usize = 0;
    while i < n
        invariant
            n == s@.len(),
            i <= n,
            forall|j: int| 0 <= j < i ==> is_white_space(#[trigger] s@[j]),
        decreases n - i,
    {
        if !s.get_char(i).is_whitespace() {
            return false;
        }
        i = i + 1;
    }
    true
}

/// The output folder a run asked for: the requested one unless it is
/// absent or blank, in which case `None` selects the default.
pub fn requested_output_folder(output_folder: Option<String>) -> (r: Option<String>)
    ensures
        r == (match output_folder {
            Some(of) => if is_blank_seq(of@) { None } else { Some(of) },
            None => None,
        }),
{
    match output_folder {
        Some(of) => if is_blank(of.as_str()) {
            None
        } else {
            Some(of)
        },
        None => None,
    }
}

/// The output folder of a run under the project root `root`: the
/// requested folder when it is given and not blank, kept as it is when
/// absolute and taken under `root` when relative; otherwise the default
/// folder under `root`.
pub fn resolve_output_folder(root: &str, output_folder: Option<String>) -> (r: String)
    ensures
        r@ == (match output_folder {
            Some(of) => if is_blank_seq(of@) {
                joined_path(root@, "output_gui"@)
            } else if is_absolute_path(of@) {
                of@
            } else {
                joined_path(root@, of@)
            },
            None => joined_path(root@, "output_gui"@),
        }),
{
    match requested_output_folder(output_folder) {
        Some(of) => if path_is_absolute(of.as_str()) {
            of
        } else {
            path_join(root, of.as_str())
        },
        None => path_join(root, DEFAULT_OUTPUT_DIR_NAME),
    }
}

/// The project root: two levels above the application's manifest
/// directory.
pub fn project_root(manifest_dir: &str) -> (r: Result<String, String>)
    ensures
        match parent_path_of(manifest_dir@) {
            None => r matches Err(e) && e@ == "Unable to locate ui directory"@,
            Some(ui) => match parent_path_of(ui) {
                None => r matches Err(e) && e@ == "Unable to locate project root directory"@,
                Some(root) => r matches Ok(p) && p@ == root,
            },
        },
{
    let ui = match path_parent(manifest_dir) {
        Some(u) => u,
        None => return Err(String::from_str("Unable to locate ui directory")),
    };
    match path_parent(ui.as_str()) {
        Some(root) => Ok(root),
        None => Err(String::from_str("Unable to locate project root directory")),
    }
}

/// The greeting shown by the front end's demo command.
pub fn greet(name: &str) -> (r: String)
    ensures
        r@ == "Hello, "@ + name@ + "! You've been greeted from Rust!"@,
{
    let mut s = String::from_str("Hello, ");
    s.append(name);
    s.append("! You've been greeted from Rust!");
    s
}

} // verus!
