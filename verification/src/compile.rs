//! Compiling a score: whether its pdf is current, which binary compiles it,
//! and the command that does.

use vstd::prelude::*;
use crate::releases::{catalog, Release};
use crate::templates::optional;
use crate::text::{
    contains, contains_str, equal_str, push_str, replace, replace_str, string_of, string_views,
};
use crate::version::{is_valid_version, valid_version, versions_of};

verus! {

/// Whether the output is as new as the input, each given by the time it
/// was last changed, in nanoseconds since the epoch, or `None` where the
/// file is missing. A missing input is older than everything; a missing
/// output is older than every input there is.
pub fn is_compiled(input_modified: &Option<u128>, output_modified: &Option<u128>) -> (compiled:
    bool)
    ensures
        compiled == (match (*input_modified, *output_modified) {
            (None, _) => true,
            (Some(_), None) => false,
            (Some(input), Some(output)) => input <= output,
        }),
{
    match input_modified {
        None => true,
        Some(input) => match output_modified {
            None => false,
            Some(output) => *input <= *output,
        },
    }
}

/// The directory of the binaries of the installed `version`.
pub open spec fn binary_directory(install_path: Seq<char>, version: Seq<char>) -> Seq<char> {
    install_path + "/lilypond-"@ + version + "/bin"@
}

/// The directory of the binaries to compile with, where the score asks for
/// a version other than the global one and the version is valid; `None`
/// where the binary on the search path is to be used.
pub fn get_binary(
    version: &String,
    global_version: &str,
    install_path: &str,
    releases: &Vec<Release>,
) -> (binary: Option<String>)
    ensures
        match binary {
            Some(directory) => directory@ == binary_directory(install_path@, version@),
            None => true,
        },
        binary is Some <==> global_version@ != version@ && valid_version(
            version@,
            versions_of(catalog(releases@)),
        ),
{
    if !equal_str(global_version, version.as_str()) && is_valid_version(version, releases) {
        let mut out: Vec<char> = Vec::new();
        push_str(&mut out, install_path);
        push_str(&mut out, "/lilypond-");
        push_str(&mut out, version.as_str());
        push_str(&mut out, "/bin");
        assert(out@ =~= binary_directory(install_path@, version@));
        Some(string_of(&out))
    } else {
        None
    }
}

/// The pattern for the pdfs of the score with the file stem `stem`.
pub fn output_file_pattern(pdfs_directory: &str, stem: &str) -> (pattern: String)
    ensures
        pattern@ == pdfs_directory@ + "/"@ + stem@ + "*.pdf"@,
{
    let mut out: Vec<char> = Vec::new();
    push_str(&mut out, pdfs_directory);
    push_str(&mut out, "/");
    push_str(&mut out, stem);
    push_str(&mut out, "*.pdf");
    string_of(&out)
}

/// What a version line says: the line without `\version ` and without
/// quotes.
pub open spec fn version_of_line(line: Seq<char>) -> Seq<char> {
    replace(replace(line, "\\version "@, ""@), "\""@, ""@)
}

/// The position of the first line that holds `\version`.
pub open spec fn version_line_index(lines: Seq<Seq<char>>) -> Option<int>
    decreases lines.len(),
{
    if lines.len() == 0 {
        None
    } else {
        match version_line_index(lines.drop_last()) {
            Some(i) => Some(i),
            None => if contains(lines.last(), "\\version"@) {
                Some(lines.len() - 1)
            } else {
                None
            },
        }
    }
}

/// The version that a score asks for: what its first line with `\version`
/// says; empty where no line holds it.
pub open spec fn version_of_file(lines: Seq<Seq<char>>) -> Seq<char> {
    match version_line_index(lines) {
        Some(i) => version_of_line(lines[i]),
        None => Seq::empty(),
    }
}

/// A version line among the first `k` lines is the first of all.
pub proof fn lemma_version_line_stays(lines: Seq<Seq<char>>, k: int)
    requires
        0 <= k <= lines.len(),
        version_line_index(lines.take(k)) is Some,
    ensures
        version_line_index(lines) == version_line_index(lines.take(k)),
    decreases lines.len(),
{
    if k < lines.len() {
        assert(lines.drop_last().take(k) =~= lines.take(k));
        lemma_version_line_stays(lines.drop_last(), k);
    } else {
        assert(lines.take(k) =~= lines);
    }
}

/// The version that the score with the lines `lines` asks for.
pub fn file_version(lines: &Vec<String>) -> (version: String)
    ensures
        version@ == version_of_file(string_views(lines@)),
{
    let ghost all = string_views(lines@);
    let mut i: usize = 0;
    assert(all.take(0) =~= Seq::<Seq<char>>::empty());
    while i < lines.len()
        invariant
            i <= lines.len(),
            all == string_views(lines@),
            version_line_index(all.take(i as int)) is None,
        decreases lines.len() - i,
    {
        assert(all.take(i + 1).drop_last() =~= all.take(i as int));
        assert(all.take(i + 1).last() == lines@[i as int]@);
        if contains_str(lines[i].as_str(), "\\version") {
            proof {
                lemma_version_line_stays(all, i + 1);
            }
            let bare = replace_str(lines[i].as_str(), "\\version ", "");
            return replace_str(bare.as_str(), "\"", "");
        }
        i += 1;
    }
    assert(all.take(lines@.len() as int) =~= all);
    String::new()
}

/// The program that compiles: `lilypond` in the directory of binaries
/// given, or the one on the search path.
pub fn compile_command(binary: &Option<String>) -> (command: String)
    ensures
        command@ == (match *binary {
            Some(directory) => directory@ + "/lilypond"@,
            None => "lilypond"@,
        }),
{
    match binary {
        Some(directory) => {
            let mut out: Vec<char> = Vec::new();
            push_str(&mut out, directory.as_str());
            push_str(&mut out, "/lilypond");
            string_of(&out)
        },
        None => "lilypond".to_owned(),
    }
}

/// The arguments of the program that compiles `file`.
pub fn compile_arguments(scores_directory: &str, pdfs_directory: &str, file: &str) -> (arguments:
    Vec<String>)
    ensures
        string_views(arguments@) == seq![
            "--include"@,
            scores_directory@,
            "--output"@,
            pdfs_directory@,
            file@,
        ],
{
    let mut arguments: Vec<String> = Vec::new();
    arguments.push("--include".to_owned());
    arguments.push(scores_directory.to_owned());
    arguments.push("--output".to_owned());
    arguments.push(pdfs_directory.to_owned());
    arguments.push(file.to_owned());
    assert(string_views(arguments@) =~= seq![
        "--include"@,
        scores_directory@,
        "--output"@,
        pdfs_directory@,
        file@,
    ]);
    arguments
}

/// What is printed once the score with the file stem `stem` is compiled.
pub fn compiled_message(pdfs_directory: &str, stem: &str) -> (message: String)
    ensures
        message@ == "Compiled "@ + pdfs_directory@ + "/"@ + stem@ + ".pdf"@,
{
    let mut out: Vec<char> = Vec::new();
    push_str(&mut out, "Compiled ");
    push_str(&mut out, pdfs_directory);
    push_str(&mut out, "/");
    push_str(&mut out, stem);
    push_str(&mut out, ".pdf");
    string_of(&out)
}

/// One of the pdfs found is as new as the score.
pub open spec fn current(input_modified: Option<u128>, outputs: Seq<Option<u128>>) -> bool {
    exists|i: int|
        0 <= i < outputs.len() && (match (input_modified, #[trigger] outputs[i]) {
            (None, _) => true,
            (Some(_), None) => false,
            (Some(input), Some(output)) => input <= output,
        })
}

/// Whether one of the pdfs found for a score is current, each given by the
/// time it was last changed, as the score is.
pub fn is_current(input_modified: &Option<u128>, outputs: &Vec<Option<u128>>) -> (found: bool)
    ensures
        found == current(*input_modified, outputs@),
{
    let mut i: usize = 0;
    while i < outputs.len()
        invariant
            i <= outputs.len(),
            forall|j: int|
                0 <= j < i ==> !(match (*input_modified, #[trigger] outputs@[j]) {
                    (None, _) => true,
                    (Some(_), None) => false,
                    (Some(input), Some(output)) => input <= output,
                }),
        decreases outputs.len() - i,
    {
        if is_compiled(input_modified, &outputs[i]) {
            return true;
        }
        i += 1;
    }
    false
}

/// Whether a score is compiled: always where that is forced, and otherwise
/// only where none of its pdfs is current. A score that is up to date is
/// not compiled again.
pub fn compile_needed(
    force: bool,
    input_modified: &Option<u128>,
    outputs: &Vec<Option<u128>>,
) -> (needed: bool)
    ensures
        needed == (force || !current(*input_modified, outputs@)),
{
    force || !is_current(input_modified, outputs)
}

/// Whether the catalog is needed to decide the binary for `version`: only
/// where the version is not the global one.
pub fn catalog_needed(version: &str, global_version: &str) -> (needed: bool)
    ensures
        needed == (global_version@ != version@),
{
    !equal_str(global_version, version)
}

/// What compiling a score has to run.
#[derive(Debug)]
pub struct CompilePlan {
    /// The directory of the binaries of the score's version, to be
    /// installed first where it does not exist; `None` where the binary on
    /// the search path is used.
    pub binary: Option<String>,
    /// The program to run.
    pub command: String,
    /// Its arguments.
    pub arguments: Vec<String>,
}

/// The version that a score is compiled with: the one asked for, or else
/// the one of its file.
pub open spec fn compile_version(lines: Seq<Seq<char>>, lilypond_version: Option<Seq<char>>) -> Seq<
    char,
> {
    match lilypond_version {
        Some(version) => version,
        None => version_of_file(lines),
    }
}

/// The version that the score with the lines `lines` is compiled with.
pub fn version_to_compile(lines: &Vec<String>, lilypond_version: &Option<String>) -> (version:
    String)
    ensures
        version@ == compile_version(string_views(lines@), optional(*lilypond_version)),
{
    match lilypond_version {
        Some(version) => version.clone(),
        None => file_version(lines),
    }
}

/// Plans the compiling of the score in `input_file` with the lines `lines`.
/// Nothing is to be run where the score is up to date and compiling is not
/// forced. Otherwise the score is compiled with the binary of the version
/// asked for or of the score's own version, where that is a valid version
/// other than the global one, and else with the binary on the search path.
/// The catalog is read only where the version is not the global one.
pub fn compile_input_file(
    input_file: &str,
    input_modified: &Option<u128>,
    outputs: &Vec<Option<u128>>,
    force: bool,
    lines: &Vec<String>,
    lilypond_version: &Option<String>,
    global_version: &str,
    install_path: &str,
    releases: &Vec<Release>,
    scores_directory: &str,
    pdfs_directory: &str,
) -> (plan: Option<CompilePlan>)
    ensures
        plan is Some <==> force || !current(*input_modified, outputs@),
        plan is Some ==> ({
            let version = compile_version(string_views(lines@), optional(*lilypond_version));
            let made = plan->Some_0;
            &&& made.binary is Some <==> global_version@ != version && valid_version(
                version,
                versions_of(catalog(releases@)),
            )
            &&& made.binary is Some ==> made.binary->Some_0@ == binary_directory(
                install_path@,
                version,
            )
            &&& made.command@ == (match made.binary {
                Some(directory) => directory@ + "/lilypond"@,
                None => "lilypond"@,
            })
            &&& string_views(made.arguments@) == seq![
                "--include"@,
                scores_directory@,
                "--output"@,
                pdfs_directory@,
                input_file@,
            ]
        }),
{
    if !compile_needed(force, input_modified, outputs) {
        return None;
    }
    let version = version_to_compile(lines, lilypond_version);
    let binary = get_binary(&version, global_version, install_path, releases);
    let command = compile_command(&binary);
    let arguments = compile_arguments(scores_directory, pdfs_directory, input_file);
    Some(CompilePlan { binary, command, arguments })
}

} // verus!
