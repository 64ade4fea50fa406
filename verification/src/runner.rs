//! One build attempt: what to write where, how to call the compiler, how to
//! clear up afterwards and how to judge the outcome.
//!
//! The functions here decide; writing the file, running the compiler and
//! deleting the artifacts is the caller's part.

use vstd::prelude::*;
use crate::item::WorkItem;
use crate::text::{chars_of, decimal, law_decimal_reads_back, push_decimal};
use crate::verdict::{BuildVerdict, VerdictView};

verus! {

/// Whether the five characters of `s` from position `i` on spell the escaped
/// ampersand, `&amp;`.
pub open spec fn entity_at(s: Seq<char>, i: int) -> bool {
    &&& 0 <= i
    &&& i + 5 <= s.len()
    &&& s[i] == '&'
    &&& s[i + 1] == 'a'
    &&& s[i + 2] == 'm'
    &&& s[i + 3] == 'p'
    &&& s[i + 4] == ';'
}

/// The text `s` with every escaped ampersand turned back into a plain one,
/// reading from the left; everything else stays as it is.
pub open spec fn unescaped(s: Seq<char>) -> Seq<char>
    decreases s.len(),
{
    if s.len() == 0 {
        Seq::empty()
    } else if entity_at(s, 0) {
        seq!['&'] + unescaped(s.skip(5))
    } else {
        seq![s[0]] + unescaped(s.skip(1))
    }
}

/// Undoes the feed's escaping of ampersands, so that the snippet is built as
/// its author wrote it.
pub fn normalize_source(text: &str) -> (source: String)
    ensures
        source@ == unescaped(text@),
{
    let chars = chars_of(text);
    let mut source = String::new();
    let mut i: usize = 0;
    assert(chars@.skip(0) =~= chars@);
    while i < chars.len()
        invariant
            i <= chars.len(),
            source@ + unescaped(chars@.skip(i as int)) == unescaped(chars@),
        decreases chars.len() - i,
    {
        let ghost rest = chars@.skip(i as int);
        let escaped = chars.len() - i >= 5 && chars[i] == '&' && chars[i + 1] == 'a' && chars[i
            + 2] == 'm' && chars[i + 3] == 'p' && chars[i + 4] == ';';
        if escaped {
            source.push('&');
            assert(rest.skip(5) =~= chars@.skip(i + 5));
            i = i + 5;
        } else {
            source.push(chars[i]);
            assert(rest.skip(1) =~= chars@.skip(i + 1));
            i = i + 1;
        }
    }
    source
}

/// Where the artifacts of one build attempt lie.
#[derive(Debug)]
pub struct ArtifactPaths {
    /// The file that the snippet is written to.
    pub source: String,
    /// The file that the compiler writes.
    pub output: String,
    /// The file of debug symbols that the compiler may leave behind.
    pub symbols: String,
}

/// The path in directory `dir` of the artifact of item `id` that ends in
/// `ending`. The item's identifier is the file's name, so that no two items
/// share a file.
pub open spec fn artifact_path(dir: Seq<char>, id: u64, ending: Seq<char>) -> Seq<char> {
    dir + "/"@ + decimal(id as nat) + ending
}

/// No two items share an artifact: in one directory and with one ending,
/// different identifiers give different paths.
pub proof fn law_artifact_paths_differ(dir: Seq<char>, a: u64, b: u64, ending: Seq<char>)
    requires
        a != b,
    ensures
        artifact_path(dir, a, ending) != artifact_path(dir, b, ending),
{
    let head = dir + "/"@;
    let path_a = artifact_path(dir, a, ending);
    let path_b = artifact_path(dir, b, ending);
    if path_a == path_b {
        let digits_a = decimal(a as nat);
        let digits_b = decimal(b as nat);
        assert(path_b.len() == head.len() + digits_b.len() + ending.len());
        assert(digits_a =~= path_a.subrange(
            head.len() as int,
            (head.len() + digits_a.len()) as int,
        ));
        assert(digits_b =~= path_b.subrange(
            head.len() as int,
            (head.len() + digits_b.len()) as int,
        ));
        law_decimal_reads_back(a as nat);
        law_decimal_reads_back(b as nat);
    }
}

fn path_for(dir: &str, id: u64, ending: &str) -> (path: String)
    ensures
        path@ == artifact_path(dir@, id, ending@),
{
    let mut path = String::from_str(dir);
    path.append("/");
    push_decimal(&mut path, id as u128);
    path.append(ending);
    path
}

/// The paths of the artifacts of item `id` in the scratch directory `dir`.
pub fn artifact_paths(dir: &str, id: u64) -> (paths: ArtifactPaths)
    ensures
        paths.source@ == artifact_path(dir@, id, ".rs"@),
        paths.output@ == artifact_path(dir@, id, ".output"@),
        paths.symbols@ == artifact_path(dir@, id, ".pdb"@),
{
    ArtifactPaths {
        source: path_for(dir, id, ".rs"),
        output: path_for(dir, id, ".output"),
        symbols: path_for(dir, id, ".pdb"),
    }
}

/// The texts of a list of strings.
pub open spec fn texts(strings: Seq<String>) -> Seq<Seq<char>> {
    Seq::new(strings.len(), |i: int| strings[i]@)
}

/// The arguments with which the compiler builds `source` into `output`:
/// three kinds of warning are switched off, and the snippet is built as a
/// library, so that it needs no entry point.
pub open spec fn compiler_arguments_for(source: Seq<char>, output: Seq<char>) -> Seq<Seq<char>> {
    seq![
        "-A"@,
        "dead_code"@,
        "-A"@,
        "non_camel_case_types"@,
        "-A"@,
        "const_err"@,
        "--crate-type=lib"@,
        source,
        "-o"@,
        output,
    ]
}

/// The arguments for the compiler, in the order in which they are passed.
pub fn compiler_arguments(paths: &ArtifactPaths) -> (arguments: Vec<String>)
    ensures
        texts(arguments@) == compiler_arguments_for(paths.source@, paths.output@),
{
    let mut arguments: Vec<String> = Vec::new();
    arguments.push(String::from_str("-A"));
    arguments.push(String::from_str("dead_code"));
    arguments.push(String::from_str("-A"));
    arguments.push(String::from_str("non_camel_case_types"));
    arguments.push(String::from_str("-A"));
    arguments.push(String::from_str("const_err"));
    arguments.push(String::from_str("--crate-type=lib"));
    arguments.push(paths.source.clone());
    arguments.push(String::from_str("-o"));
    arguments.push(paths.output.clone());
    arguments
}

/// Everything that the caller needs to make one build attempt.
#[derive(Debug)]
pub struct BuildPlan {
    /// The text to write to the source file.
    pub source_text: String,
    /// Where the artifacts lie.
    pub paths: ArtifactPaths,
    /// The arguments for the compiler.
    pub arguments: Vec<String>,
}

/// Plans the build of `item` in the scratch directory `dir`.
pub fn plan_build(dir: &str, item: &WorkItem) -> (plan: BuildPlan)
    ensures
        plan.source_text@ == unescaped(item.text@),
        plan.paths.source@ == artifact_path(dir@, item.id, ".rs"@),
        plan.paths.output@ == artifact_path(dir@, item.id, ".output"@),
        plan.paths.symbols@ == artifact_path(dir@, item.id, ".pdb"@),
        texts(plan.arguments@) == compiler_arguments_for(plan.paths.source@, plan.paths.output@),
{
    let paths = artifact_paths(dir, item.id);
    let arguments = compiler_arguments(&paths);
    BuildPlan { source_text: normalize_source(item.text.as_str()), paths, arguments }
}

/// One of the three artifacts of a build attempt.
#[derive(Debug, Clone, Copy, PartialEq, Eq, Structural)]
pub enum Artifact {
    Source,
    Output,
    Symbols,
}

/// What came of clearing one artifact away.
#[derive(Debug, Clone, Copy, PartialEq, Eq, Structural)]
pub enum Removal {
    /// The artifact was not there.
    Missing,
    /// The artifact was there and has been deleted.
    Removed,
    /// The artifact was there and could not be deleted.
    Failed,
}

/// An artifact that is there and cannot be deleted: the scratch directory can
/// no longer be trusted.
#[derive(Debug, Clone, Copy, PartialEq, Eq, Structural)]
pub struct CleanupError {
    pub artifact: Artifact,
}

/// Whether clearing up may go on after `removal` of `artifact`. An artifact
/// that was missing or has been deleted is in order. One that could not be
/// deleted is fatal, unless the run is being cancelled: then it is passed
/// over.
pub open spec fn cleanup_outcome(artifact: Artifact, removal: Removal, cancelling: bool) -> Result<
    (),
    CleanupError,
> {
    if removal == Removal::Failed && !cancelling {
        Err(CleanupError { artifact })
    } else {
        Ok(())
    }
}

/// Judges the removal of one artifact.
pub fn judge_removal(artifact: Artifact, removal: Removal, cancelling: bool) -> (outcome: Result<
    (),
    CleanupError,
>)
    ensures
        outcome == cleanup_outcome(artifact, removal, cancelling),
        removal == Removal::Missing ==> outcome is Ok,
{
    match removal {
        Removal::Failed => {
            if cancelling {
                Ok(())
            } else {
                Err(CleanupError { artifact })
            }
        },
        _ => Ok(()),
    }
}

/// The artifacts to clear away after a build attempt, in the order in which
/// they are cleared: every file that the attempt can have left behind.
pub fn cleanup_order() -> (order: [Artifact; 3])
    ensures
        order@ == seq![Artifact::Source, Artifact::Output, Artifact::Symbols],
{
    let order = [Artifact::Source, Artifact::Output, Artifact::Symbols];
    order
}

impl ArtifactPaths {
    /// The path of one of the three artifacts.
    pub fn path_of(&self, artifact: Artifact) -> (path: &String)
        ensures
            path@ == (match artifact {
                Artifact::Source => self.source@,
                Artifact::Output => self.output@,
                Artifact::Symbols => self.symbols@,
            }),
    {
        match artifact {
            Artifact::Source => &self.source,
            Artifact::Output => &self.output,
            Artifact::Symbols => &self.symbols,
        }
    }
}

/// How one artifact stands in the scratch directory: whether the file is
/// there, and whether it can be deleted if it is.
pub struct ArtifactState {
    pub present: bool,
    pub removable: bool,
}

impl ArtifactState {
    /// What comes of clearing the artifact away.
    pub open spec fn removal(self) -> Removal {
        if !self.present {
            Removal::Missing
        } else if self.removable {
            Removal::Removed
        } else {
            Removal::Failed
        }
    }

    /// How the artifact stands after it was cleared away: a file that was
    /// deleted is gone, one that could not be deleted is still there.
    pub open spec fn cleared(self) -> ArtifactState {
        ArtifactState { present: self.present && !self.removable, ..self }
    }
}

/// Clearing up twice is clearing up once. If clearing an artifact away
/// raised no error, then clearing it away again raises none either and
/// leaves the artifact as the first time left it, whether or not the run is
/// being cancelled.
pub proof fn law_second_cleanup_changes_nothing(
    artifact: Artifact,
    state: ArtifactState,
    cancelling: bool,
)
    requires
        cleanup_outcome(artifact, state.removal(), cancelling) is Ok,
    ensures
        cleanup_outcome(artifact, state.cleared().removal(), cancelling) is Ok,
        state.cleared().cleared() == state.cleared(),
{
}

/// The exit status with which the compiler ends when the interrupt that
/// cancels a run has killed it.
pub const INTERRUPT_EXIT_CODE: i32 = -1073741510;

/// The verdict on a build attempt of which the compiler's exit code (if it
/// has one), its success and its diagnostic are known, with `cancelled`
/// saying whether the cancellation flag was found set when the compiler had
/// returned. A cancelled attempt is aborted whatever the compiler said, and so
/// is one that the interrupt killed; otherwise success passes and anything
/// else fails with the diagnostic.
pub open spec fn verdict_for(
    cancelled: bool,
    exit_code: Option<i32>,
    success: bool,
    diagnostic: Seq<char>,
) -> VerdictView {
    if cancelled {
        VerdictView::Aborted
    } else if exit_code == Some(INTERRUPT_EXIT_CODE) {
        VerdictView::Aborted
    } else if success {
        VerdictView::Pass
    } else {
        VerdictView::Fail(diagnostic)
    }
}

/// Determines the verdict on a build attempt from what the compiler
/// returned.
pub fn determine_verdict(
    cancelled: bool,
    exit_code: Option<i32>,
    success: bool,
    diagnostic: String,
) -> (verdict: BuildVerdict)
    ensures
        verdict@ == verdict_for(cancelled, exit_code, success, diagnostic@),
{
    if cancelled {
        return BuildVerdict::Aborted;
    }
    if let Some(code) = exit_code {
        if code == INTERRUPT_EXIT_CODE {
            return BuildVerdict::Aborted;
        }
    }
    if success {
        BuildVerdict::Pass
    } else {
        BuildVerdict::Fail(diagnostic)
    }
}

/// What the compiler left behind when it returned.
#[derive(Debug)]
pub struct BuildOutput {
    /// The exit code, if the compiler ended with one.
    pub exit_code: Option<i32>,
    /// Whether the compiler reported success.
    pub success: bool,
    /// What the compiler wrote to standard error.
    pub stderr: Vec<u8>,
}

/// The text that `String::from_utf8_lossy` makes of a run of bytes.
pub uninterp spec fn utf8_lossy(bytes: Seq<u8>) -> Seq<char>;

/// `String::from_utf8_lossy` of the standard library: the bytes read as
/// UTF-8, with a replacement character for what is not. The result depends on
/// the bytes alone.
#[verifier::external_body]
fn lossy_text(bytes: &Vec<u8>) -> (text: String)
    ensures
        text@ == utf8_lossy(bytes@),
{
    String::from_utf8_lossy(bytes.as_slice()).into_owned()
}

/// Determines the verdict on a build attempt from the compiler's raw output.
/// The diagnostic of a failure is what the compiler wrote to standard error,
/// read as text.
pub fn verdict_of_output(cancelled: bool, output: &BuildOutput) -> (verdict: BuildVerdict)
    ensures
        verdict@ == verdict_for(
            cancelled,
            output.exit_code,
            output.success,
            utf8_lossy(output.stderr@),
        ),
{
    determine_verdict(cancelled, output.exit_code, output.success, lossy_text(&output.stderr))
}

} // verus!
