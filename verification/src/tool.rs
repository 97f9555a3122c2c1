//! The local programs that the client runs, each with its arguments.

use vstd::prelude::*;
use vstd::string::StringExecFns;

verus! {

/// One run of a local program. The program is started and waited for; how it
/// exits is not looked at. Where it cannot be started at all, the client
/// stops with `failure`.
#[derive(Debug, PartialEq, Eq)]
pub struct ToolRun {
    pub program: String,
    pub args: Vec<String>,
    pub failure: String,
}

/// A run of a local program by its texts.
pub struct ToolRunView {
    pub program: Seq<char>,
    pub args: Seq<Seq<char>>,
    pub failure: Seq<char>,
}

impl View for ToolRun {
    type V = ToolRunView;

    open spec fn view(&self) -> ToolRunView {
        ToolRunView {
            program: self.program@,
            args: self.args.deep_view(),
            failure: self.failure@,
        }
    }
}

/// `make clean`.
pub open spec fn clean_run() -> ToolRunView {
    ToolRunView {
        program: "make"@,
        args: seq!["clean"@],
        failure: "Could not clean runtime"@,
    }
}

/// `make build`.
pub open spec fn build_run() -> ToolRunView {
    ToolRunView {
        program: "make"@,
        args: seq!["build"@],
        failure: "Could not build runtime"@,
    }
}

/// `tar -czf archive file`.
pub open spec fn pack_run(archive: Seq<char>, file: Seq<char>) -> ToolRunView {
    ToolRunView {
        program: "tar"@,
        args: seq!["-czf"@, archive, file],
        failure: "Could not tar the input artifact"@,
    }
}

/// `tar -xvf archive`.
pub open spec fn unpack_run(archive: Seq<char>) -> ToolRunView {
    ToolRunView {
        program: "tar"@,
        args: seq!["-xvf"@, archive],
        failure: "Could not untar the output artifact"@,
    }
}

/// `rm archive`.
pub open spec fn remove_run(archive: Seq<char>) -> ToolRunView {
    ToolRunView { program: "rm"@, args: seq![archive], failure: "Could not delete tar file"@ }
}

/// The run that clears what an earlier build of the runtime left.
pub fn clean_runtime() -> (run: ToolRun)
    ensures
        run@ == clean_run(),
{
    let args = vec![String::from_str("clean")];
    assert(args.deep_view() =~= seq!["clean"@]);
    ToolRun {
        program: String::from_str("make"),
        args,
        failure: String::from_str("Could not clean runtime"),
    }
}

/// The run that builds the runtime.
pub fn build_runtime() -> (run: ToolRun)
    ensures
        run@ == build_run(),
{
    let args = vec![String::from_str("build")];
    assert(args.deep_view() =~= seq!["build"@]);
    ToolRun {
        program: String::from_str("make"),
        args,
        failure: String::from_str("Could not build runtime"),
    }
}

/// The run that packs `file` into the compressed archive `archive`.
pub fn pack_input(archive: String, file: String) -> (run: ToolRun)
    ensures
        run@ == pack_run(archive@, file@),
{
    let args = vec![String::from_str("-czf"), archive, file];
    assert(args.deep_view() =~= seq!["-czf"@, archive@, file@]);
    ToolRun {
        program: String::from_str("tar"),
        args,
        failure: String::from_str("Could not tar the input artifact"),
    }
}

/// The run that unpacks `archive` into the current directory.
pub fn unpack_archive(archive: String) -> (run: ToolRun)
    ensures
        run@ == unpack_run(archive@),
{
    let args = vec![String::from_str("-xvf"), archive];
    assert(args.deep_view() =~= seq!["-xvf"@, archive@]);
    ToolRun {
        program: String::from_str("tar"),
        args,
        failure: String::from_str("Could not untar the output artifact"),
    }
}

/// The run that deletes `archive`.
pub fn remove_archive(archive: String) -> (run: ToolRun)
    ensures
        run@ == remove_run(archive@),
{
    let args = vec![archive];
    assert(args.deep_view() =~= seq![archive@]);
    ToolRun {
        program: String::from_str("rm"),
        args,
        failure: String::from_str("Could not delete tar file"),
    }
}

} // verus!
