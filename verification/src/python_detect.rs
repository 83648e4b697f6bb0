//! Finding a python for the GUI: the places tried, in order, on each platform.
//! Running each candidate to see whether it works is left to the caller, which
//! takes the first that does.

use vstd::prelude::*;

verus! {

/// The platforms the GUI runs on.
#[derive(Clone, Copy, Debug, PartialEq, Eq, Structural)]
pub enum Platform {
    Windows,
    MacOs,
    Linux,
}

/// Where a python may be found.
#[derive(Clone, Copy, Debug, PartialEq, Eq, Structural)]
pub enum CandidateKind {
    /// A python of the GUI's own, at a path within its content folder.
    Bundled,
    /// A python command on the search path.
    Command,
    /// The `python.exe` two folders above a pip command found on the search path.
    BesidePip,
}

/// The places tried for a python on a platform, in order.
pub open spec fn candidates(platform: Platform) -> Seq<(CandidateKind, Seq<char>)> {
    match platform {
        Platform::Windows => seq![
            (CandidateKind::Bundled, "Python37\\python.exe"@),
            (CandidateKind::Bundled, "venv\\Scripts\\python.exe"@),
            (CandidateKind::BesidePip, "pip3.7"@),
            (CandidateKind::BesidePip, "pip3.8"@),
            (CandidateKind::BesidePip, "pip3.9"@),
            (CandidateKind::BesidePip, "pip3.10"@),
            (CandidateKind::BesidePip, "pip3.6"@),
            (CandidateKind::BesidePip, "pip3"@),
            (CandidateKind::Command, "python"@),
        ],
        Platform::MacOs => seq![
            (CandidateKind::Command, "python3.7"@),
            (CandidateKind::Command, "python3.8"@),
            (CandidateKind::Command, "python3.9"@),
            (CandidateKind::Command, "python3.6"@),
            (CandidateKind::Command, "python3"@),
        ],
        Platform::Linux => seq![
            (CandidateKind::Bundled, "venv/bin/python"@),
            (CandidateKind::Bundled, "env/bin/python"@),
            (CandidateKind::Command, "python3.7"@),
            (CandidateKind::Command, "python3.8"@),
            (CandidateKind::Command, "python3.9"@),
            (CandidateKind::Command, "python3.10"@),
            (CandidateKind::Command, "python3.6"@),
            (CandidateKind::Command, "python3"@),
        ],
    }
}

/// The views of candidates.
pub open spec fn candidate_views(c: Seq<(CandidateKind, String)>) -> Seq<(CandidateKind, Seq<char>)> {
    c.map_values(|p: (CandidateKind, String)| (p.0, p.1@))
}

fn candidate(kind: CandidateKind, name: &str) -> (r: (CandidateKind, String))
    ensures
        r.0 == kind,
        r.1@ == name@,
{
    (kind, name.to_owned())
}

/// The places tried for a python on a platform, in order: on Windows the GUI's
/// own pythons, then those beside the pip commands, then `python`; on macOS the
/// python commands; on Linux the GUI's own virtual environments, then the python
/// commands. A bundled path is relative to the GUI's content folder.
pub fn python_candidates(platform: Platform) -> (r: Vec<(CandidateKind, String)>)
    ensures
        candidate_views(r@) == candidates(platform),
{
    let mut r: Vec<(CandidateKind, String)> = Vec::new();
    match platform {
        Platform::Windows => {
            r.push(candidate(CandidateKind::Bundled, "Python37\\python.exe"));
            r.push(candidate(CandidateKind::Bundled, "venv\\Scripts\\python.exe"));
            r.push(candidate(CandidateKind::BesidePip, "pip3.7"));
            r.push(candidate(CandidateKind::BesidePip, "pip3.8"));
            r.push(candidate(CandidateKind::BesidePip, "pip3.9"));
            r.push(candidate(CandidateKind::BesidePip, "pip3.10"));
            r.push(candidate(CandidateKind::BesidePip, "pip3.6"));
            r.push(candidate(CandidateKind::BesidePip, "pip3"));
            r.push(candidate(CandidateKind::Command, "python"));
        },
        Platform::MacOs => {
            r.push(candidate(CandidateKind::Command, "python3.7"));
            r.push(candidate(CandidateKind::Command, "python3.8"));
            r.push(candidate(CandidateKind::Command, "python3.9"));
            r.push(candidate(CandidateKind::Command, "python3.6"));
            r.push(candidate(CandidateKind::Command, "python3"));
        },
        Platform::Linux => {
            r.push(candidate(CandidateKind::Bundled, "venv/bin/python"));
            r.push(candidate(CandidateKind::Bundled, "env/bin/python"));
            r.push(candidate(CandidateKind::Command, "python3.7"));
            r.push(candidate(CandidateKind::Command, "python3.8"));
            r.push(candidate(CandidateKind::Command, "python3.9"));
            r.push(candidate(CandidateKind::Command, "python3.10"));
            r.push(candidate(CandidateKind::Command, "python3.6"));
            r.push(candidate(CandidateKind::Command, "python3"));
        },
    }
    assert(candidate_views(r@) =~= candidates(platform));
    r
}

/// The python found at a candidate that works, and whether it is the GUI's own.
pub fn detected_python(kind: CandidateKind, program: String) -> (r: (String, bool))
    ensures
        r.0 == program,
        r.1 == (kind == CandidateKind::Bundled),
{
    let bundled = match kind {
        CandidateKind::Bundled => true,
        _ => false,
    };
    (program, bundled)
}

} // verus!
