use vstd::prelude::*;

verus! {

/// Facts about the build of the running program.
#[derive(Debug, Clone)]
pub struct BuildInfo {
    pub pkg_version: String,
    pub git_version: Option<String>,
    pub target: String,
    pub rustc_version: String,
    pub profile: String,
    pub features: String,
}

/// ` (git <hash>)` when the commit is known, nothing otherwise.
pub open spec fn git_suffix(git: Option<String>) -> Seq<char> {
    match git {
        Some(v) => " (git "@ + v@ + ")"@,
        None => Seq::empty(),
    }
}

/// One-line summary of version, target and compiler.
pub open spec fn basic_info(b: BuildInfo) -> Seq<char> {
    "This is Grin version "@ + b.pkg_version@ + git_suffix(b.git_version) + ", built for "@
        + b.target@ + " by "@ + b.rustc_version@ + "."@
}

/// Build profile and enabled features.
pub open spec fn detailed_info(b: BuildInfo) -> Seq<char> {
    "Built with profile \""@ + b.profile@ + "\", features \""@ + b.features@ + "\"."@
}

/// The two lines logged at start-up: a summary, then the build details.
pub fn info_strings(info: &BuildInfo) -> (r: (String, String))
    ensures
        r.0@ == basic_info(*info),
        r.1@ == detailed_info(*info),
{
    let mut basic = "This is Grin version ".to_owned();
    basic.append(info.pkg_version.as_str());
    match &info.git_version {
        Some(v) => {
            basic.append(" (git ");
            basic.append(v.as_str());
            basic.append(")");
        },
        None => {},
    }
    basic.append(", built for ");
    basic.append(info.target.as_str());
    basic.append(" by ");
    basic.append(info.rustc_version.as_str());
    basic.append(".");
    let mut detailed = "Built with profile \"".to_owned();
    detailed.append(info.profile.as_str());
    detailed.append("\", features \"");
    detailed.append(info.features.as_str());
    detailed.append("\".");
    assert(basic@ =~= basic_info(*info));
    assert(detailed@ =~= detailed_info(*info));
    (basic, detailed)
}

} // verus!
