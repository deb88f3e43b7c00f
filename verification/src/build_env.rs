use vstd::prelude::*;

verus! {

/// The build-tool-supplied value that the build-time capture found absent; its
/// absence means the build environment itself is broken and the build must
/// abort.
#[derive(Debug, Clone, Copy, PartialEq, Eq, Structural)]
pub enum MissingBuildValue {
    Target,
    Profile,
    CompilerVersion,
}

/// The three values the build-time capture freezes into compile-time
/// constants for the run-time snapshot to read.
#[derive(Debug, Clone, PartialEq, Eq)]
pub struct BuildConstants {
    pub compiler_version: String,
    pub target: String,
    pub profile: String,
}

/// The build-time capture decision: succeeds exactly when the build tool
/// supplied the target triple and the build profile and the toolchain's
/// version could be determined, and otherwise names the first value missing,
/// in that order. The caller reads the build environment and aborts the build
/// on the error.
pub fn capture_build_constants(
    target: Option<String>,
    profile: Option<String>,
    compiler_version: Option<String>,
) -> (r: Result<BuildConstants, MissingBuildValue>)
    ensures
        r is Ok <==> target is Some && profile is Some && compiler_version is Some,
        r is Ok ==> r->Ok_0.target == target->0 && r->Ok_0.profile == profile->0
            && r->Ok_0.compiler_version == compiler_version->0,
        target is None ==> r->Err_0 == MissingBuildValue::Target,
        target is Some && profile is None ==> r->Err_0 == MissingBuildValue::Profile,
        target is Some && profile is Some && compiler_version is None ==> r->Err_0
            == MissingBuildValue::CompilerVersion,
{
    let target = match target {
        Some(t) => t,
        None => {
            return Err(MissingBuildValue::Target);
        },
    };
    let profile = match profile {
        Some(p) => p,
        None => {
            return Err(MissingBuildValue::Profile);
        },
    };
    let compiler_version = match compiler_version {
        Some(c) => c,
        None => {
            return Err(MissingBuildValue::CompilerVersion);
        },
    };
    Ok(BuildConstants { compiler_version, target, profile })
}

} // verus!
