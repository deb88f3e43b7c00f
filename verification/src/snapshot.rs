use crate::os::{detect_os, os_text, OsDescriptor, OsView};
use crate::version::{parse_semver, semver_parse, version_text, Version, VersionView};
use vstd::prelude::*;

verus! {

/// The unvalidated snapshot of the frozen build-time constants: plain text in
/// every field, any content legal. Constructing one never fails.
#[derive(Debug, Clone, PartialEq, Eq, Hash)]
pub struct RawInfo {
    pub package_version: String,
    pub revision: String,
    pub compiler_version: String,
    pub target: String,
    pub profile: String,
}

impl RawInfo {
    /// Gather the five frozen texts into a snapshot; never fails.
    pub fn new(
        package_version: String,
        revision: String,
        compiler_version: String,
        target: String,
        profile: String,
    ) -> (r: Self)
        ensures
            r.package_version == package_version,
            r.revision == revision,
            r.compiler_version == compiler_version,
            r.target == target,
            r.profile == profile,
    {
        RawInfo { package_version, revision, compiler_version, target, profile }
    }
}

/// The version-like field of a snapshot that failed to validate.
#[derive(Debug, Clone, Copy, PartialEq, Eq, Structural)]
pub enum VersionField {
    PackageVersion,
    CompilerVersion,
}

/// A version-like text field did not conform to the semantic-versioning
/// grammar: names the field and carries the offending text.
#[derive(Debug, Clone, PartialEq, Eq)]
pub struct MalformedVersion {
    pub field: VersionField,
    pub text: String,
}

/// The validated aggregate: parsed versions, opaque revision, target and
/// profile text, and a descriptor of the operating system queried when the
/// value was constructed.
#[derive(Debug, Clone, PartialEq, Eq, Hash)]
pub struct Info {
    pub package_version: Version,
    pub revision: String,
    pub compiler_version: Version,
    pub target: String,
    pub profile: String,
    pub os: OsDescriptor,
}

/// The mathematical content of an `Info`.
pub ghost struct InfoView {
    pub package_version: VersionView,
    pub revision: Seq<char>,
    pub compiler_version: VersionView,
    pub target: Seq<char>,
    pub profile: Seq<char>,
    pub os: OsView,
}

impl View for Info {
    type V = InfoView;

    open spec fn view(&self) -> InfoView {
        InfoView {
            package_version: self.package_version@,
            revision: self.revision@,
            compiler_version: self.compiler_version@,
            target: self.target@,
            profile: self.profile@,
            os: self.os@,
        }
    }
}

/// The canonical single-line rendering: package version, revision, target,
/// profile, `rustc-` followed by the compiler version, and the OS descriptor's
/// own text, separated by single spaces.
pub open spec fn render_text(i: InfoView) -> Seq<char> {
    version_text(i.package_version) + seq![' '] + i.revision + seq![' '] + i.target + seq![' ']
        + i.profile + seq![' ', 'r', 'u', 's', 't', 'c', '-'] + version_text(i.compiler_version)
        + seq![' '] + os_text(i.os)
}

impl Info {
    /// Validate a snapshot whose version-like fields are already known to
    /// conform to the semantic-versioning grammar, and query the current
    /// operating system. Callers that do not know this use `try_new`.
    pub fn new(raw: RawInfo) -> (r: Info)
        requires
            semver_parse(raw.package_version@) is Some,
            semver_parse(raw.compiler_version@) is Some,
        ensures
            r.package_version@ == semver_parse(raw.package_version@)->0,
            r.compiler_version@ == semver_parse(raw.compiler_version@)->0,
            r.revision == raw.revision,
            r.target == raw.target,
            r.profile == raw.profile,
    {
        let package_version = match parse_semver(raw.package_version.as_str()) {
            Some(v) => v,
            None => unreached(),
        };
        let compiler_version = match parse_semver(raw.compiler_version.as_str()) {
            Some(v) => v,
            None => unreached(),
        };
        Info {
            package_version,
            revision: raw.revision,
            compiler_version,
            target: raw.target,
            profile: raw.profile,
            os: detect_os(),
        }
    }

    /// Validate a snapshot without panicking: succeeds exactly when both
    /// version-like fields conform to the semantic-versioning grammar, and
    /// otherwise reports the first malformed field with its text.
    pub fn try_new(raw: RawInfo) -> (r: Result<Info, MalformedVersion>)
        ensures
            r is Ok <==> semver_parse(raw.package_version@) is Some && semver_parse(
                raw.compiler_version@,
            ) is Some,
            r is Ok ==> r->Ok_0.package_version@ == semver_parse(raw.package_version@)->0
                && r->Ok_0.compiler_version@ == semver_parse(raw.compiler_version@)->0
                && r->Ok_0.revision == raw.revision && r->Ok_0.target == raw.target
                && r->Ok_0.profile == raw.profile,
            semver_parse(raw.package_version@) is None ==> r->Err_0.field
                == VersionField::PackageVersion && r->Err_0.text == raw.package_version,
            semver_parse(raw.package_version@) is Some && semver_parse(raw.compiler_version@)
                is None ==> r->Err_0.field == VersionField::CompilerVersion && r->Err_0.text
                == raw.compiler_version,
    {
        if parse_semver(raw.package_version.as_str()).is_none() {
            return Err(
                MalformedVersion { field: VersionField::PackageVersion, text: raw.package_version },
            );
        }
        if parse_semver(raw.compiler_version.as_str()).is_none() {
            return Err(
                MalformedVersion {
                    field: VersionField::CompilerVersion,
                    text: raw.compiler_version,
                },
            );
        }
        Ok(Info::new(raw))
    }

    /// Append the canonical single-line rendering to `out`.
    pub fn push_text(&self, out: &mut String)
        ensures
            final(out)@ == old(out)@ + render_text(self@),
    {
        proof {
            reveal_strlit(" ");
            reveal_strlit(" rustc-");
            assert(" "@ =~= seq![' ']);
            assert(" rustc-"@ =~= seq![' ', 'r', 'u', 's', 't', 'c', '-']);
        }
        self.package_version.push_text(out);
        out.append(" ");
        out.append(self.revision.as_str());
        out.append(" ");
        out.append(self.target.as_str());
        out.append(" ");
        out.append(self.profile.as_str());
        out.append(" rustc-");
        self.compiler_version.push_text(out);
        out.append(" ");
        self.os.push_text(out);
        proof {
            assert(out@ =~= old(out)@ + render_text(self@));
        }
    }

    /// The canonical single-line rendering of this aggregate.
    pub fn render(&self) -> (r: String)
        ensures
            r@ == render_text(self@),
    {
        let mut out = String::new();
        self.push_text(&mut out);
        proof {
            assert(out@ =~= render_text(self@));
        }
        out
    }
}

/// The revision text to freeze when the source-control lookup may have found
/// nothing: the looked-up text when there is one, the literal fallback
/// `unknown` otherwise.
pub fn revision_or_unknown(revision: Option<String>) -> (r: String)
    ensures
        revision is Some ==> r == revision->0,
        revision is None ==> r@ == "unknown"@,
{
    match revision {
        Some(text) => text,
        None => "unknown".to_owned(),
    }
}

/// Rendering is deterministic: two aggregates with identical field content
/// render to identical text.
pub proof fn lemma_render_deterministic(a: Info, b: Info)
    requires
        a@ == b@,
    ensures
        render_text(a@) == render_text(b@),
{
}

/// The rendering always contains the revision text, between single spaces,
/// right after the package version — in particular the literal fallback
/// `unknown` when no source-control revision was available.
pub proof fn lemma_render_includes_revision(i: InfoView)
    ensures
        ({
            let k = version_text(i.package_version).len() + 1;
            render_text(i).subrange(k as int, (k + i.revision.len()) as int) == i.revision
        }),
{
    let k = version_text(i.package_version).len() + 1;
    assert(render_text(i).subrange(k as int, (k + i.revision.len()) as int) =~= i.revision);
}

} // verus!
