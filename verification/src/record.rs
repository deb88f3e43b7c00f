use crate::os::OsDescriptor;
use crate::snapshot::Info;
use crate::version::Version;
use vstd::prelude::*;

verus! {

/// The structured interchange record for a validated aggregate: one plain
/// field per fact, version components kept structured so that every record
/// denotes a value. Tooling that wants structured rather than textual output
/// reads this shape.
#[derive(Debug, Clone, PartialEq, Eq)]
pub struct InfoRecord {
    pub package_major: u64,
    pub package_minor: u64,
    pub package_patch: u64,
    pub package_pre: String,
    pub package_build: String,
    pub revision: String,
    pub compiler_major: u64,
    pub compiler_minor: u64,
    pub compiler_patch: u64,
    pub compiler_pre: String,
    pub compiler_build: String,
    pub target: String,
    pub profile: String,
    pub os_name: String,
    pub os_version: String,
    pub os_bitness: String,
}

/// The record that a given aggregate serializes to.
pub open spec fn record_of(i: Info) -> InfoRecord {
    InfoRecord {
        package_major: i.package_version.major,
        package_minor: i.package_version.minor,
        package_patch: i.package_version.patch,
        package_pre: i.package_version.pre,
        package_build: i.package_version.build,
        revision: i.revision,
        compiler_major: i.compiler_version.major,
        compiler_minor: i.compiler_version.minor,
        compiler_patch: i.compiler_version.patch,
        compiler_pre: i.compiler_version.pre,
        compiler_build: i.compiler_version.build,
        target: i.target,
        profile: i.profile,
        os_name: i.os.name,
        os_version: i.os.version,
        os_bitness: i.os.bitness,
    }
}

/// The aggregate that a given record deserializes to.
pub open spec fn info_of(r: InfoRecord) -> Info {
    Info {
        package_version: Version {
            major: r.package_major,
            minor: r.package_minor,
            patch: r.package_patch,
            pre: r.package_pre,
            build: r.package_build,
        },
        revision: r.revision,
        compiler_version: Version {
            major: r.compiler_major,
            minor: r.compiler_minor,
            patch: r.compiler_patch,
            pre: r.compiler_pre,
            build: r.compiler_build,
        },
        target: r.target,
        profile: r.profile,
        os: OsDescriptor { name: r.os_name, version: r.os_version, bitness: r.os_bitness },
    }
}

impl Info {
    /// Serialize this aggregate to the structured interchange record.
    pub fn to_record(&self) -> (r: InfoRecord)
        ensures
            r == record_of(*self),
    {
        InfoRecord {
            package_major: self.package_version.major,
            package_minor: self.package_version.minor,
            package_patch: self.package_version.patch,
            package_pre: self.package_version.pre.clone(),
            package_build: self.package_version.build.clone(),
            revision: self.revision.clone(),
            compiler_major: self.compiler_version.major,
            compiler_minor: self.compiler_version.minor,
            compiler_patch: self.compiler_version.patch,
            compiler_pre: self.compiler_version.pre.clone(),
            compiler_build: self.compiler_version.build.clone(),
            target: self.target.clone(),
            profile: self.profile.clone(),
            os_name: self.os.name.clone(),
            os_version: self.os.version.clone(),
            os_bitness: self.os.bitness.clone(),
        }
    }

    /// Deserialize an aggregate from the structured interchange record; every
    /// record denotes a value, so this never fails.
    pub fn from_record(rec: &InfoRecord) -> (r: Info)
        ensures
            r == info_of(*rec),
    {
        Info {
            package_version: Version {
                major: rec.package_major,
                minor: rec.package_minor,
                patch: rec.package_patch,
                pre: rec.package_pre.clone(),
                build: rec.package_build.clone(),
            },
            revision: rec.revision.clone(),
            compiler_version: Version {
                major: rec.compiler_major,
                minor: rec.compiler_minor,
                patch: rec.compiler_patch,
                pre: rec.compiler_pre.clone(),
                build: rec.compiler_build.clone(),
            },
            target: rec.target.clone(),
            profile: rec.profile.clone(),
            os: OsDescriptor {
                name: rec.os_name.clone(),
                version: rec.os_version.clone(),
                bitness: rec.os_bitness.clone(),
            },
        }
    }
}

/// Round trip: serializing a validated aggregate to the interchange record and
/// deserializing it back yields a structurally equal value.
pub proof fn lemma_record_round_trip(i: Info)
    ensures
        info_of(record_of(i)) == i,
{
}

/// Round trip the other way: a record deserialized and serialized again is
/// unchanged.
pub proof fn lemma_record_round_trip_rev(r: InfoRecord)
    ensures
        record_of(info_of(r)) == r,
{
}

} // verus!
