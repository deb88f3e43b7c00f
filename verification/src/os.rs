use vstd::prelude::*;

verus! {

/// A description of the operating system the process is running on, as plain
/// text fields: the system's name, its version, and its bitness.
#[derive(Debug, Clone, PartialEq, Eq, Hash)]
pub struct OsDescriptor {
    pub name: String,
    pub version: String,
    pub bitness: String,
}

/// The mathematical content of an `OsDescriptor`.
pub ghost struct OsView {
    pub name: Seq<char>,
    pub version: Seq<char>,
    pub bitness: Seq<char>,
}

impl View for OsDescriptor {
    type V = OsView;

    open spec fn view(&self) -> OsView {
        OsView { name: self.name@, version: self.version@, bitness: self.bitness@ }
    }
}

/// The canonical text of an OS descriptor: `name version (bitness)`.
pub open spec fn os_text(o: OsView) -> Seq<char> {
    o.name + seq![' '] + o.version + seq![' ', '('] + o.bitness + seq![')']
}

impl OsDescriptor {
    /// Gather the three fields into a descriptor; never fails.
    pub fn new(name: String, version: String, bitness: String) -> (r: Self)
        ensures
            r.name == name,
            r.version == version,
            r.bitness == bitness,
    {
        OsDescriptor { name, version, bitness }
    }

    /// Append this descriptor's canonical text to `out`.
    pub fn push_text(&self, out: &mut String)
        ensures
            final(out)@ == old(out)@ + os_text(self@),
    {
        proof {
            reveal_strlit(" ");
            reveal_strlit(" (");
            reveal_strlit(")");
            assert(" "@ =~= seq![' ']);
            assert(" ("@ =~= seq![' ', '(']);
            assert(")"@ =~= seq![')']);
        }
        out.append(self.name.as_str());
        out.append(" ");
        out.append(self.version.as_str());
        out.append(" (");
        out.append(self.bitness.as_str());
        out.append(")");
        proof {
            assert(out@ =~= old(out)@ + os_text(self@));
        }
    }

    /// The canonical text of this descriptor.
    pub fn render(&self) -> (r: String)
        ensures
            r@ == os_text(self@),
    {
        let mut out = String::new();
        self.push_text(&mut out);
        proof {
            assert(out@ =~= os_text(self@));
        }
        out
    }
}

/// Relies on `os_info::get`: it returns a descriptor of the operating system
/// the process is running on. Nothing is promised of the outcome, which
/// depends on the machine.
#[verifier::external_body]
pub(crate) fn detect_os() -> OsDescriptor {
    let i = os_info::get();
    OsDescriptor {
        name: i.os_type().to_string(),
        version: i.version().to_string(),
        bitness: i.bitness().to_string(),
    }
}

} // verus!
