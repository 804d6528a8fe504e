//! Locating the crate: walking upward from a starting directory until an
//! ancestor holds a manifest, and extracting the package name from it. The
//! surrounding application reads the filesystem and reports, for each
//! ancestor in turn, whether a manifest was found there; the walk itself
//! and its outcome are decided here.

use vstd::prelude::*;
use crate::BuildError;
use crate::path::DirPath;

verus! {

/// The package name that a manifest text yields: `Some` exactly when the
/// text parses as a manifest whose `package.name` field is a string, and
/// then the value of that field. A function of the text alone.
pub uninterp spec fn manifest_package_name(text: Seq<char>) -> Option<Seq<char>>;

/// Relies on the toml crate: `str::parse::<toml::Table>` to parse the
/// manifest text, and `toml::Table::get` / `toml::Value::get` /
/// `toml::Value::as_str` to look up the `package.name` string field. The
/// result depends on the text alone.
#[verifier::external_body]
fn parse_package_name(text: &str) -> (r: Option<String>)
    ensures
        r matches Some(n) ==> manifest_package_name(text@) == Some(n@),
        r is None ==> manifest_package_name(text@) is None,
{
    let table: toml::Table = text.parse().ok()?;
    let name = table.get("package")?.get("name")?.as_str()?;
    Some(name.to_string())
}

/// What probing one ancestor directory for a manifest found: no manifest
/// there, a manifest that could not be read, or the manifest's text.
pub enum ManifestProbe {
    Missing,
    Unreadable,
    Found(String),
}

/// The located crate: the ancestor directory holding the manifest, and the
/// package name the manifest declares.
#[derive(Debug)]
pub struct CrateDescriptor {
    pub root: DirPath,
    pub name: String,
}

/// The outcome the walk is required to reach, stated over views.
pub enum ResolutionSpec {
    Resolved { root: Seq<Seq<char>>, name: Seq<char> },
    NotFound,
    Invalid,
    IoFailed,
}

/// The meaning of the upward walk: take the probes innermost ancestor
/// first; the first ancestor with a manifest decides the outcome, a walk
/// past the filesystem root finds nothing.
pub open spec fn spec_resolve(at: Seq<Seq<char>>, probes: Seq<ManifestProbe>) -> ResolutionSpec
    decreases at.len(),
{
    if probes.len() == 0 {
        ResolutionSpec::IoFailed
    } else {
        match probes[0] {
            ManifestProbe::Found(text) => match manifest_package_name(text@) {
                Some(name) => ResolutionSpec::Resolved { root: at, name },
                None => ResolutionSpec::Invalid,
            },
            ManifestProbe::Unreadable => ResolutionSpec::IoFailed,
            ManifestProbe::Missing => if at.len() == 0 {
                ResolutionSpec::NotFound
            } else {
                spec_resolve(at.drop_last(), probes.drop_first())
            },
        }
    }
}

/// Walks upward from `start`, one probe per ancestor, innermost first. The
/// first ancestor with a manifest becomes the crate root and its
/// `package.name` the crate name; a manifest without a usable name is
/// invalid; running out of ancestors means no manifest exists anywhere up
/// to the filesystem root; an unreadable manifest is an I/O failure.
pub fn resolve_crate(start: DirPath, probes: &Vec<ManifestProbe>) -> (r: Result<
    CrateDescriptor,
    BuildError,
>)
    requires
        probes@.len() == start@.len() + 1,
    ensures
        r matches Ok(d) ==> spec_resolve(start@, probes@) == (ResolutionSpec::Resolved {
            root: d.root@,
            name: d.name@,
        }),
        r matches Err(e) ==> e == BuildError::ManifestNotFound || e == BuildError::ManifestInvalid
            || e == BuildError::Io,
        r matches Err(e) && e == BuildError::ManifestNotFound ==> spec_resolve(start@, probes@)
            is NotFound,
        r matches Err(e) && e == BuildError::ManifestInvalid ==> spec_resolve(start@, probes@)
            is Invalid,
        r matches Err(e) && e == BuildError::Io ==> spec_resolve(start@, probes@) is IoFailed,
{
    let mut current = start;
    let depth: usize = current.depth();
    let mut i: usize = 0;
    proof {
        assert(probes@.skip(0) =~= probes@);
    }
    loop
        invariant
            depth == start@.len(),
            probes@.len() == start@.len() + 1,
            i <= depth,
            current@.len() == start@.len() - i,
            spec_resolve(start@, probes@) == spec_resolve(current@, probes@.skip(i as int)),
        decreases start@.len() - i,
    {
        let ghost level_probes = probes@.skip(i as int);
        match &probes[i] {
            ManifestProbe::Found(text) => {
                match parse_package_name(text.as_str()) {
                    Some(name) => {
                        return Ok(CrateDescriptor { root: current, name });
                    },
                    None => {
                        return Err(BuildError::ManifestInvalid);
                    },
                }
            },
            ManifestProbe::Unreadable => {
                return Err(BuildError::Io);
            },
            ManifestProbe::Missing => {
                let popped = current.pop();
                if !popped {
                    return Err(BuildError::ManifestNotFound);
                }
                assert(i < depth);
                i = i + 1;
                proof {
                    assert(probes@.skip(i as int) =~= level_probes.drop_first());
                }
            },
        }
    }
}

} // verus!
