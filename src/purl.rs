//! Package URLs built through the `packageurl` crate's construction rules.
use vstd::prelude::*;

use crate::model::{PurlView, Purl};

verus! {

/// The error `packageurl` reports when it refuses to build a package URL; carried
/// through without looking inside.
#[verifier::external_type_specification]
#[verifier::external_body]
pub struct ExPackageUrlError(packageurl::Error);

/// The name that `packageurl` stores for a package of type `ty` called `name`
/// (some types, such as `deb`, fold the name to lower case).
pub uninterp spec fn canonical_purl_name(ty: Seq<char>, name: Seq<char>) -> Seq<char>;

pub open spec fn is_purl_type_char(c: char) -> bool {
    c == '.' || c == '-' || c == '+' || ('a' <= c && c <= 'z') || ('A' <= c && c <= 'Z') || (
    '0' <= c && c <= '9')
}

/// A package URL type: ASCII letters, digits, `.`, `+` and `-`, not starting with a digit.
pub open spec fn purl_type_valid(ty: Seq<char>) -> bool {
    &&& ty.len() > 0
    &&& !('0' <= ty[0] && ty[0] <= '9')
    &&& forall|i: int| 0 <= i < ty.len() ==> is_purl_type_char(#[trigger] ty[i])
}

pub open spec fn is_lower_purl_type(ty: Seq<char>) -> bool {
    purl_type_valid(ty) && forall|i: int| 0 <= i < ty.len() ==> !('A' <= #[trigger] ty[i] && ty[i] <= 'Z')
}

/// Relies on packageurl::PackageUrl::new: it accepts exactly a valid type with a
/// non-empty name, and the name it keeps depends on the type and the name alone
/// (an `rpm` name is kept as it is).
#[verifier::external_body]
fn package_url_name(ty: &str, name: &str) -> (r: Result<String, packageurl::Error>)
    ensures
        r.is_ok() == (purl_type_valid(ty@) && name@.len() > 0),
        r matches Ok(n) ==> n@ == canonical_purl_name(ty@, name@),
        r matches Ok(n) ==> (ty@ == "rpm"@ ==> n@ == name@),
{
    match packageurl::PackageUrl::new(ty, name) {
        Ok(p) => Ok(p.name().to_string()),
        Err(e) => Err(e),
    }
}

/// The package URL `pkg:<ty>/<name>@<version>?arch=<arch>`, or none where the
/// construction rules reject the name.
pub open spec fn arch_purl(ty: Seq<char>, name: Seq<char>, version: Seq<char>, arch: Seq<char>) -> Option<PurlView> {
    if purl_type_valid(ty) && name.len() > 0 {
        Some(
            PurlView {
                ty,
                namespace: None,
                name: canonical_purl_name(ty, name),
                version: Some(version),
                qualifiers: seq![("arch"@, arch)],
            },
        )
    } else {
        None
    }
}

pub open spec fn opt_purl_view(p: Option<Purl>) -> Option<PurlView> {
    match p {
        Some(p) => Some(p@),
        None => None,
    }
}

/// Builds the package URL of a package with a version and an architecture.
pub(crate) fn new_arch_purl(ty: &str, name: &str, version: String, arch: String) -> (r: Option<Purl>)
    requires
        is_lower_purl_type(ty@),
    ensures
        opt_purl_view(r) == arch_purl(ty@, name@, version@, arch@),
{
    match package_url_name(ty, name) {
        Ok(n) => {
            let mut qualifiers: Vec<(String, String)> = Vec::new();
            qualifiers.push((String::from_str("arch"), arch));
            let p = Purl {
                ty: ty.to_owned(),
                namespace: None,
                name: n,
                version: Some(version),
                qualifiers,
            };
            assert(p@.qualifiers =~= seq![("arch"@, arch@)]);
            Some(p)
        },
        Err(_) => None,
    }
}

} // verus!
