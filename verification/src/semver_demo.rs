//! Semantic versions: rendering, bumping, Cargo's caret compatibility, and
//! the meaning of common version requirements.

use vstd::prelude::*;
use crate::text::{concat2, decimal, str_eq, u64_to_string};

verus! {

/// A version `major.minor.patch`.
#[derive(Debug, Clone, Copy)]
pub struct Version {
    pub major: u32,
    pub minor: u32,
    pub patch: u32,
}

/// "<major>.<minor>.<patch>".
pub open spec fn version_text(v: Version) -> Seq<char> {
    decimal(v.major as nat) + "."@ + decimal(v.minor as nat) + "."@ + decimal(v.patch as nat)
}

/// Cargo's caret rule: from 1.0 on the major numbers must agree; below 1.0
/// the minor numbers must agree; and for 0.0.x the patch numbers too, so that
/// a 0.0.x version matches only itself.
pub open spec fn compatible(a: Version, b: Version) -> bool {
    if a.major == 0 && b.major == 0 {
        a.minor == b.minor && (a.minor != 0 || a.patch == b.patch)
    } else {
        a.major == b.major
    }
}

impl Version {
    /// The version `major.minor.patch`.
    pub fn new(major: u32, minor: u32, patch: u32) -> (v: Self)
        ensures
            v.major == major,
            v.minor == minor,
            v.patch == patch,
    {
        Version { major, minor, patch }
    }

    /// The dotted rendering.
    pub fn display(&self) -> (r: String)
        ensures
            r@ == version_text(*self),
    {
        let a = u64_to_string(self.major as u64);
        let b = u64_to_string(self.minor as u64);
        let c = u64_to_string(self.patch as u64);
        let mut r = concat2(a.as_str(), ".");
        r.append(b.as_str());
        r.append(".");
        r.append(c.as_str());
        r
    }

    /// The next patch release.
    pub fn bump_patch(&self) -> (v: Version)
        requires
            self.patch < u32::MAX,
        ensures
            v == (Version { major: self.major, minor: self.minor, patch: (self.patch + 1) as u32 }),
    {
        Version::new(self.major, self.minor, self.patch + 1)
    }

    /// The next minor release, with the patch number reset.
    pub fn bump_minor(&self) -> (v: Version)
        requires
            self.minor < u32::MAX,
        ensures
            v == (Version { major: self.major, minor: (self.minor + 1) as u32, patch: 0 }),
    {
        Version::new(self.major, self.minor + 1, 0)
    }

    /// The next major release, with minor and patch reset.
    pub fn bump_major(&self) -> (v: Version)
        requires
            self.major < u32::MAX,
        ensures
            v == (Version { major: (self.major + 1) as u32, minor: 0, patch: 0 }),
    {
        Version::new(self.major + 1, 0, 0)
    }

    /// Whether `other` may replace `self` under the caret rule.
    pub fn is_compatible_with(&self, other: &Version) -> (r: bool)
        ensures
            r == compatible(*self, *other),
    {
        if self.major == 0 && other.major == 0 {
            self.minor == other.minor && (self.minor != 0 || self.patch == other.patch)
        } else {
            self.major == other.major
        }
    }
}

/// Caret compatibility is an equivalence: reflexive, symmetric and transitive.
pub proof fn lemma_compatible_equivalence(a: Version, b: Version, c: Version)
    ensures
        compatible(a, a),
        compatible(a, b) == compatible(b, a),
        compatible(a, b) && compatible(b, c) ==> compatible(a, c),
{
}

/// From 1.0 on, two versions are compatible exactly when their major numbers
/// are equal; below 1.0 (both majors zero) exactly when their minor numbers
/// are equal, and for 0.0.x exactly when minor and patch numbers both are.
pub proof fn lemma_caret_rule(a: Version, b: Version)
    ensures
        (a.major != 0 || b.major != 0) ==> (compatible(a, b) <==> a.major == b.major),
        (a.major == 0 && b.major == 0 && a.minor != 0) ==> (compatible(a, b) <==> a.minor == b.minor),
        (a.major == 0 && b.major == 0 && a.minor == 0) ==> (compatible(a, b) <==> (b.minor == 0
            && a.patch == b.patch)),
{
}

/// A patch release stays compatible except below 0.1 (where only the exact
/// version matches); a major release never does; a minor release stays
/// compatible exactly from 1.0 on.
pub proof fn lemma_bumps_and_compatibility(v: Version)
    requires
        v.patch < u32::MAX,
        v.minor < u32::MAX,
        v.major < u32::MAX,
    ensures
        compatible(v, Version { major: v.major, minor: v.minor, patch: (v.patch + 1) as u32 })
            == (v.major != 0 || v.minor != 0),
        !compatible(v, Version { major: (v.major + 1) as u32, minor: 0, patch: 0 }),
        compatible(v, Version { major: v.major, minor: (v.minor + 1) as u32, patch: 0 }) == (v.major != 0),
{
}

/// What each known requirement allows; unknown ones are named in the reply.
pub open spec fn range_explanation(spec: Seq<char>) -> Seq<char> {
    if spec == "^1.2.3"@ {
        ">=1.2.3 且 <2.0.0（默认的兼容性规则）"@
    } else if spec == "~1.2.3"@ {
        ">=1.2.3 且 <1.3.0（只允许 patch 升级）"@
    } else if spec == "1.2.*"@ {
        ">=1.2.0 且 <1.3.0（通配符）"@
    } else if spec == ">=1.0,<2.0"@ {
        ">=1.0.0 且 <2.0.0（显式范围）"@
    } else if spec == "=1.2.3"@ {
        "精确版本 1.2.3"@
    } else if spec == "^0.1.2"@ {
        ">=0.1.2 且 <0.2.0（0.x 版本更严格）"@
    } else if spec == "^0.0.3"@ {
        ">=0.0.3 且 <0.0.4（0.0.x 只匹配精确版本）"@
    } else {
        "未知版本规格: "@ + spec
    }
}

/// Explains a version requirement.
pub fn explain_version_range(spec: &str) -> (r: String)
    ensures
        r@ == range_explanation(spec@),
{
    if str_eq(spec, "^1.2.3") {
        String::from_str(">=1.2.3 且 <2.0.0（默认的兼容性规则）")
    } else if str_eq(spec, "~1.2.3") {
        String::from_str(">=1.2.3 且 <1.3.0（只允许 patch 升级）")
    } else if str_eq(spec, "1.2.*") {
        String::from_str(">=1.2.0 且 <1.3.0（通配符）")
    } else if str_eq(spec, ">=1.0,<2.0") {
        String::from_str(">=1.0.0 且 <2.0.0（显式范围）")
    } else if str_eq(spec, "=1.2.3") {
        String::from_str("精确版本 1.2.3")
    } else if str_eq(spec, "^0.1.2") {
        String::from_str(">=0.1.2 且 <0.2.0（0.x 版本更严格）")
    } else if str_eq(spec, "^0.0.3") {
        String::from_str(">=0.0.3 且 <0.0.4（0.0.x 只匹配精确版本）")
    } else {
        concat2("未知版本规格: ", spec)
    }
}

} // verus!
