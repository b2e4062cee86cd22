//! Where the artifact of a configuration is installed. The place is derived
//! from the version and the platform alone, so that an installed artifact is
//! found again on the next run and another version never takes its place.

use crate::options::{DatabaseOptions, OptionsModel};
use crate::system::System;
use crate::text::{characters, ends_with};
use vstd::prelude::*;

verus! {

/// The start value of the hash.
pub const OFFSET: u64 = 0xcbf29ce484222325;

/// The multiplier of the hash.
pub const PRIME: u64 = 0x100000001b3;

/// One step of the hash: the character's code point is mixed in, then the
/// state is multiplied, modulo two to the power 64.
pub open spec fn mixed(state: u64, c: char) -> u64 {
    (((state ^ (c as u32 as u64)) as nat * PRIME as nat) % 0x1_0000_0000_0000_0000) as u64
}

/// The hash of the first `n` characters of a text.
pub open spec fn hashed_upto(s: Seq<char>, n: nat) -> u64
    decreases n,
{
    if n == 0 {
        OFFSET
    } else {
        mixed(hashed_upto(s, (n - 1) as nat), s[n - 1])
    }
}

/// The hash of a text: the same for the same text, on every run.
pub open spec fn hashed(s: Seq<char>) -> u64 {
    hashed_upto(s, s.len())
}

/// The text of one hexadecimal digit.
pub open spec fn hex_digit(n: u64) -> Seq<char> {
    if n == 0 {
        "0"@
    } else if n == 1 {
        "1"@
    } else if n == 2 {
        "2"@
    } else if n == 3 {
        "3"@
    } else if n == 4 {
        "4"@
    } else if n == 5 {
        "5"@
    } else if n == 6 {
        "6"@
    } else if n == 7 {
        "7"@
    } else if n == 8 {
        "8"@
    } else if n == 9 {
        "9"@
    } else if n == 10 {
        "a"@
    } else if n == 11 {
        "b"@
    } else if n == 12 {
        "c"@
    } else if n == 13 {
        "d"@
    } else if n == 14 {
        "e"@
    } else {
        "f"@
    }
}

/// The first `n` of the sixteen hexadecimal digits of a number, the most
/// significant first.
pub open spec fn hex_upto(h: u64, n: nat) -> Seq<char>
    decreases n,
{
    if n == 0 || n > 16 {
        Seq::empty()
    } else {
        hex_upto(h, (n - 1) as nat) + hex_digit((h >> ((64 - 4 * n) as u64)) & 0xf)
    }
}

/// The sixteen hexadecimal digits of a number.
pub open spec fn hex(h: u64) -> Seq<char> {
    hex_upto(h, 16)
}

/// What the hash is taken of: the version and the platform.
pub open spec fn install_key(version: Seq<char>, system: System) -> Seq<char> {
    version + "-"@ + system.identifier()
}

/// The name under which an artifact is installed:
/// `weaviate-{version}-{platform}-{hash}`.
pub open spec fn install_name(version: Seq<char>, system: System) -> Seq<char> {
    "weaviate-"@ + install_key(version, system) + "-"@ + hex(hashed(install_key(version, system)))
}

/// A name below a directory.
pub open spec fn joined(dir: Seq<char>, name: Seq<char>) -> Seq<char> {
    if "/"@.is_suffix_of(dir) {
        dir + name
    } else {
        dir + "/"@ + name
    }
}

/// Where the artifact of a configuration is installed: below its binary
/// directory, under its install name.
pub open spec fn install_place(options: OptionsModel) -> Seq<char> {
    joined(options.binary_dir, install_name(options.image.version, options.image.system))
}

/// The local copy of an artifact.
#[derive(Debug, Clone, PartialEq, Eq, Hash)]
pub struct InstalledArtifact {
    /// Where it is installed.
    pub path: String,
    /// Its version tag.
    pub version: String,
    /// Its platform.
    pub system: System,
}

/// What has to be done for the artifact of a configuration.
#[derive(Debug, Clone, PartialEq, Eq, Hash)]
pub enum Provision {
    /// It is installed already and is used as it is.
    Reuse(InstalledArtifact),
    /// It has to be acquired from the image target and installed at the path
    /// of the artifact.
    Acquire(InstalledArtifact),
}

impl Provision {
    /// The artifact, installed or to be installed.
    pub open spec fn artifact(self) -> InstalledArtifact {
        match self {
            Provision::Reuse(artifact) => artifact,
            Provision::Acquire(artifact) => artifact,
        }
    }
}

/// Computes the hash of a text.
pub fn hash_text(text: &str) -> (h: u64)
    ensures
        h == hashed(text@),
{
    let v = characters(text);
    let mut h: u64 = OFFSET;
    let mut i: usize = 0;
    while i < v.len()
        invariant
            i <= v.len(),
            v@ == text@,
            h == hashed_upto(text@, i as nat),
        decreases v.len() - i,
    {
        let c = v[i];
        let code: u32 = #[verifier::truncate] (c as u32);
        assert(hashed_upto(text@, (i + 1) as nat) == mixed(hashed_upto(text@, i as nat), c));
        h = (h ^ (code as u64)).wrapping_mul(PRIME);
        i += 1;
    }
    h
}

/// The text of one hexadecimal digit.
fn digit_text(n: u64) -> (text: &'static str)
    requires
        n < 16,
    ensures
        text@ == hex_digit(n),
{
    if n == 0 {
        "0"
    } else if n == 1 {
        "1"
    } else if n == 2 {
        "2"
    } else if n == 3 {
        "3"
    } else if n == 4 {
        "4"
    } else if n == 5 {
        "5"
    } else if n == 6 {
        "6"
    } else if n == 7 {
        "7"
    } else if n == 8 {
        "8"
    } else if n == 9 {
        "9"
    } else if n == 10 {
        "a"
    } else if n == 11 {
        "b"
    } else if n == 12 {
        "c"
    } else if n == 13 {
        "d"
    } else if n == 14 {
        "e"
    } else {
        "f"
    }
}

/// Writes a number as sixteen hexadecimal digits.
pub fn hex_text(h: u64) -> (text: String)
    ensures
        text@ == hex(h),
{
    let mut text = String::new();
    let mut n: u64 = 0;
    while n < 16
        invariant
            n <= 16,
            text@ == hex_upto(h, n as nat),
        decreases 16 - n,
    {
        n += 1;
        let shift: u64 = 64 - 4 * n;
        let nibble: u64 = (h >> shift) & 0xf;
        assert(nibble < 16) by (bit_vector)
            requires
                nibble == (h >> shift) & 0xf,
        ;
        text.append(digit_text(nibble));
    }
    text
}

/// The name under which the artifact of a version and a platform is
/// installed.
pub fn install_name_of(version: &str, system: System) -> (name: String)
    ensures
        name@ == install_name(version@, system),
{
    let mut key = String::from_str(version);
    key.append("-");
    key.append(system.as_ref());
    let digest = hex_text(hash_text(key.as_str()));
    let mut name = String::from_str("weaviate-");
    name.append(key.as_str());
    name.append("-");
    name.append(digest.as_str());
    name
}

/// Where the artifact of a configuration is installed.
pub fn install_path(options: &DatabaseOptions) -> (path: String)
    ensures
        path@ == install_place(options@),
{
    let name = install_name_of(options.image().version(), options.image().system());
    let mut path = String::from_str(options.binary_dir());
    if !ends_with(options.binary_dir(), "/") {
        path.append("/");
    }
    path.append(name.as_str());
    path
}

/// Decides what to do for the artifact of a configuration, given whether
/// something is installed at its place: what is there is reused, what is not
/// is acquired.
pub fn provision(options: &DatabaseOptions, present: bool) -> (plan: Provision)
    ensures
        plan is Reuse == present,
        plan.artifact().path@ == install_place(options@),
        plan.artifact().version@ == options@.image.version,
        plan.artifact().system == options@.image.system,
{
    let artifact = InstalledArtifact {
        path: install_path(options),
        version: String::from_str(options.image().version()),
        system: options.image().system(),
    };
    if present {
        Provision::Reuse(artifact)
    } else {
        Provision::Acquire(artifact)
    }
}

/// Every digit text is one character.
proof fn hex_digit_is_one(n: u64)
    ensures
        hex_digit(n).len() == 1,
{
    reveal_strlit("0");
    reveal_strlit("1");
    reveal_strlit("2");
    reveal_strlit("3");
    reveal_strlit("4");
    reveal_strlit("5");
    reveal_strlit("6");
    reveal_strlit("7");
    reveal_strlit("8");
    reveal_strlit("9");
    reveal_strlit("a");
    reveal_strlit("b");
    reveal_strlit("c");
    reveal_strlit("d");
    reveal_strlit("e");
    reveal_strlit("f");
}

/// The first `n` digits are `n` characters.
proof fn hex_upto_length(h: u64, n: nat)
    requires
        n <= 16,
    ensures
        hex_upto(h, n).len() == n,
    decreases n,
{
    if n > 0 {
        hex_upto_length(h, (n - 1) as nat);
        hex_digit_is_one((h >> ((64 - 4 * n) as u64)) & 0xf);
    }
}

/// On one platform, two versions are installed under the same name only if
/// they are the same version: changing the version changes the install name.
pub proof fn install_name_tells_versions_apart(v1: Seq<char>, v2: Seq<char>, system: System)
    requires
        install_name(v1, system) == install_name(v2, system),
    ensures
        v1 == v2,
{
    let n1 = install_name(v1, system);
    let n2 = install_name(v2, system);
    hex_upto_length(hashed(install_key(v1, system)), 16);
    hex_upto_length(hashed(install_key(v2, system)), 16);
    let lead = "weaviate-"@.len() as int;
    assert(n1.len() == lead + v1.len() + "-"@.len() + system.identifier().len() + "-"@.len() + 16);
    assert(n2.len() == lead + v2.len() + "-"@.len() + system.identifier().len() + "-"@.len() + 16);
    assert(v1.len() == v2.len());
    assert(n1.subrange(lead, lead + v1.len()) =~= v1);
    assert(n2.subrange(lead, lead + v2.len()) =~= v2);
}

/// Below one binary directory, on one platform, two versions are installed at
/// the same place only if they are the same version.
pub proof fn install_place_tells_versions_apart(
    dir: Seq<char>,
    v1: Seq<char>,
    v2: Seq<char>,
    system: System,
)
    requires
        joined(dir, install_name(v1, system)) == joined(dir, install_name(v2, system)),
    ensures
        v1 == v2,
{
    let n1 = install_name(v1, system);
    let n2 = install_name(v2, system);
    let p1 = joined(dir, n1);
    let p2 = joined(dir, n2);
    let lead = (p1.len() - n1.len()) as int;
    assert(p1.subrange(lead, p1.len() as int) =~= n1);
    assert(p2.subrange(lead, p2.len() as int) =~= n2);
    assert(n1.len() == n2.len());
    install_name_tells_versions_apart(v1, v2, system);
}

} // verus!
