//! Semantic versions: the data, their precedence and their text.

use crate::text::{decimal, decimal_text};
use vstd::prelude::*;
use vstd::utf8::encode_utf8;

verus! {

/// One dot-separated part of a pre-release or of build metadata.
#[derive(Debug, Clone, PartialEq, Eq)]
pub enum Identifier {
    /// A part made of digits only.
    Numeric(u64),
    /// A part with letters or hyphens in it.
    AlphaNumeric(String),
}

/// What an [`Identifier`] stands for.
pub enum IdentifierModel {
    Numeric(nat),
    AlphaNumeric(Seq<char>),
}

impl View for Identifier {
    type V = IdentifierModel;

    open spec fn view(&self) -> IdentifierModel {
        match self {
            Identifier::Numeric(n) => IdentifierModel::Numeric(*n as nat),
            Identifier::AlphaNumeric(s) => IdentifierModel::AlphaNumeric(s@),
        }
    }
}

/// A semantic version: three numbers, then the pre-release identifiers and
/// the build metadata, either of which may be empty.
#[derive(Debug, Clone, PartialEq, Eq)]
pub struct Version {
    pub major: u64,
    pub minor: u64,
    pub patch: u64,
    pub pre: Vec<Identifier>,
    pub build: Vec<Identifier>,
}

/// What a [`Version`] stands for.
pub struct VersionModel {
    pub major: nat,
    pub minor: nat,
    pub patch: nat,
    pub pre: Seq<IdentifierModel>,
    pub build: Seq<IdentifierModel>,
}

/// The identifiers that a vector of them stands for, in order.
pub open spec fn identifier_models(ids: Seq<Identifier>) -> Seq<IdentifierModel> {
    Seq::new(ids.len(), |i: int| ids[i]@)
}

impl View for Version {
    type V = VersionModel;

    open spec fn view(&self) -> VersionModel {
        VersionModel {
            major: self.major as nat,
            minor: self.minor as nat,
            patch: self.patch as nat,
            pre: identifier_models(self.pre@),
            build: identifier_models(self.build@),
        }
    }
}

/// The release `major.minor.patch`, with no pre-release and no build metadata.
pub open spec fn release(major: nat, minor: nat, patch: nat) -> VersionModel {
    VersionModel { major, minor, patch, pre: Seq::empty(), build: Seq::empty() }
}

/// `a` and `b` hold the same bytes before position `k`, and there `b` goes on
/// while `a` has ended or holds a smaller byte.
pub open spec fn bytes_part_at(a: Seq<u8>, b: Seq<u8>, k: int) -> bool {
    &&& 0 <= k <= a.len()
    &&& k < b.len()
    &&& forall|j: int| 0 <= j < k ==> a[j] == b[j]
    &&& (k == a.len() || a[k] < b[k])
}

/// `a` comes before `b` in the lexicographic order of byte strings.
pub open spec fn bytes_precede(a: Seq<u8>, b: Seq<u8>) -> bool {
    exists|k: int| #[trigger] bytes_part_at(a, b, k)
}

/// `a` comes before `b` in the order of strings, which is that of their
/// UTF-8 bytes. On ASCII text this is the ASCII sort order.
pub open spec fn text_precedes(a: Seq<char>, b: Seq<char>) -> bool {
    bytes_precede(encode_utf8(a), encode_utf8(b))
}

/// `a` has lower precedence than `b`: numbers go by value, text by the order
/// of strings, and a number comes before any text.
pub open spec fn identifier_precedes(a: IdentifierModel, b: IdentifierModel) -> bool {
    match (a, b) {
        (IdentifierModel::Numeric(x), IdentifierModel::Numeric(y)) => x < y,
        (IdentifierModel::Numeric(_), IdentifierModel::AlphaNumeric(_)) => true,
        (IdentifierModel::AlphaNumeric(_), IdentifierModel::Numeric(_)) => false,
        (IdentifierModel::AlphaNumeric(s), IdentifierModel::AlphaNumeric(t)) => text_precedes(
            s,
            t,
        ),
    }
}

/// `a` and `b` hold the same identifiers before position `k`, and there `b`
/// goes on while `a` has ended or holds an identifier of lower precedence.
pub open spec fn identifiers_part_at(
    a: Seq<IdentifierModel>,
    b: Seq<IdentifierModel>,
    k: int,
) -> bool {
    &&& 0 <= k <= a.len()
    &&& k < b.len()
    &&& forall|j: int| 0 <= j < k ==> a[j] == b[j]
    &&& (k == a.len() || identifier_precedes(a[k], b[k]))
}

/// `a` comes before `b`: at the first place where they differ `a` has the
/// lower identifier, or `a` is a proper prefix of `b`.
pub open spec fn identifiers_precede(a: Seq<IdentifierModel>, b: Seq<IdentifierModel>) -> bool {
    exists|k: int| #[trigger] identifiers_part_at(a, b, k)
}

/// `a` has lower precedence than `b`. The three numbers decide first, major
/// before minor before patch. Where they agree, a pre-release comes before
/// the release, and two pre-releases go by their identifiers. Build metadata
/// plays no part.
pub open spec fn precedes(a: VersionModel, b: VersionModel) -> bool {
    if a.major != b.major {
        a.major < b.major
    } else if a.minor != b.minor {
        a.minor < b.minor
    } else if a.patch != b.patch {
        a.patch < b.patch
    } else if a.pre.len() == 0 {
        false
    } else if b.pre.len() == 0 {
        true
    } else {
        identifiers_precede(a.pre, b.pre)
    }
}

/// `a` and `b` have the same precedence: they differ in build metadata at most.
pub open spec fn same_precedence(a: VersionModel, b: VersionModel) -> bool {
    &&& a.major == b.major
    &&& a.minor == b.minor
    &&& a.patch == b.patch
    &&& a.pre == b.pre
}

/// `semver::Version`'s order, asked by `<`: whether `a` has lower precedence
/// than `b`. Both versions are handed over field for field. The order goes
/// by major, minor and patch; then a pre-release comes before the release;
/// then the pre-release identifiers decide, one after another, a number
/// before any text, numbers by value and text as strings are ordered.
#[verifier::external_body]
fn semver_precedes(a: &Version, b: &Version) -> (r: bool)
    ensures
        r == precedes(a@, b@),
{
    let part = |id: &Identifier| match id {
        Identifier::Numeric(n) => semver::Identifier::Numeric(*n),
        Identifier::AlphaNumeric(s) => semver::Identifier::AlphaNumeric(s.clone()),
    };
    let outside = |v: &Version| semver::Version {
        major: v.major,
        minor: v.minor,
        patch: v.patch,
        pre: v.pre.iter().map(part).collect(),
        build: v.build.iter().map(part).collect(),
    };
    outside(a) < outside(b)
}

impl Version {
    /// The release `major.minor.patch`.
    pub fn new(major: u64, minor: u64, patch: u64) -> (v: Version)
        ensures
            v@ == release(major as nat, minor as nat, patch as nat),
    {
        let v = Version { major, minor, patch, pre: Vec::new(), build: Vec::new() };
        assert(v@.pre =~= Seq::empty());
        assert(v@.build =~= Seq::empty());
        v
    }

    /// Whether this version has lower precedence than `other`.
    pub fn precedes(&self, other: &Version) -> (r: bool)
        ensures
            r == precedes(self@, other@),
    {
        semver_precedes(self, other)
    }
}

/// The text of one identifier: a number in decimal, text as it is.
pub open spec fn identifier_text(id: IdentifierModel) -> Seq<char> {
    match id {
        IdentifierModel::Numeric(n) => decimal(n),
        IdentifierModel::AlphaNumeric(s) => s,
    }
}

/// The texts of `ids`, in order, with a dot between neighbours.
pub open spec fn dotted(ids: Seq<IdentifierModel>) -> Seq<char>
    decreases ids.len(),
{
    if ids.len() == 0 {
        Seq::empty()
    } else if ids.len() == 1 {
        identifier_text(ids[0])
    } else {
        dotted(ids.drop_last()) + seq!['.'] + identifier_text(ids.last())
    }
}

/// `mark` and the dotted identifiers, or nothing where there are none.
pub open spec fn marked(mark: char, ids: Seq<IdentifierModel>) -> Seq<char> {
    if ids.len() == 0 {
        Seq::empty()
    } else {
        seq![mark] + dotted(ids)
    }
}

/// The text of a version: `major.minor.patch`, then `-` and the pre-release
/// identifiers if there are any, then `+` and the build metadata if there is
/// any.
pub open spec fn version_text(v: VersionModel) -> Seq<char> {
    decimal(v.major) + seq!['.'] + decimal(v.minor) + seq!['.'] + decimal(v.patch) + marked(
        '-',
        v.pre,
    ) + marked('+', v.build)
}

impl Identifier {
    /// Writes the identifier.
    pub fn to_text(&self) -> (r: String)
        ensures
            r@ == identifier_text(self@),
    {
        match self {
            Identifier::Numeric(n) => decimal_text(*n),
            Identifier::AlphaNumeric(s) => s.clone(),
        }
    }
}

/// Appends to `out` the mark and the dotted identifiers, or nothing where
/// there are none.
fn append_marked(out: &mut String, mark: &str, ids: &Vec<Identifier>)
    requires
        mark@.len() == 1,
    ensures
        final(out)@ == old(out)@ + marked(mark@[0], identifier_models(ids@)),
{
    let ghost models = identifier_models(ids@);
    let ghost before = out@;
    if ids.len() == 0 {
        assert(out@ =~= before + marked(mark@[0], models));
        return ;
    }
    out.append(mark);
    assert(mark@ =~= seq![mark@[0]]);
    let mut i: usize = 0;
    while i < ids.len()
        invariant
            i <= ids.len(),
            models == identifier_models(ids@),
            out@ == before + seq![mark@[0]] + dotted(models.take(i as int)),
        decreases ids.len() - i,
    {
        if i > 0 {
            proof {
                reveal_strlit(".");
                assert("."@ =~= seq!['.']);
            }
            out.append(".");
        }
        let part = ids[i].to_text();
        out.append(part.as_str());
        proof {
            let next = models.take(i + 1);
            assert(next.drop_last() =~= models.take(i as int));
            assert(next.last() == ids@[i as int]@);
            assert(out@ =~= before + seq![mark@[0]] + dotted(next));
        }
        i = i + 1;
    }
    assert(models.take(ids.len() as int) =~= models);
    assert(out@ =~= before + marked(mark@[0], models));
}

impl Version {
    /// Writes the version.
    pub fn to_text(&self) -> (r: String)
        ensures
            r@ == version_text(self@),
    {
        proof {
            reveal_strlit(".");
            reveal_strlit("-");
            reveal_strlit("+");
            assert("."@ =~= seq!['.']);
        }
        let mut r = decimal_text(self.major);
        r.append(".");
        let minor = decimal_text(self.minor);
        r.append(minor.as_str());
        r.append(".");
        let patch = decimal_text(self.patch);
        r.append(patch.as_str());
        append_marked(&mut r, "-", &self.pre);
        append_marked(&mut r, "+", &self.build);
        r
    }
}

} // verus!
