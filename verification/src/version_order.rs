//! Precedence is a strict total order on versions, up to build metadata.

use crate::version::{
    bytes_part_at, bytes_precede, identifier_precedes, identifiers_part_at, identifiers_precede,
    precedes, same_precedence, IdentifierModel, VersionModel,
};
use vstd::prelude::*;
use vstd::utf8::{encode_utf8, encode_utf8_decode_utf8};

verus! {

/// No byte string comes before itself, and of two at most one comes before
/// the other.
pub proof fn lemma_byte_order_is_strict(a: Seq<u8>, b: Seq<u8>)
    ensures
        !bytes_precede(a, a),
        !(bytes_precede(a, b) && bytes_precede(b, a)),
{
    if bytes_precede(a, a) {
        let k = choose|k: int| #[trigger] bytes_part_at(a, a, k);
    }
    if bytes_precede(a, b) && bytes_precede(b, a) {
        let k = choose|k: int| #[trigger] bytes_part_at(a, b, k);
        let m = choose|m: int| #[trigger] bytes_part_at(b, a, m);
        if k < m {
            assert(b[k] == a[k]);
        } else if m < k {
            assert(a[m] == b[m]);
        }
    }
}

/// No identifier precedes itself, and of two at most one precedes the other.
pub proof fn lemma_identifier_order_is_strict(a: IdentifierModel, b: IdentifierModel)
    ensures
        !identifier_precedes(a, a),
        !(identifier_precedes(a, b) && identifier_precedes(b, a)),
{
    match (a, b) {
        (IdentifierModel::AlphaNumeric(s), IdentifierModel::AlphaNumeric(t)) => {
            lemma_byte_order_is_strict(encode_utf8(s), encode_utf8(t));
        },
        (IdentifierModel::AlphaNumeric(s), _) => {
            lemma_byte_order_is_strict(encode_utf8(s), encode_utf8(s));
        },
        _ => {},
    }
}

/// The order of byte strings is transitive.
pub proof fn lemma_byte_order_is_transitive(a: Seq<u8>, b: Seq<u8>, c: Seq<u8>)
    requires
        bytes_precede(a, b),
        bytes_precede(b, c),
    ensures
        bytes_precede(a, c),
{
    let k = choose|k: int| #[trigger] bytes_part_at(a, b, k);
    let m = choose|m: int| #[trigger] bytes_part_at(b, c, m);
    if k <= m {
        assert(bytes_part_at(a, c, k));
    } else {
        assert(a[m] == b[m]);
        assert(bytes_part_at(a, c, m));
    }
}

/// Two byte strings that agree before position `k` are equal, or one comes
/// before the other.
proof fn lemma_byte_order_is_total_from(a: Seq<u8>, b: Seq<u8>, k: int)
    requires
        0 <= k <= a.len(),
        k <= b.len(),
        forall|j: int| 0 <= j < k ==> a[j] == b[j],
    ensures
        a == b || bytes_precede(a, b) || bytes_precede(b, a),
    decreases a.len() - k,
{
    if k == a.len() {
        if k == b.len() {
            assert(a =~= b);
        } else {
            assert(bytes_part_at(a, b, k));
        }
    } else if k == b.len() {
        assert(bytes_part_at(b, a, k));
    } else if a[k] < b[k] {
        assert(bytes_part_at(a, b, k));
    } else if b[k] < a[k] {
        assert(bytes_part_at(b, a, k));
    } else {
        lemma_byte_order_is_total_from(a, b, k + 1);
    }
}

/// Of two byte strings that differ, one comes before the other.
pub proof fn lemma_byte_order_is_total(a: Seq<u8>, b: Seq<u8>)
    ensures
        a == b || bytes_precede(a, b) || bytes_precede(b, a),
{
    lemma_byte_order_is_total_from(a, b, 0);
}

/// The order of identifiers is transitive.
pub proof fn lemma_identifier_order_is_transitive(
    a: IdentifierModel,
    b: IdentifierModel,
    c: IdentifierModel,
)
    requires
        identifier_precedes(a, b),
        identifier_precedes(b, c),
    ensures
        identifier_precedes(a, c),
{
    match (a, b, c) {
        (
            IdentifierModel::AlphaNumeric(s),
            IdentifierModel::AlphaNumeric(t),
            IdentifierModel::AlphaNumeric(u),
        ) => {
            lemma_byte_order_is_transitive(encode_utf8(s), encode_utf8(t), encode_utf8(u));
        },
        _ => {},
    }
}

/// Of two identifiers that differ, one precedes the other.
pub proof fn lemma_identifier_order_is_total(a: IdentifierModel, b: IdentifierModel)
    ensures
        a == b || identifier_precedes(a, b) || identifier_precedes(b, a),
{
    match (a, b) {
        (IdentifierModel::AlphaNumeric(s), IdentifierModel::AlphaNumeric(t)) => {
            lemma_byte_order_is_total(encode_utf8(s), encode_utf8(t));
            encode_utf8_decode_utf8(s);
            encode_utf8_decode_utf8(t);
        },
        _ => {},
    }
}

/// No sequence of identifiers comes before itself, and of two at most one
/// comes before the other.
pub proof fn lemma_identifiers_order_is_strict(a: Seq<IdentifierModel>, b: Seq<IdentifierModel>)
    ensures
        !identifiers_precede(a, a),
        !(identifiers_precede(a, b) && identifiers_precede(b, a)),
{
    if identifiers_precede(a, a) {
        let k = choose|k: int| #[trigger] identifiers_part_at(a, a, k);
        lemma_identifier_order_is_strict(a[k], a[k]);
    }
    if identifiers_precede(a, b) && identifiers_precede(b, a) {
        let k = choose|k: int| #[trigger] identifiers_part_at(a, b, k);
        let m = choose|m: int| #[trigger] identifiers_part_at(b, a, m);
        if k < m {
            assert(b[k] == a[k]);
            lemma_identifier_order_is_strict(a[k], a[k]);
        } else if m < k {
            assert(a[m] == b[m]);
            lemma_identifier_order_is_strict(a[m], a[m]);
        } else {
            lemma_identifier_order_is_strict(a[k], b[k]);
        }
    }
}

/// The order of sequences of identifiers is transitive.
pub proof fn lemma_identifiers_order_is_transitive(
    a: Seq<IdentifierModel>,
    b: Seq<IdentifierModel>,
    c: Seq<IdentifierModel>,
)
    requires
        identifiers_precede(a, b),
        identifiers_precede(b, c),
    ensures
        identifiers_precede(a, c),
{
    let k = choose|k: int| #[trigger] identifiers_part_at(a, b, k);
    let m = choose|m: int| #[trigger] identifiers_part_at(b, c, m);
    if k < m {
        assert(b[k] == c[k]);
        assert(identifiers_part_at(a, c, k));
    } else if k == m {
        if k < a.len() {
            lemma_identifier_order_is_transitive(a[k], b[k], c[k]);
        }
        assert(identifiers_part_at(a, c, k));
    } else {
        assert(a[m] == b[m]);
        assert(identifiers_part_at(a, c, m));
    }
}

/// Two sequences of identifiers that agree before position `k` are equal,
/// or one comes before the other.
proof fn lemma_identifiers_order_is_total_from(
    a: Seq<IdentifierModel>,
    b: Seq<IdentifierModel>,
    k: int,
)
    requires
        0 <= k <= a.len(),
        k <= b.len(),
        forall|j: int| 0 <= j < k ==> a[j] == b[j],
    ensures
        a == b || identifiers_precede(a, b) || identifiers_precede(b, a),
    decreases a.len() - k,
{
    if k == a.len() {
        if k == b.len() {
            assert(a =~= b);
        } else {
            assert(identifiers_part_at(a, b, k));
        }
    } else if k == b.len() {
        assert(identifiers_part_at(b, a, k));
    } else {
        lemma_identifier_order_is_total(a[k], b[k]);
        if identifier_precedes(a[k], b[k]) {
            assert(identifiers_part_at(a, b, k));
        } else if identifier_precedes(b[k], a[k]) {
            assert(identifiers_part_at(b, a, k));
        } else {
            lemma_identifiers_order_is_total_from(a, b, k + 1);
        }
    }
}

/// No version precedes itself, and of two versions at most one precedes the
/// other.
pub proof fn lemma_precedence_is_strict(a: VersionModel, b: VersionModel)
    ensures
        !precedes(a, a),
        !(precedes(a, b) && precedes(b, a)),
{
    lemma_identifiers_order_is_strict(a.pre, b.pre);
    lemma_identifiers_order_is_strict(a.pre, a.pre);
}

/// Precedence is transitive.
pub proof fn lemma_precedence_is_transitive(a: VersionModel, b: VersionModel, c: VersionModel)
    requires
        precedes(a, b),
        precedes(b, c),
    ensures
        precedes(a, c),
{
    if a.major == b.major && b.major == c.major && a.minor == b.minor && b.minor == c.minor
        && a.patch == b.patch && b.patch == c.patch && c.pre.len() > 0 {
        lemma_identifiers_order_is_transitive(a.pre, b.pre, c.pre);
    }
}

/// Of two versions, one precedes the other, or they differ in build
/// metadata at most.
pub proof fn lemma_precedence_is_total(a: VersionModel, b: VersionModel)
    ensures
        precedes(a, b) || precedes(b, a) || same_precedence(a, b),
{
    lemma_identifiers_order_is_total_from(a.pre, b.pre, 0);
    if a.pre.len() == 0 && b.pre.len() == 0 {
        assert(a.pre =~= b.pre);
    }
}

/// Versions of the same precedence stand alike to every other version.
pub proof fn lemma_same_precedence_orders_alike(a: VersionModel, b: VersionModel, c: VersionModel)
    requires
        same_precedence(a, b),
    ensures
        precedes(a, c) == precedes(b, c),
        precedes(c, a) == precedes(c, b),
{
}

} // verus!
