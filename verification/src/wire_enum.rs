//! The generation mechanism behind every enumeration type of the model.
//!
//! Dozens of protocol fields share one pattern: a nominally distinct type
//! that wraps a fixed-width raw integer, never fails to construct, and
//! resolves a closed table of named constants. An implementation of
//! [`WireEnum`] supplies only that data — the type's name, its view onto the
//! raw integer, its table — and everything behavioural (name resolution,
//! debug rendering, the wire codec) is written and proved here once, so every
//! instantiation behaves identically in shape.

use crate::wire::{dec_chars, decode_raw, encode_raw, spec_decode};
use vstd::prelude::*;

verus! {

/// The declared name of raw value `v`: the first table entry that carries it.
pub open spec fn lookup(table: Seq<(Seq<char>, u8)>, v: u8) -> Option<Seq<char>>
    decreases table.len(),
{
    if table.len() == 0 {
        None
    } else if table[0].1 == v {
        Some(table[0].0)
    } else {
        lookup(table.drop_first(), v)
    }
}

/// No two entries of a table declare the same raw value.
pub open spec fn distinct_values(table: Seq<(Seq<char>, u8)>) -> bool {
    forall|i: int, j: int| 0 <= i < j < table.len() ==> table[i].1 != table[j].1
}

/// One instantiation of the enumeration pattern.
///
/// An implementor supplies pure data: the type's name, the view onto the
/// wrapped raw integer, the total construction and reading paths, and the
/// compile-time table of named constants, together with proof that the table
/// is well formed and that the raw integer is the value's whole identity.
pub trait WireEnum: Sized + Copy {
    /// The table of named constants: an ordered, compile-time map from a
    /// subset of raw values to human-readable names.
    spec fn table_spec() -> Seq<(Seq<char>, u8)>;

    /// The type's own name, as the debug rendering prints it.
    spec fn kind_name_spec() -> Seq<char>;

    /// The wrapped raw integer.
    spec fn raw_spec(self) -> u8;

    /// The table never declares one raw value twice.
    proof fn table_distinct()
        ensures
            distinct_values(Self::table_spec()),
    ;

    /// Two values of one enumeration type are equal exactly when their raw
    /// integers are: values built from equal raw integers are equal, whatever
    /// path built them, and values built from distinct ones are not.
    proof fn raw_determines(a: Self, b: Self)
        ensures
            (a == b) <==> (a.raw_spec() == b.raw_spec()),
    ;

    /// The table of named constants, as runtime data.
    fn table() -> (t: Vec<(&'static str, u8)>)
        ensures
            t@.len() == Self::table_spec().len(),
            forall|i: int|
                0 <= i < t@.len() ==> (#[trigger] t@[i]).0@ == Self::table_spec()[i].0 && t@[i].1
                    == Self::table_spec()[i].1,
    ;

    /// The type's own name, as runtime data.
    fn kind_name() -> (s: &'static str)
        ensures
            s@ == Self::kind_name_spec(),
    ;

    /// Total construction from a raw integer: the value is stored unchanged,
    /// whether or not the table names it. This path never fails, so a remote
    /// service may introduce raw values at will.
    fn from_raw(v: u8) -> (r: Self)
        ensures
            r.raw_spec() == v,
    ;

    /// The stored raw integer, unchanged.
    fn raw(self) -> (r: u8)
        ensures
            r == self.raw_spec(),
    ;
}

/// A raw value found at position `i`, and at no earlier one, is what the
/// table lookup answers.
proof fn lemma_lookup_found(table: Seq<(Seq<char>, u8)>, v: u8, i: int)
    requires
        0 <= i < table.len(),
        table[i].1 == v,
        forall|k: int| 0 <= k < i ==> table[k].1 != v,
    ensures
        lookup(table, v) == Some(table[i].0),
    decreases table.len(),
{
    if i > 0 {
        lemma_lookup_found(table.drop_first(), v, i - 1);
    }
}

/// A raw value that no entry carries has no name.
proof fn lemma_lookup_none(table: Seq<(Seq<char>, u8)>, v: u8)
    requires
        forall|k: int| 0 <= k < table.len() ==> table[k].1 != v,
    ensures
        lookup(table, v) is None,
    decreases table.len(),
{
    if table.len() > 0 {
        lemma_lookup_none(table.drop_first(), v);
    }
}

/// Name resolution is sound and complete for a well-formed table: the lookup
/// answers `Some(n)` exactly when the table declares `v` under name `n`.
pub proof fn lemma_lookup_soundness(table: Seq<(Seq<char>, u8)>, v: u8)
    requires
        distinct_values(table),
    ensures
        forall|n: Seq<char>| lookup(table, v) == Some(n) <==> #[trigger] table.contains((n, v)),
    decreases table.len(),
{
    if table.len() == 0 {
    } else if table[0].1 == v {
        let n0 = table[0].0;
        assert(table[0] =~= (n0, v));
        assert forall|n: Seq<char>|
            lookup(table, v) == Some(n) <==> #[trigger] table.contains((n, v)) by {
            if n == n0 {
                assert(table.contains((n, v))) by {
                    assert(table[0] == (n, v));
                }
            } else {
                if table.contains((n, v)) {
                    let k: int = choose|k: int| 0 <= k < table.len() && table[k] == (n, v);
                    assert(table[k].0 == n && table[k].1 == v);
                    assert(k != 0);
                    assert(false);
                }
            }
        }
    } else {
        let rest = table.drop_first();
        assert(distinct_values(rest)) by {
            assert forall|i: int, j: int|
                0 <= i < j < rest.len() implies rest[i].1 != rest[j].1 by {
                assert(rest[i] == table[i + 1]);
                assert(rest[j] == table[j + 1]);
            }
        }
        lemma_lookup_soundness(rest, v);
        assert forall|n: Seq<char>|
            lookup(table, v) == Some(n) <==> #[trigger] table.contains((n, v)) by {
            assert(lookup(table, v) == lookup(rest, v));
            if rest.contains((n, v)) {
                let k: int = choose|k: int| 0 <= k < rest.len() && rest[k] == (n, v);
                assert(table[k + 1] == (n, v));
                assert(table.contains((n, v)));
            }
            if table.contains((n, v)) {
                let k: int = choose|k: int| 0 <= k < table.len() && table[k] == (n, v);
                assert(table[k].1 == v);
                assert(k != 0);
                assert(rest[k - 1] == (n, v));
                assert(rest.contains((n, v)));
            }
        }
    }
}

/// Name resolution over a whole enumeration type: for every raw value `v`,
/// the answer is `Some(n)` exactly when the type's table declares `v` under
/// name `n`, and `None` otherwise — absence of a name is a normal answer,
/// never an error.
pub proof fn lemma_name_soundness<T: WireEnum>(v: u8)
    ensures
        forall|n: Seq<char>|
            lookup(T::table_spec(), v) == Some(n) <==> #[trigger] T::table_spec().contains((n, v)),
{
    T::table_distinct();
    lemma_lookup_soundness(T::table_spec(), v);
}

/// The wire round trip over a whole enumeration type: the numeral an
/// encoded value writes decodes back to exactly that value's raw integer,
/// for every value, named or not.
pub proof fn lemma_wire_round_trip<T: WireEnum>(v: T)
    ensures
        spec_decode(dec_chars(v.raw_spec() as nat)) == Some(v.raw_spec()),
{
    crate::wire::lemma_decode_encode(v.raw_spec());
}

/// Resolve the declared name of `v`, shared by every enumeration type.
pub fn resolve_name<T: WireEnum>(v: T) -> (r: Option<&'static str>)
    ensures
        match r {
            Some(s) => lookup(T::table_spec(), v.raw_spec()) == Some(s@),
            None => lookup(T::table_spec(), v.raw_spec()) is None,
        },
{
    let raw: u8 = v.raw();
    let table = T::table();
    let n: usize = table.len();
    let mut i: usize = 0;
    while i < n
        invariant
            0 <= i <= n,
            n == table@.len(),
            raw == v.raw_spec(),
            table@.len() == T::table_spec().len(),
            forall|k: int|
                0 <= k < table@.len() ==> (#[trigger] table@[k]).0@ == T::table_spec()[k].0
                    && table@[k].1 == T::table_spec()[k].1,
            forall|k: int| 0 <= k < i ==> T::table_spec()[k].1 != raw,
        decreases n - i,
    {
        let (name, value) = table[i];
        if value == raw {
            proof {
                lemma_lookup_found(T::table_spec(), raw, i as int);
            }
            return Some(name);
        }
        i += 1;
    }
    proof {
        lemma_lookup_none(T::table_spec(), raw);
    }
    None
}

/// How a value prints for diagnostics: the declared name beside the raw
/// value when the table knows it, else the raw value alone, clearly marked
/// as an unnamed instance.
pub open spec fn spec_debug_chars(
    kind_name: Seq<char>,
    table: Seq<(Seq<char>, u8)>,
    raw: u8,
) -> Seq<char> {
    match lookup(table, raw) {
        Some(n) => kind_name + " { name: \""@ + n + "\", value: "@ + dec_chars(raw as nat)
            + " }"@,
        None => kind_name + "("@ + dec_chars(raw as nat) + ")"@,
    }
}

/// Render `v` for diagnostics, shared by every enumeration type.
pub fn debug_repr<T: WireEnum>(v: T) -> (s: String)
    ensures
        s@ == spec_debug_chars(T::kind_name_spec(), T::table_spec(), v.raw_spec()),
{
    let raw_text = encode_raw(v.raw());
    let mut s = String::new();
    s.append(T::kind_name());
    match resolve_name(v) {
        Some(n) => {
            s.append(" { name: \"");
            s.append(n);
            s.append("\", value: ");
            s.append(raw_text.as_str());
            s.append(" }");
            proof {
                assert(s@ =~= spec_debug_chars(T::kind_name_spec(), T::table_spec(), v.raw_spec()));
            }
        },
        None => {
            s.append("(");
            s.append(raw_text.as_str());
            s.append(")");
            proof {
                assert(s@ =~= spec_debug_chars(T::kind_name_spec(), T::table_spec(), v.raw_spec()));
            }
        },
    }
    s
}

/// Serialize `v` for the wire: exactly the decimal numeral of its raw value,
/// never a wrapper object or a name string.
pub fn wire_encode<T: WireEnum>(v: T) -> (s: String)
    ensures
        s@ == dec_chars(v.raw_spec() as nat),
{
    encode_raw(v.raw())
}

/// Decode a wire text as an enumeration value.
///
/// Succeeds on the numeral of every raw value of the backing width, named or
/// not; only a text that is no such numeral reads as `None`.
pub fn wire_decode<T: WireEnum>(s: &str) -> (r: Option<T>)
    ensures
        match r {
            Some(t) => spec_decode(s@) == Some(t.raw_spec()),
            None => spec_decode(s@) is None,
        },
{
    match decode_raw(s) {
        Some(v) => Some(T::from_raw(v)),
        None => None,
    }
}

} // verus!
