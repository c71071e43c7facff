//! What holds of every expansion.
use vstd::prelude::*;

use crate::check::{diagnostic, CheckKind};
use crate::decimal::decimal_digits;
use crate::expand::{argument_value, expands_to, struct_name_of, ExpandError, Expansion};

verus! {

/// Whether `part` occurs in `s` as a contiguous run.
pub open spec fn contains(s: Seq<char>, part: Seq<char>) -> bool {
    exists|i: int|
        0 <= i && i + part.len() <= s.len() && #[trigger] s.subrange(i, i + part.len()) == part
}

/// `b` occurs in `a + b + c`.
proof fn lemma_contains_middle(a: Seq<char>, b: Seq<char>, c: Seq<char>)
    ensures
        contains(a + b + c, b),
{
    let s = a + b + c;
    assert(s.subrange(a.len() as int, (a.len() + b.len()) as int) =~= b);
}

/// A failed check's message names the structure and the stated size.
proof fn lemma_diagnostic_names(kind: CheckKind, name: Seq<char>, size: nat)
    ensures
        contains(diagnostic(kind, name, size), name),
        contains(diagnostic(kind, name, size), decimal_digits(size)),
{
    let d = decimal_digits(size);
    match kind {
        CheckKind::Exact => {
            let (a, b, c) = ("size of '"@, "' is not "@, " bytes"@);
            assert(diagnostic(kind, name, size) =~= a + name + (b + d + c));
            lemma_contains_middle(a, name, b + d + c);
            assert(diagnostic(kind, name, size) =~= (a + name + b) + d + c);
            lemma_contains_middle(a + name + b, d, c);
        },
        CheckKind::AtMost => {
            let (a, b, c) = ("'"@, "' does not fit in "@, " bytes"@);
            assert(diagnostic(kind, name, size) =~= a + name + (b + d + c));
            lemma_contains_middle(a, name, b + d + c);
            assert(diagnostic(kind, name, size) =~= (a + name + b) + d + c);
            lemma_contains_middle(a + name + b, d, c);
        },
    }
}

/// Where `attr` states a size of `actual` bytes and `item` declares a
/// structure whose computed size is `actual`, the exact-size transform
/// succeeds, its check passes, and the declaration follows the check exactly
/// as written.
pub proof fn lemma_exact_size_passes(
    attr: Seq<char>,
    item: Seq<char>,
    actual: nat,
    r: Result<Expansion, ExpandError>,
)
    requires
        argument_value(attr) matches Some(n) && n == actual,
        struct_name_of(item) is Some,
        expands_to(CheckKind::Exact, attr, item, r),
    ensures
        r matches Ok(x) && x.check.holds(actual) && x.item@ == item && x.spec_source()
            == x.check.spec_source() + item,
{
}

/// Where `attr` states a size other than the computed size `actual` of the
/// structure that `item` declares, the exact-size check fails, with a message
/// that names the structure and the stated size.
pub proof fn lemma_exact_size_fails(
    attr: Seq<char>,
    item: Seq<char>,
    actual: nat,
    r: Result<Expansion, ExpandError>,
)
    requires
        argument_value(attr) matches Some(n) && n != actual,
        struct_name_of(item) is Some,
        expands_to(CheckKind::Exact, attr, item, r),
    ensures
        r matches Ok(x) && !x.check.holds(actual) && contains(
            x.check.spec_message(),
            struct_name_of(item).unwrap(),
        ) && contains(x.check.spec_message(), decimal_digits(argument_value(attr).unwrap() as nat)),
{
    let x = r.unwrap();
    lemma_diagnostic_names(x.check.kind, x.check.name@, x.check.size as nat);
}

/// Where `attr` states a size no smaller than the computed size `actual` of
/// the structure that `item` declares, the max-size transform succeeds, its
/// check passes, and the declaration follows the check exactly as written.
pub proof fn lemma_max_size_passes(
    attr: Seq<char>,
    item: Seq<char>,
    actual: nat,
    r: Result<Expansion, ExpandError>,
)
    requires
        argument_value(attr) matches Some(m) && actual <= m,
        struct_name_of(item) is Some,
        expands_to(CheckKind::AtMost, attr, item, r),
    ensures
        r matches Ok(x) && x.check.holds(actual) && x.item@ == item && x.spec_source()
            == x.check.spec_source() + item,
{
}

/// Where `attr` states a size smaller than the computed size `actual` of the
/// structure that `item` declares, the max-size check fails, with a message
/// that names the structure and the stated size.
pub proof fn lemma_max_size_fails(
    attr: Seq<char>,
    item: Seq<char>,
    actual: nat,
    r: Result<Expansion, ExpandError>,
)
    requires
        argument_value(attr) matches Some(m) && actual > m,
        struct_name_of(item) is Some,
        expands_to(CheckKind::AtMost, attr, item, r),
    ensures
        r matches Ok(x) && !x.check.holds(actual) && contains(
            x.check.spec_message(),
            struct_name_of(item).unwrap(),
        ) && contains(x.check.spec_message(), decimal_digits(argument_value(attr).unwrap() as nat)),
{
    let x = r.unwrap();
    lemma_diagnostic_names(x.check.kind, x.check.name@, x.check.size as nat);
}

/// Two runs of a transform on the same texts agree: both fail with the same
/// error, or both produce the same source text, whose check passes for the
/// same sizes and fails with the same message.
pub proof fn lemma_expansion_deterministic(
    kind: CheckKind,
    attr: Seq<char>,
    item: Seq<char>,
    r1: Result<Expansion, ExpandError>,
    r2: Result<Expansion, ExpandError>,
)
    requires
        expands_to(kind, attr, item, r1),
        expands_to(kind, attr, item, r2),
    ensures
        r1 is Err ==> r1 == r2,
        r1 is Ok <==> r2 is Ok,
        r1 matches Ok(x1) ==> r2 matches Ok(x2) && x1.spec_source() == x2.spec_source()
            && x1.check.spec_message() == x2.check.spec_message() && forall|actual: nat|
            x1.check.holds(actual) == #[trigger] x2.check.holds(actual),
{
}

/// An expansion introduces one item besides the declaration, a constant
/// named `_`, which no code can refer to; the declaration follows it exactly
/// as written.
pub proof fn lemma_expansion_adds_no_name(
    kind: CheckKind,
    attr: Seq<char>,
    item: Seq<char>,
    r: Result<Expansion, ExpandError>,
)
    requires
        expands_to(kind, attr, item, r),
    ensures
        r matches Ok(x) ==> x.spec_source() == "const _: () = "@ + x.spec_source().subrange(
            "const _: () = "@.len() as int,
            x.spec_source().len() - item.len(),
        ) + item,
{
    if let Ok(x) = r {
        let head = "const _: () = "@;
        let s = x.spec_source();
        let c = x.check.spec_source();
        reveal_strlit("const _: () = ");
        reveal_strlit("const _: () = assert!(std::mem::size_of::<");
        assert(head.len() <= c.len());
        assert(c.subrange(0, head.len() as int) =~= head);
        assert(s == c + item);
        assert(s =~= head + s.subrange(head.len() as int, s.len() - item.len()) + item);
    }
}

} // verus!
