//! The size check that an expansion places before a declaration: its
//! diagnostic, its source text, and what it decides for a given size.
use vstd::prelude::*;

use crate::decimal::{decimal_digits, push_decimal};

verus! {

/// Which relation between the computed size and the stated size is asserted.
#[derive(Clone, Copy, Debug, PartialEq, Eq, Structural)]
pub enum CheckKind {
    /// The computed size equals the stated size.
    Exact,
    /// The computed size is at most the stated size.
    AtMost,
}

/// Whether a structure whose computed size is `actual` passes a check of
/// `kind` against `size`.
pub open spec fn size_holds(kind: CheckKind, size: nat, actual: nat) -> bool {
    match kind {
        CheckKind::Exact => actual == size,
        CheckKind::AtMost => actual <= size,
    }
}

/// The message with which a failed check stops the build.
pub open spec fn diagnostic(kind: CheckKind, name: Seq<char>, size: nat) -> Seq<char> {
    match kind {
        CheckKind::Exact => "size of '"@ + name + "' is not "@ + decimal_digits(size) + " bytes"@,
        CheckKind::AtMost => "'"@ + name + "' does not fit in "@ + decimal_digits(size)
            + " bytes"@,
    }
}

/// `s` as the body of a string literal: each `"` and `\` is preceded by `\`.
pub open spec fn escaped(s: Seq<char>) -> Seq<char>
    decreases s.len(),
{
    if s.len() == 0 {
        Seq::empty()
    } else if s.last() == '"' || s.last() == '\\' {
        escaped(s.drop_last()) + seq!['\\', s.last()]
    } else {
        escaped(s.drop_last()) + seq![s.last()]
    }
}

/// The comparison operator that the emitted assertion applies.
pub open spec fn operator(kind: CheckKind) -> Seq<char> {
    match kind {
        CheckKind::Exact => "=="@,
        CheckKind::AtMost => "<="@,
    }
}

/// The source text of the check: a constant named `_`, which no other code
/// can refer to, whose initializer asserts the relation at compile time and
/// fails with the diagnostic.
pub open spec fn check_source(kind: CheckKind, name: Seq<char>, size: nat) -> Seq<char> {
    "const _: () = assert!(std::mem::size_of::<"@ + name + ">() "@ + operator(kind) + " "@
        + decimal_digits(size) + "usize, \""@ + escaped(diagnostic(kind, name, size)) + "\");"@
}

/// Appends `s` to `out` as the body of a string literal.
pub fn push_escaped(out: &mut String, s: &str)
    ensures
        final(out)@ == old(out)@ + escaped(s@),
{
    let n = s.unicode_len();
    let ghost start = out@;
    let mut i: usize = 0;
    assert(s@.subrange(0, 0) =~= Seq::<char>::empty());
    while i < n
        invariant
            n == s@.len(),
            i <= n,
            out@ == start + escaped(s@.subrange(0, i as int)),
        decreases n - i,
    {
        let c = s.get_char(i);
        if c == '"' || c == '\\' {
            let slash = "\\";
            proof {
                reveal_strlit("\\");
            }
            out.append(slash);
        }
        let one = s.substring_char(i, i + 1);
        out.append(one);
        proof {
            let p = s@.subrange(0, i + 1);
            assert(p.drop_last() =~= s@.subrange(0, i as int));
            assert(p.last() == c);
            assert(one@ =~= seq![c]);
            if c == '"' || c == '\\' {
                assert(out@ =~= start + escaped(p));
            } else {
                assert(out@ =~= start + escaped(p));
            }
        }
        i = i + 1;
    }
    assert(s@.subrange(0, n as int) =~= s@);
}

/// The assertion that an expansion emits for one structure.
#[derive(Debug)]
pub struct SizeCheck {
    /// Which relation is asserted.
    pub kind: CheckKind,
    /// The name of the structure.
    pub name: String,
    /// The stated size in bytes: the exact size or the largest allowed one.
    pub size: usize,
}

impl SizeCheck {
    /// Whether a structure whose computed size is `actual` passes this check.
    pub open spec fn holds(&self, actual: nat) -> bool {
        size_holds(self.kind, self.size as nat, actual)
    }

    /// The message with which this check stops the build when it fails.
    pub open spec fn spec_message(&self) -> Seq<char> {
        diagnostic(self.kind, self.name@, self.size as nat)
    }

    /// The source text of this check.
    pub open spec fn spec_source(&self) -> Seq<char> {
        check_source(self.kind, self.name@, self.size as nat)
    }

    /// The message with which this check stops the build when it fails.
    pub fn message(&self) -> (r: String)
        ensures
            r@ == self.spec_message(),
    {
        let mut r = String::new();
        match self.kind {
            CheckKind::Exact => {
                r.append("size of '");
                r.append(self.name.as_str());
                r.append("' is not ");
                push_decimal(&mut r, self.size);
                r.append(" bytes");
            },
            CheckKind::AtMost => {
                r.append("'");
                r.append(self.name.as_str());
                r.append("' does not fit in ");
                push_decimal(&mut r, self.size);
                r.append(" bytes");
            },
        }
        assert(r@ =~= self.spec_message());
        r
    }

    /// The source text of this check.
    pub fn source(&self) -> (r: String)
        ensures
            r@ == self.spec_source(),
    {
        let message = self.message();
        let mut r = String::new();
        r.append("const _: () = assert!(std::mem::size_of::<");
        r.append(self.name.as_str());
        r.append(">() ");
        match self.kind {
            CheckKind::Exact => r.append("=="),
            CheckKind::AtMost => r.append("<="),
        }
        r.append(" ");
        push_decimal(&mut r, self.size);
        r.append("usize, \"");
        push_escaped(&mut r, message.as_str());
        r.append("\");");
        assert(r@ =~= self.spec_source());
        r
    }

    /// What the build does with this check for a structure whose computed
    /// size is `actual`: it goes on, or it stops with the check's message.
    pub fn evaluate(&self, actual: usize) -> (r: Result<(), String>)
        ensures
            r is Ok <==> self.holds(actual as nat),
            r matches Err(m) ==> m@ == self.spec_message(),
    {
        let passes = match self.kind {
            CheckKind::Exact => actual == self.size,
            CheckKind::AtMost => actual <= self.size,
        };
        if passes {
            Ok(())
        } else {
            Err(self.message())
        }
    }
}

} // verus!
