//! The two attribute transforms: read the size argument and the annotated
//! declaration, and produce the check together with the declaration.
use vstd::prelude::*;

use crate::check::{check_source, CheckKind, SizeCheck};
use crate::decimal::{parse_decimal, usize_of_decimal};

verus! {

/// The base-10 digits of the integer literal that syn reads from `text`, or
/// nothing where syn does not read `text` as exactly one integer literal.
pub uninterp spec fn int_literal_digits(text: Seq<char>) -> Option<Seq<char>>;

/// The name of the structure that syn reads from `text`, or nothing where syn
/// does not read `text` as exactly one structure declaration.
pub uninterp spec fn struct_name_of(text: Seq<char>) -> Option<Seq<char>>;

/// Relies on `syn::parse_str::<syn::LitInt>`, which reads `text` as one
/// integer literal (a leading `-` included) and nothing else, and on
/// `syn::LitInt::base10_digits`, which gives that literal's value in base 10
/// without its suffix. Both depend on the text alone.
#[verifier::external_body]
fn literal_digits(text: &str) -> (r: Option<String>)
    ensures
        int_literal_digits(text@) == match r {
            Some(d) => Some(d@),
            None => None::<Seq<char>>,
        },
{
    syn::parse_str::<syn::LitInt>(text).ok().map(|lit| lit.base10_digits().to_string())
}

/// Relies on `syn::parse_str::<syn::ItemStruct>`, which reads `text` as one
/// structure declaration and nothing else, and gives its `ident` field. The
/// outcome depends on the text alone.
#[verifier::external_body]
fn struct_name(text: &str) -> (r: Option<String>)
    ensures
        struct_name_of(text@) == match r {
            Some(n) => Some(n@),
            None => None::<Seq<char>>,
        },
{
    syn::parse_str::<syn::ItemStruct>(text).ok().map(|item| item.ident.to_string())
}

/// Why a transform produced no expansion.
#[derive(Clone, Copy, Debug, PartialEq, Eq, Structural)]
pub enum ExpandError {
    /// The argument is not one integer literal whose value fits in `usize`:
    /// it is empty, holds more than one token or another kind of token, or
    /// its value is negative or too large.
    MalformedArgument,
    /// The annotated item is not a structure declaration.
    NotAStruct,
}

/// The diagnostic that stands for an error.
pub open spec fn error_text(e: ExpandError) -> Seq<char> {
    match e {
        ExpandError::MalformedArgument => "expected one integer literal that fits in usize"@,
        ExpandError::NotAStruct => "expected `struct`: only a structure declaration can be annotated"@,
    }
}

impl ExpandError {
    /// The diagnostic that stands for this error.
    pub fn message(&self) -> (r: String)
        ensures
            r@ == error_text(*self),
    {
        match self {
            ExpandError::MalformedArgument => String::from_str(
                "expected one integer literal that fits in usize",
            ),
            ExpandError::NotAStruct => String::from_str(
                "expected `struct`: only a structure declaration can be annotated",
            ),
        }
    }
}

/// The size that the argument text `attr` states, where it states one.
pub open spec fn argument_value(attr: Seq<char>) -> Option<usize> {
    match int_literal_digits(attr) {
        Some(d) => usize_of_decimal(d),
        None => None,
    }
}

/// What a transform reads from its inputs: the structure's name and the
/// stated size, or the first error met (the argument is read first).
pub open spec fn planned(attr: Seq<char>, item: Seq<char>) -> Result<(Seq<char>, usize), ExpandError> {
    match argument_value(attr) {
        None => Err(ExpandError::MalformedArgument),
        Some(n) => match struct_name_of(item) {
            None => Err(ExpandError::NotAStruct),
            Some(name) => Ok((name, n)),
        },
    }
}

/// Reads the size argument of an attribute from its text.
pub fn size_argument(attr: &str) -> (r: Result<usize, ExpandError>)
    ensures
        r == match argument_value(attr@) {
            Some(n) => Ok(n),
            None => Err(ExpandError::MalformedArgument),
        },
{
    match literal_digits(attr) {
        None => Err(ExpandError::MalformedArgument),
        Some(d) => match parse_decimal(d.as_str()) {
            None => Err(ExpandError::MalformedArgument),
            Some(n) => Ok(n),
        },
    }
}

/// The output of a transform: the check, then the declaration as written.
#[derive(Debug)]
pub struct Expansion {
    /// The assertion placed before the declaration.
    pub check: SizeCheck,
    /// The text of the annotated declaration.
    pub item: String,
}

impl Expansion {
    /// The source text of the expansion.
    pub open spec fn spec_source(&self) -> Seq<char> {
        self.check.spec_source() + self.item@
    }

    /// The source text of the expansion: the check, directly followed by the
    /// declaration.
    pub fn source(&self) -> (r: String)
        ensures
            r@ == self.spec_source(),
    {
        let mut r = self.check.source();
        r.append(self.item.as_str());
        r
    }
}

/// Whether `r` is what a transform of `kind` owes for the argument text
/// `attr` and the declaration text `item`.
pub open spec fn expands_to(
    kind: CheckKind,
    attr: Seq<char>,
    item: Seq<char>,
    r: Result<Expansion, ExpandError>,
) -> bool {
    match planned(attr, item) {
        Err(e) => r == Err::<Expansion, ExpandError>(e),
        Ok((name, n)) => r matches Ok(x) && x.check.kind == kind && x.check.name@ == name
            && x.check.size == n && x.item@ == item,
    }
}

/// The source text of the expansion owed for `attr` and `item`.
pub open spec fn expansion_text(kind: CheckKind, attr: Seq<char>, item: Seq<char>) -> Result<
    Seq<char>,
    ExpandError,
> {
    match planned(attr, item) {
        Err(e) => Err(e),
        Ok((name, n)) => Ok(check_source(kind, name, n as nat) + item),
    }
}

fn expand(kind: CheckKind, attr: &str, item: &str) -> (r: Result<Expansion, ExpandError>)
    ensures
        expands_to(kind, attr@, item@, r),
{
    let size = match size_argument(attr) {
        Ok(n) => n,
        Err(e) => return Err(e),
    };
    let name = match struct_name(item) {
        Some(n) => n,
        None => return Err(ExpandError::NotAStruct),
    };
    Ok(Expansion { check: SizeCheck { kind, name, size }, item: String::from_str(item) })
}

/// The exact-size transform: asserts that the structure declared by `item`
/// occupies exactly the number of bytes that `attr` states.
pub fn assert_size(attr: &str, item: &str) -> (r: Result<Expansion, ExpandError>)
    ensures
        expands_to(CheckKind::Exact, attr@, item@, r),
{
    expand(CheckKind::Exact, attr, item)
}

/// The max-size transform: asserts that the structure declared by `item`
/// occupies at most the number of bytes that `attr` states.
pub fn assert_size_fits(attr: &str, item: &str) -> (r: Result<Expansion, ExpandError>)
    ensures
        expands_to(CheckKind::AtMost, attr@, item@, r),
{
    expand(CheckKind::AtMost, attr, item)
}

} // verus!
