//! Plain descriptions of the parsed items that the macros analyse.

use vstd::prelude::*;

verus! {

/// A type, as far as the macros look into it. `origin` identifies the
/// parsed type that the description was made from.
pub struct TypeDesc {
    pub origin: usize,
    pub kind: TypeKind,
}

/// The shape of a type.
pub enum TypeKind {
    /// A path type, `a::b::C<..>`, with its segments.
    Path(Vec<PathSegmentDesc>),
    /// A reference type, `&T` or `&mut T`.
    Reference(Box<TypeDesc>),
    /// Any other type.
    Other,
}

/// One segment of a path.
pub struct PathSegmentDesc {
    pub ident: String,
    pub arguments: PathArgsDesc,
}

/// The arguments of a path segment.
pub enum PathArgsDesc {
    /// No arguments.
    Bare,
    /// `<...>` arguments.
    AngleBracketed(Vec<GenericArgDesc>),
    /// `(...) -> ...` arguments.
    Parenthesized,
}

/// One `<...>` argument.
pub enum GenericArgDesc {
    /// A type argument.
    Type(TypeDesc),
    /// A lifetime, constant or binding.
    Other,
}

/// A typed parameter: its name, if its pattern is a plain identifier, and
/// its type.
pub struct ParamDesc {
    pub name: Option<String>,
    pub ty: TypeDesc,
}

/// Where an error points in the source.
#[derive(Debug, Clone, Copy, PartialEq, Eq, Structural)]
pub enum ErrorSpan {
    /// The function's name.
    Name,
    /// The `const` keyword.
    Constness,
    /// The `unsafe` keyword.
    Unsafety,
    /// The generics.
    Generics,
    /// The pattern of parameter `i`.
    Param(usize),
    /// The whole item.
    Item,
    /// The self type of an impl block.
    SelfType,
    /// The signature of method `i`.
    Signature(usize),
}

/// An error the macro reports at compile time.
#[derive(Debug)]
pub struct MacroError {
    pub span: ErrorSpan,
    pub message: String,
}

/// Whether `s` is the text `lit`.
pub fn text_is(s: &String, lit: &str) -> (r: bool)
    ensures
        r == (s@ == lit@),
{
    let t = lit.to_owned();
    *s == t
}

/// An error at `span` with message `message`.
pub fn macro_error(span: ErrorSpan, message: &str) -> (e: MacroError)
    ensures
        e.span == span,
        e.message@ == message@,
{
    MacroError { span, message: message.to_owned() }
}

} // verus!
