//! The parsed input of the generator: a function declaration and the arguments
//! of the annotation on it.
//!
//! These types hold what a parser found, as plain values: a tree of enums and
//! structs with strings at its leaves. The contracts of the generator read the
//! tree as it is, and each string by the text it holds.

use vstd::prelude::*;

verus! {

/// A type as written in a declaration.
#[derive(Debug, PartialEq, Eq)]
pub enum TypeExpr {
    /// A path such as `bool` or `std::result::Result<T, E>`.
    Path(Path),
    /// A tuple, with its elements in order.
    Tuple(Vec<TypeExpr>),
    /// Any other type: a reference, an array, a function pointer and so on.
    Other,
}

/// A path: segments separated by `::`.
#[derive(Debug, PartialEq, Eq)]
pub struct Path {
    pub segments: Vec<PathSegment>,
}

/// One segment of a path: an identifier and what follows it.
#[derive(Debug, PartialEq, Eq)]
pub struct PathSegment {
    pub ident: String,
    pub arguments: PathArguments,
}

/// What follows the identifier of a path segment.
#[derive(Debug, PartialEq, Eq)]
pub enum PathArguments {
    /// Nothing, as in `bool`.
    Empty,
    /// Arguments in angle brackets, as in `Result<T, E>`.
    AngleBracketed(Vec<GenericArgument>),
    /// Arguments in round brackets, as in `Fn(A) -> B`.
    Parenthesized,
}

/// One argument between angle brackets.
#[derive(Debug, PartialEq, Eq)]
pub enum GenericArgument {
    /// A type.
    Type(TypeExpr),
    /// A lifetime, a constant, a binding or a constraint.
    Other,
}

/// A function declaration, as far as the generator reads it.
#[derive(Debug, PartialEq, Eq)]
pub struct FunctionDeclaration {
    /// The function's name.
    pub name: String,
    /// The number of parameters.
    pub arity: usize,
    /// The declared return type, if one is written.
    pub output: Option<TypeExpr>,
    /// Whether the function is declared `async`.
    pub is_async: bool,
    /// The declaration as it was written, body included.
    pub source: String,
}

/// One argument of the annotation.
#[derive(Debug, PartialEq, Eq)]
pub enum NestedMeta {
    /// A structured argument: `name`, `name(...)` or `name = literal`.
    Meta(Meta),
    /// A literal.
    Lit(Lit),
}

/// A structured argument of the annotation.
#[derive(Debug, PartialEq, Eq)]
pub enum Meta {
    /// A bare path, such as `diff` or `_`.
    Path(Path),
    /// A path with arguments of its own, such as `message("text", diff)`.
    List(MetaList),
    /// A path with a value, such as `message = "text"`.
    NameValue(MetaNameValue),
}

/// A path followed by arguments in round brackets.
#[derive(Debug, PartialEq, Eq)]
pub struct MetaList {
    pub path: Path,
    pub nested: Vec<NestedMeta>,
}

/// A path followed by `=` and a literal.
#[derive(Debug, PartialEq, Eq)]
pub struct MetaNameValue {
    pub path: Path,
    pub lit: Lit,
}

/// A literal.
#[derive(Debug, PartialEq, Eq)]
pub enum Lit {
    /// A string literal, by the text it denotes.
    Str(String),
    /// A literal of any other kind.
    Other,
}

/// The last segment of a path, if there is one.
pub open spec fn final_segment(path: Path) -> Option<PathSegment> {
    if path.segments@.len() == 0 {
        None
    } else {
        Some(path.segments@.last())
    }
}

/// Whether a path ends in a segment with the identifier `ident`.
pub open spec fn ends_in(path: Path, ident: Seq<char>) -> bool {
    path.segments@.len() > 0 && path.segments@.last().ident@ =~= ident
}

impl Path {
    /// The last segment of the path, if there is one.
    pub fn final_segment(&self) -> (segment: Option<&PathSegment>)
        ensures
            match segment {
                Some(s) => final_segment(*self) == Some(*s),
                None => final_segment(*self).is_none(),
            },
    {
        let n = self.segments.len();
        if n == 0 {
            None
        } else {
            Some(&self.segments[n - 1])
        }
    }

    /// Whether the path ends in a segment with the identifier `ident`.
    pub fn ends_in(&self, ident: &str) -> (found: bool)
        ensures
            found == ends_in(*self, ident@),
    {
        match self.final_segment() {
            Some(segment) => segment.ident == String::from_str(ident),
            None => false,
        }
    }
}

} // verus!
