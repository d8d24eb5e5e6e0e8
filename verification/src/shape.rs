//! The shapes of return type that the generator accepts, and how a declared
//! return type is classified.

use vstd::prelude::*;
use crate::error::GenerationError;
use crate::syntax::FunctionDeclaration;
use crate::syntax::GenericArgument;
use crate::syntax::PathArguments;
use crate::syntax::PathSegment;
use crate::syntax::TypeExpr;
use crate::syntax::ends_in;

verus! {

/// What the wrapped function returns, as far as the generated macro cares.
///
/// The number in a tuple shape is the number of elements of the tuple. The
/// comparison looks at the first two, so a shape is [well
/// formed](ReturnShape::well_formed) only with two elements or more; the
/// shapes that [`get_return_type`] gives are.
#[derive(Clone, Copy, Debug, PartialEq, Eq, Structural)]
pub enum ReturnShape {
    /// `bool`: the macro asserts that the result is true.
    Boolean,
    /// A tuple of that many elements: the macro asserts that the first two are
    /// equal.
    Tuple(u8),
    /// `Result<bool, _>`.
    FailableBoolean,
    /// `Result<(..), _>`, with the number of elements of the tuple.
    FailableTuple(u8),
}

impl ReturnShape {
    /// Whether the function returns a `Result`.
    pub open spec fn is_failable(self) -> bool {
        self is FailableBoolean || self is FailableTuple
    }

    /// Whether the value that is asserted on is a tuple.
    pub open spec fn is_tuple(self) -> bool {
        self is Tuple || self is FailableTuple
    }

    /// The shape of the value that is asserted on: the shape itself, or that
    /// of the `Ok` value.
    pub open spec fn payload(self) -> ReturnShape {
        match self {
            ReturnShape::FailableBoolean => ReturnShape::Boolean,
            ReturnShape::FailableTuple(n) => ReturnShape::Tuple(n),
            _ => self,
        }
    }

    /// Whether the assertion finds what it looks at: a tuple that is compared
    /// has a first and a second element.
    pub open spec fn well_formed(self) -> bool {
        self.is_tuple() ==> self.tuple_len() >= 2
    }

    /// The number of elements of the tuple that is asserted on; 0 for `bool`.
    pub open spec fn tuple_len(self) -> nat {
        match self {
            ReturnShape::Tuple(n) => n as nat,
            ReturnShape::FailableTuple(n) => n as nat,
            _ => 0,
        }
    }
}

/// The first argument between the angle brackets of a segment, where it is a
/// type.
pub open spec fn first_type_argument(segment: PathSegment) -> Option<TypeExpr> {
    match segment.arguments {
        PathArguments::AngleBracketed(args) => if args@.len() > 0 {
            match args@[0] {
                GenericArgument::Type(ty) => Some(ty),
                GenericArgument::Other => None,
            }
        } else {
            None
        },
        _ => None,
    }
}

/// The shape of a tuple of `len` elements: the comparison needs a first and a
/// second element, and a shape can record 255 elements at most.
pub open spec fn tuple_shape(len: nat) -> Option<u8> {
    if 2 <= len <= u8::MAX {
        Some(len as u8)
    } else {
        None
    }
}

/// The shape of a return type whose last segment is `segment`, a `Result`:
/// it goes by the first argument of the segment, which must be a type, and
/// that type `bool` or a tuple of two elements or more.
pub open spec fn result_shape(segment: PathSegment) -> Result<ReturnShape, GenerationError> {
    match first_type_argument(segment) {
        Some(TypeExpr::Path(path)) => if ends_in(path, "bool"@) {
            Ok(ReturnShape::FailableBoolean)
        } else {
            Err(GenerationError::UnsupportedResultType)
        },
        Some(TypeExpr::Tuple(elems)) => match tuple_shape(elems@.len()) {
            Some(n) => Ok(ReturnShape::FailableTuple(n)),
            None => Err(GenerationError::UnsupportedResultType),
        },
        _ => Err(GenerationError::UnsupportedResultType),
    }
}

/// The shape of a declared return type.
///
/// A tuple of two elements or more is a tuple shape. A path counts by its last
/// segment: `bool` is a boolean, `Result` goes by its first argument. A
/// function without a return type, and every other type, has no shape.
pub open spec fn return_shape(output: Option<TypeExpr>) -> Result<
    ReturnShape,
    GenerationError,
> {
    match output {
        None => Err(GenerationError::MissingReturnType),
        Some(TypeExpr::Tuple(elems)) => match tuple_shape(elems@.len()) {
            Some(n) => Ok(ReturnShape::Tuple(n)),
            None => Err(GenerationError::UnsupportedReturnType),
        },
        Some(TypeExpr::Path(path)) => if ends_in(path, "bool"@) {
            Ok(ReturnShape::Boolean)
        } else if ends_in(path, "Result"@) {
            result_shape(path.segments@.last())
        } else {
            Err(GenerationError::UnsupportedReturnType)
        },
        Some(TypeExpr::Other) => Err(GenerationError::UnsupportedReturnType),
    }
}

/// The number of elements of a tuple, where a shape can record it.
fn tuple_len(elems: &Vec<TypeExpr>) -> (len: Option<u8>)
    ensures
        len == tuple_shape(elems@.len()),
{
    if 2 <= elems.len() && elems.len() <= 255 {
        Some(elems.len() as u8)
    } else {
        None
    }
}

/// Classifies a return type that ends in the segment `path_segment`, a
/// `Result`, by the first argument of that segment.
pub fn get_return_result_type(path_segment: &PathSegment) -> (shape: Result<
    ReturnShape,
    GenerationError,
>)
    ensures
        shape == result_shape(*path_segment),
{
    let args = match &path_segment.arguments {
        PathArguments::AngleBracketed(args) => args,
        _ => { return Err(GenerationError::UnsupportedResultType); },
    };
    if args.len() == 0 {
        return Err(GenerationError::UnsupportedResultType);
    }
    let arg_type = match &args[0] {
        GenericArgument::Type(arg_type) => arg_type,
        GenericArgument::Other => { return Err(GenerationError::UnsupportedResultType); },
    };
    match arg_type {
        TypeExpr::Path(arg_path) => {
            if arg_path.ends_in("bool") {
                Ok(ReturnShape::FailableBoolean)
            } else {
                Err(GenerationError::UnsupportedResultType)
            }
        },
        TypeExpr::Tuple(elems) => match tuple_len(elems) {
            Some(n) => Ok(ReturnShape::FailableTuple(n)),
            None => Err(GenerationError::UnsupportedResultType),
        },
        TypeExpr::Other => Err(GenerationError::UnsupportedResultType),
    }
}

/// Classifies the declared return type of `item`.
///
/// A tuple has a shape from two elements on, the two that are compared, and
/// up to 255, the most that a shape can record. Any other tuple is refused
/// like a type that is no tuple.
pub fn get_return_type(item: &FunctionDeclaration) -> (shape: Result<ReturnShape, GenerationError>)
    ensures
        shape == return_shape(item.output),
{
    let return_type = match &item.output {
        None => { return Err(GenerationError::MissingReturnType); },
        Some(return_type) => return_type,
    };
    match return_type {
        TypeExpr::Path(path) => {
            match path.final_segment() {
                None => Err(GenerationError::UnsupportedReturnType),
                Some(last_segment) => {
                    if path.ends_in("bool") {
                        Ok(ReturnShape::Boolean)
                    } else if path.ends_in("Result") {
                        get_return_result_type(last_segment)
                    } else {
                        Err(GenerationError::UnsupportedReturnType)
                    }
                },
            }
        },
        TypeExpr::Tuple(elems) => match tuple_len(elems) {
            Some(n) => Ok(ReturnShape::Tuple(n)),
            None => Err(GenerationError::UnsupportedReturnType),
        },
        TypeExpr::Other => Err(GenerationError::UnsupportedReturnType),
    }
}

} // verus!
