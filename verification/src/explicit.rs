//! Generation with the assertion chosen by the caller rather than read off the
//! return type: [`assert_fn`] checks that the result is true, [`assert_eq_fn`]
//! that the first two elements of the result are equal. The message is given
//! as `message = "text"`.

use vstd::prelude::*;
use crate::layout::assertion;
use crate::layout::assertion_of;
use crate::layout::equality_call;
use crate::layout::guard_close;
use crate::layout::guard_open;
use crate::layout::line;
use crate::layout::line_of;
use crate::layout::macro_for;
use crate::layout::truth_call;
use crate::layout::write_macro;
use crate::literal::escape;
use crate::literal::escaped;
use crate::syntax::FunctionDeclaration;
use crate::syntax::Lit;
use crate::syntax::Meta;
use crate::syntax::NestedMeta;
use crate::syntax::TypeExpr;
use crate::syntax::ends_in;

verus! {

/// The assertion that the generated macro makes.
#[derive(Clone, Copy, Debug, PartialEq, Eq, Structural)]
pub enum AssertType {
    /// The result is true.
    True,
    /// The first two elements of the result are equal.
    Eq,
}

/// The assertion of a kind, up to its message.
pub open spec fn assert_call(assert_type: AssertType) -> Seq<char> {
    match assert_type {
        AssertType::True => truth_call(),
        AssertType::Eq => equality_call(),
    }
}

/// Whether a declared return type is a path that ends in `Result`.
pub open spec fn returns_result(output: Option<TypeExpr>) -> bool {
    output matches Some(TypeExpr::Path(path)) && ends_in(path, "Result"@)
}

/// The text that an argument of the annotation gives as the message, where it
/// has the form `message = "text"`.
pub open spec fn message_text(arg: NestedMeta) -> Option<Seq<char>> {
    match arg {
        NestedMeta::Meta(Meta::NameValue(pair)) => if ends_in(pair.path, "message"@) {
            match pair.lit {
                Lit::Str(text) => Some(text@),
                Lit::Other => None,
            }
        } else {
            None
        },
        _ => None,
    }
}

/// The message of an annotation: the text of the first argument that gives
/// one.
pub open spec fn first_message_text(args: Seq<NestedMeta>) -> Option<Seq<char>>
    decreases args.len(),
{
    if args.len() == 0 {
        None
    } else {
        match message_text(args.first()) {
            Some(text) => Some(text),
            None => first_message_text(args.drop_first()),
        }
    }
}

/// What the first arm adds to its assertion: the message as a string literal
/// that denotes it, or nothing where the annotation gives none.
pub open spec fn message_arguments(args: Seq<NestedMeta>) -> Seq<char> {
    match first_message_text(args) {
        Some(text) => ", \""@ + escaped(text) + "\""@,
        None => Seq::empty(),
    }
}

/// The text generated for `item` with the assertion `assert_type`. The
/// comparison sees the result by reference; the other assertion copies the
/// boolean it reads.
pub open spec fn artifact(
    assert_type: AssertType,
    args: Seq<NestedMeta>,
    item: FunctionDeclaration,
) -> Seq<char> {
    macro_for(
        item,
        assert_type is Eq,
        guard_open(returns_result(item.output)),
        guard_close(returns_result(item.output)),
        line(assertion(assert_call(assert_type), message_arguments(args))),
        assert_call(assert_type),
    )
}

/// Writes what guards the assertion where the declared return type of `item`
/// is a path that ends in `Result`: the line that opens the guard and the
/// line that closes it. Both are empty for any other declaration.
pub fn get_result_block(item: &FunctionDeclaration) -> (guard: (String, String))
    ensures
        guard.0@ == guard_open(returns_result(item.output)),
        guard.1@ == guard_close(returns_result(item.output)),
{
    let guarded = match &item.output {
        Some(TypeExpr::Path(path)) => path.ends_in("Result"),
        _ => false,
    };
    if guarded {
        (String::from_str("if let Ok(result) = result {"), String::from_str("}"))
    } else {
        (String::new(), String::new())
    }
}

/// Writes the assertion of a kind, up to its message.
pub fn get_assert_call(assert_type: &AssertType) -> (call: String)
    ensures
        call@ == assert_call(*assert_type),
{
    match assert_type {
        AssertType::True => String::from_str("assert!(result"),
        AssertType::Eq => String::from_str("assert_eq!(result.0, result.1"),
    }
}

/// Writes what the first arm adds to its assertion: the text of the first
/// argument of the form `message = "text"`, as a string literal; nothing
/// where there is no such argument.
pub fn get_message(args: &[NestedMeta]) -> (arguments: String)
    ensures
        arguments@ == message_arguments(args@),
{
    let ghost all = args@;
    let mut i: usize = 0;
    assert(all.skip(0) =~= all);
    while i < args.len()
        invariant
            i <= args.len(),
            all == args@,
            first_message_text(all) == first_message_text(all.skip(i as int)),
        decreases args.len() - i,
    {
        let ghost rest = all.skip(i as int);
        assert(rest.first() == args@[i as int]);
        assert(rest.drop_first() =~= all.skip(i + 1));
        match &args[i] {
            NestedMeta::Meta(Meta::NameValue(pair)) => {
                if pair.path.ends_in("message") {
                    match &pair.lit {
                        Lit::Str(text) => {
                            return String::from_str(", \"").concat(
                                escape(text.as_str()).as_str(),
                            ).concat("\"");
                        },
                        Lit::Other => {},
                    }
                }
            },
            _ => {},
        }
        i += 1;
    }
    String::new()
}

/// Generates the macro for `item` that makes the assertion `assert_type`.
pub fn create_assert_macro(
    assert_type: AssertType,
    args: &[NestedMeta],
    item: &FunctionDeclaration,
) -> (text: String)
    ensures
        text@ == artifact(assert_type, args@, *item),
{
    let guard = get_result_block(item);
    let assert_call = get_assert_call(&assert_type);
    let message = get_message(args);

    let checks = line_of(assertion_of(assert_call.as_str(), message.as_str()).as_str());
    let borrowed = match assert_type {
        AssertType::Eq => true,
        AssertType::True => false,
    };
    write_macro(item, borrowed, &guard, checks.as_str(), assert_call.as_str())
}

/// Generates the macro for `item` that asserts that the result is true.
pub fn assert_fn(args: &[NestedMeta], item: &FunctionDeclaration) -> (text: String)
    ensures
        text@ == artifact(AssertType::True, args@, *item),
{
    create_assert_macro(AssertType::True, args, item)
}

/// Generates the macro for `item` that asserts that the first two elements of
/// the result are equal.
pub fn assert_eq_fn(args: &[NestedMeta], item: &FunctionDeclaration) -> (text: String)
    ensures
        text@ == artifact(AssertType::Eq, args@, *item),
{
    create_assert_macro(AssertType::Eq, args, item)
}

} // verus!
