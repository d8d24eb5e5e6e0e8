//! The generator: from a declaration and the arguments of its annotation to
//! the text of the macro, with the assertion that the return type asks for.

use vstd::prelude::*;
use crate::error::GenerationError;
use crate::layout::assertion;
use crate::layout::equality_call;
use crate::layout::guard_close;
use crate::layout::guard_open;
use crate::layout::line;
use crate::layout::line_of;
use crate::layout::assertion_of;
use crate::layout::macro_for;
use crate::layout::truth_call;
use crate::layout::write_macro;
use crate::literal::escape;
use crate::literal::escaped;
use crate::message::Binding;
use crate::message::BindingView;
use crate::message::MessageDirective;
use crate::message::MessageDirectiveView;
use crate::message::binding_views;
use crate::message::directive_view;
use crate::message::get_message;
use crate::message::message_directive;
use crate::shape::ReturnShape;
use crate::shape::get_return_type;
use crate::shape::return_shape;
use crate::syntax::FunctionDeclaration;
use crate::syntax::NestedMeta;
use crate::text::join;
use crate::text::join_strings;
use crate::text::texts;

verus! {

/// The assertion for a shape, up to its message: a boolean is asserted to be
/// true, the first two elements of a tuple to be equal.
pub open spec fn assert_call(shape: ReturnShape) -> Seq<char> {
    if shape.is_tuple() {
        equality_call()
    } else {
        truth_call()
    }
}

/// The names that the bindings give, in order.
pub open spec fn named(bindings: Seq<BindingView>) -> Seq<Seq<char>>
    decreases bindings.len(),
{
    if bindings.len() == 0 {
        Seq::empty()
    } else {
        match bindings.last() {
            BindingView::Named(name) => named(bindings.drop_last()).push(name),
            BindingView::Ignored => named(bindings.drop_last()),
        }
    }
}

/// Whether some binding names an element of the tuple.
pub open spec fn names_an_element(bindings: Seq<BindingView>) -> bool {
    exists|i: int| 0 <= i < bindings.len() && #[trigger] bindings[i] is Named
}

/// Whether a directive names an element of the tuple.
pub open spec fn has_named(directive: Option<MessageDirectiveView>) -> bool {
    match directive {
        Some(d) => names_an_element(d.bindings),
        None => false,
    }
}

/// There is a name exactly where some binding is named, and never more names
/// than bindings.
pub proof fn lemma_named_bindings(bindings: Seq<BindingView>)
    ensures
        named(bindings).len() <= bindings.len(),
        named(bindings).len() > 0 <==> names_an_element(bindings),
    decreases bindings.len(),
{
    if bindings.len() > 0 {
        let before = bindings.drop_last();
        lemma_named_bindings(before);
        if named(before).len() > 0 {
            let i = choose|i: int| 0 <= i < before.len() && #[trigger] before[i] is Named;
            assert(bindings[i] == before[i]);
        }
        if bindings.last() is Named {
            assert(bindings[bindings.len() - 1] is Named);
        }
        if names_an_element(bindings) {
            let i = choose|i: int| 0 <= i < bindings.len() && #[trigger] bindings[i] is Named;
            if i < before.len() {
                assert(before[i] is Named);
            }
        }
    }
}

/// How a binding is written in a pattern.
pub open spec fn binding_text(binding: BindingView) -> Seq<char> {
    match binding {
        BindingView::Named(name) => name,
        BindingView::Ignored => "_"@,
    }
}

/// The bindings, followed by as many `_` as it takes to reach `len` entries.
pub open spec fn padded(bindings: Seq<BindingView>, len: nat) -> Seq<BindingView> {
    if bindings.len() >= len {
        bindings
    } else {
        bindings + Seq::new((len - bindings.len()) as nat, |i: int| BindingView::Ignored)
    }
}

/// The entries of the pattern that takes a tuple of `len` elements apart.
pub open spec fn pattern_entries(bindings: Seq<BindingView>, len: nat) -> Seq<Seq<char>> {
    Seq::new(padded(bindings, len).len(), |i: int| binding_text(padded(bindings, len)[i]))
}

/// The statement that binds the names of the directive to the elements of the
/// result. It stands where `result` is a reference to the tuple, so each name
/// is bound to a reference to its element.
pub open spec fn destructuring(bindings: Seq<BindingView>, len: nat) -> Seq<char> {
    "let ("@ + join(pattern_entries(bindings, len), ", "@) + ") = result;"@
}

/// The statement before the assertion of the first arm: where the directive
/// names an element of a tuple, the tuple taken apart; else nothing.
pub open spec fn destructure_statement(
    directive: Option<MessageDirectiveView>,
    shape: ReturnShape,
) -> Seq<char> {
    if has_named(directive) && shape.is_tuple() {
        destructuring(directive->0.bindings, shape.tuple_len())
    } else {
        Seq::empty()
    }
}

/// The statement before the assertion of the first arm, or the error of a
/// directive that names an element where the function returns a boolean.
pub open spec fn tuple_destructure(
    directive: Option<MessageDirectiveView>,
    shape: ReturnShape,
) -> Result<Seq<char>, GenerationError> {
    if has_named(directive) && !shape.is_tuple() {
        Err(GenerationError::BindingsOnBoolean)
    } else {
        Ok(destructure_statement(directive, shape))
    }
}

/// The arguments that hand the named elements to the template: `name=name`
/// for each name.
pub open spec fn named_arguments(names: Seq<Seq<char>>) -> Seq<Seq<char>> {
    Seq::new(names.len(), |i: int| names[i] + "="@ + names[i])
}

/// What the first arm adds to its assertion: nothing without a directive;
/// else the template as a string literal that denotes it, and after it the
/// named elements.
pub open spec fn message_arguments(directive: Option<MessageDirectiveView>) -> Seq<char> {
    match directive {
        None => Seq::empty(),
        Some(d) => if !names_an_element(d.bindings) {
            ", \""@ + escaped(d.template) + "\""@
        } else {
            ", \""@ + escaped(d.template) + "\", "@ + join(
                named_arguments(named(d.bindings)),
                ", "@,
            )
        },
    }
}

/// The checks of the first arm: the statement that takes the tuple apart,
/// and the assertion with the message of the directive.
pub open spec fn exact_checks(
    shape: ReturnShape,
    directive: Option<MessageDirectiveView>,
) -> Seq<char> {
    line(destructure_statement(directive, shape)) + line(
        assertion(assert_call(shape), message_arguments(directive)),
    )
}

/// The text generated for a function of a given shape and directive. The
/// checks on a tuple see it by reference; those on a boolean copy it.
pub open spec fn artifact(
    item: FunctionDeclaration,
    shape: ReturnShape,
    directive: Option<MessageDirectiveView>,
) -> Seq<char> {
    macro_for(
        item,
        shape.is_tuple(),
        guard_open(shape.is_failable()),
        guard_close(shape.is_failable()),
        exact_checks(shape, directive),
        assert_call(shape),
    )
}

/// What is generated for the declaration `item` under an annotation with the
/// arguments `args`: the text, or the reason for which there is none.
pub open spec fn generated(args: Seq<NestedMeta>, item: FunctionDeclaration) -> Result<
    Seq<char>,
    GenerationError,
> {
    match return_shape(item.output) {
        Err(error) => Err(error),
        Ok(shape) => match tuple_destructure(message_directive(args), shape) {
            Err(error) => Err(error),
            Ok(_) => Ok(artifact(item, shape, message_directive(args))),
        },
    }
}

/// The text of a result, or its error.
pub open spec fn text_view(result: Result<String, GenerationError>) -> Result<
    Seq<char>,
    GenerationError,
> {
    match result {
        Ok(text) => Ok(text@),
        Err(error) => Err(error),
    }
}

/// Collects the names that the bindings give, in order.
fn collect_names(bindings: &Vec<Binding>) -> (names: Vec<String>)
    ensures
        texts(names@) == named(binding_views(bindings@)),
{
    let ghost all = binding_views(bindings@);
    let mut names: Vec<String> = Vec::new();
    let mut i: usize = 0;
    assert(texts(names@) =~= named(all.take(0)));
    while i < bindings.len()
        invariant
            i <= bindings.len(),
            all == binding_views(bindings@),
            texts(names@) == named(all.take(i as int)),
        decreases bindings.len() - i,
    {
        assert(all.take(i + 1).drop_last() =~= all.take(i as int));
        assert(all.take(i + 1).last() == bindings@[i as int]@);
        let ghost before = texts(names@);
        match &bindings[i] {
            Binding::Named(name) => {
                names.push(name.clone());
                assert(texts(names@) =~= before.push(name@));
            },
            Binding::Ignored => {},
        }
        i += 1;
    }
    assert(all.take(i as int) =~= all);
    names
}

/// Writes the entries of the pattern that takes a tuple of `len` elements
/// apart: the bindings, then `_` for each element that is left.
fn collect_pattern(bindings: &Vec<Binding>, len: u8) -> (entries: Vec<String>)
    ensures
        texts(entries@) == pattern_entries(binding_views(bindings@), len as nat),
{
    let ghost all = binding_views(bindings@);
    let ghost goal = pattern_entries(all, len as nat);
    let mut entries: Vec<String> = Vec::new();
    let mut i: usize = 0;
    while i < bindings.len()
        invariant
            i <= bindings.len(),
            all == binding_views(bindings@),
            goal == pattern_entries(all, len as nat),
            entries@.len() == i,
            forall|j: int| 0 <= j < i ==> (#[trigger] entries@[j])@ == goal[j],
        decreases bindings.len() - i,
    {
        let entry = match &bindings[i] {
            Binding::Named(name) => name.clone(),
            Binding::Ignored => String::from_str("_"),
        };
        assert(entry@ == binding_text(all[i as int]));
        assert(padded(all, len as nat)[i as int] == all[i as int]);
        entries.push(entry);
        i += 1;
    }
    while entries.len() < len as usize
        invariant
            bindings.len() <= entries@.len(),
            entries@.len() <= goal.len(),
            all == binding_views(bindings@),
            goal == pattern_entries(all, len as nat),
            forall|j: int| 0 <= j < entries@.len() ==> (#[trigger] entries@[j])@ == goal[j],
        decreases len - entries.len(),
    {
        entries.push(String::from_str("_"));
    }
    assert(texts(entries@) =~= goal);
    entries
}

/// Writes the statement that goes before the assertion of the first arm.
///
/// Without a directive, or with one that names no element, there is none: the
/// text is empty. A directive that names an element takes the returned tuple
/// apart: its bindings in order, then `_` for each element that is left. The
/// statement stands in the block that sees the result by reference, so it
/// binds references and moves nothing. On a function that returns a boolean
/// such a directive is an error.
///
/// Bindings beyond the elements of the tuple are written like the others: the
/// pattern then has more entries than the tuple, and the compiler refuses it
/// where the macro is used.
pub fn get_tuple_destructure(
    assert_message: &Option<MessageDirective>,
    return_type: &ReturnShape,
) -> (statement: Result<String, GenerationError>)
    ensures
        text_view(statement) == tuple_destructure(directive_view(*assert_message), *return_type),
{
    let directive = match assert_message {
        Some(directive) => directive,
        None => { return Ok(String::new()); },
    };
    let names = collect_names(&directive.bindings);
    proof {
        lemma_named_bindings(directive@.bindings);
    }
    if names.len() == 0 {
        return Ok(String::new());
    }
    let len = match return_type {
        ReturnShape::Boolean => { return Err(GenerationError::BindingsOnBoolean); },
        ReturnShape::FailableBoolean => { return Err(GenerationError::BindingsOnBoolean); },
        ReturnShape::Tuple(n) => *n,
        ReturnShape::FailableTuple(n) => *n,
    };
    let entries = collect_pattern(&directive.bindings, len);
    let pattern = join_strings(&entries, ", ");
    Ok(String::from_str("let (").concat(pattern.as_str()).concat(") = result;"))
}

/// Writes what guards the checks for a function that returns a `Result`: the
/// line that opens the guard and the line that closes it. Both are empty for
/// the other shapes.
pub fn get_result_block(return_type: &ReturnShape) -> (guard: (String, String))
    ensures
        guard.0@ == guard_open(return_type.is_failable()),
        guard.1@ == guard_close(return_type.is_failable()),
{
    match return_type {
        ReturnShape::FailableBoolean => (
            String::from_str("if let Ok(result) = result {"),
            String::from_str("}"),
        ),
        ReturnShape::FailableTuple(_) => (
            String::from_str("if let Ok(result) = result {"),
            String::from_str("}"),
        ),
        _ => (String::new(), String::new()),
    }
}

/// Writes the assertion up to its message: on the result itself for a
/// boolean, on the first two elements for a tuple.
pub fn get_assert_call(return_type: &ReturnShape) -> (call: String)
    ensures
        call@ == assert_call(*return_type),
{
    match return_type {
        ReturnShape::Boolean => String::from_str("assert!(result"),
        ReturnShape::FailableBoolean => String::from_str("assert!(result"),
        ReturnShape::Tuple(_) => String::from_str("assert_eq!(result.0, result.1"),
        ReturnShape::FailableTuple(_) => String::from_str("assert_eq!(result.0, result.1"),
    }
}

/// Writes what the first arm adds to its assertion: the template as a string
/// literal, with what would end or break the literal behind a backslash, and
/// `name=name` for each name of the directive.
pub fn get_message_arguments(assert_message: &Option<MessageDirective>) -> (arguments: String)
    ensures
        arguments@ == message_arguments(directive_view(*assert_message)),
{
    let directive = match assert_message {
        Some(directive) => directive,
        None => { return String::new(); },
    };
    let names = collect_names(&directive.bindings);
    proof {
        lemma_named_bindings(directive@.bindings);
    }
    let quoted = String::from_str(", \"").concat(escape(directive.template.as_str()).as_str());
    if names.len() == 0 {
        return quoted.concat("\"");
    }
    let ghost goal = named_arguments(texts(names@));
    let mut arguments: Vec<String> = Vec::new();
    let mut i: usize = 0;
    while i < names.len()
        invariant
            i <= names.len(),
            goal == named_arguments(texts(names@)),
            arguments@.len() == i,
            forall|j: int| 0 <= j < i ==> (#[trigger] arguments@[j])@ == goal[j],
        decreases names.len() - i,
    {
        let name = names[i].as_str();
        arguments.push(String::from_str(name).concat("=").concat(name));
        i += 1;
    }
    assert(texts(arguments@) =~= goal);
    let list = join_strings(&arguments, ", ");
    quoted.concat("\", ").concat(list.as_str())
}

/// Generates the assertion macro for the function declared by `item`, under
/// an annotation with the arguments `args`.
///
/// The macro is named after the function, with `assert_` before its name. It
/// calls the function with the arguments it is given, asserts on the result
/// as the return type asks, and evaluates to the result. The declaration
/// itself follows the macro unchanged.
///
/// No macro is generated for a function whose return type is none of `bool`,
/// a tuple, or a `Result` of one of the two, nor where the message names an
/// element and the function returns a boolean.
pub fn assert_fn(args: &[NestedMeta], item: &FunctionDeclaration) -> (text: Result<
    String,
    GenerationError,
>)
    ensures
        text_view(text) == generated(args@, *item),
{
    let return_type = match get_return_type(item) {
        Ok(return_type) => return_type,
        Err(error) => { return Err(error); },
    };
    let assert_message = get_message(args);
    let tuple_destructure = match get_tuple_destructure(&assert_message, &return_type) {
        Ok(statement) => statement,
        Err(error) => { return Err(error); },
    };
    let guard = get_result_block(&return_type);
    let assert_call = get_assert_call(&return_type);
    let message = get_message_arguments(&assert_message);

    let checks = line_of(tuple_destructure.as_str()).concat(
        line_of(assertion_of(assert_call.as_str(), message.as_str()).as_str()).as_str(),
    );
    let borrowed = match return_type {
        ReturnShape::Tuple(_) => true,
        ReturnShape::FailableTuple(_) => true,
        _ => false,
    };
    Ok(write_macro(item, borrowed, &guard, checks.as_str(), assert_call.as_str()))
}

} // verus!
