//! What holds of every generated macro.

use vstd::prelude::*;
use crate::error::GenerationError;
use crate::layout::arm;
use crate::layout::async_block;
use crate::layout::borrow_close;
use crate::layout::borrow_open;
use crate::layout::dot_await;
use crate::layout::equality_call;
use crate::layout::exact_arm;
use crate::layout::exact_matcher;
use crate::layout::guard_close;
use crate::layout::guard_open;
use crate::layout::invocation;
use crate::layout::line;
use crate::layout::macro_name;
use crate::layout::macro_text;
use crate::layout::override_arm;
use crate::layout::override_checks;
use crate::layout::override_matcher;
use crate::layout::param_slots;
use crate::layout::placeholder;
use crate::layout::truth_call;
use crate::layout::value_slots;
use crate::literal::denoted;
use crate::literal::escaped;
use crate::literal::holds_no_bare_quote;
use crate::literal::is_plain;
use crate::literal::lemma_escaped_reads_back;
use crate::literal::lemma_plain_is_unchanged;
use crate::message::BindingView;
use crate::message::MessageDirectiveView;
use crate::message::first_message;
use crate::message::is_message;
use crate::message::message_directive;
use crate::shape::ReturnShape;
use crate::shape::first_type_argument;
use crate::shape::result_shape;
use crate::shape::return_shape;
use crate::syntax::FunctionDeclaration;
use crate::syntax::Meta;
use crate::syntax::NestedMeta;
use crate::syntax::PathSegment;
use crate::syntax::TypeExpr;
use crate::synth::artifact;
use crate::synth::assert_call;
use crate::synth::destructure_statement;
use crate::synth::destructuring;
use crate::synth::exact_checks;
use crate::synth::generated;
use crate::synth::has_named;
use crate::synth::message_arguments;
use crate::synth::named;
use crate::synth::named_arguments;
use crate::synth::names_an_element;
use crate::synth::padded;
use crate::synth::pattern_entries;
use crate::synth::text_view;
use crate::synth::tuple_destructure;
use crate::text::decimal;
use crate::text::ends_with;
use crate::text::join;
use crate::text::lemma_decimal_injective;
use crate::text::terminated;

verus! {

/// The variables of different positions differ.
pub proof fn lemma_placeholders_differ(i: nat, j: nat)
    requires
        i != j,
    ensures
        placeholder(i) != placeholder(j),
{
    if placeholder(i) == placeholder(j) {
        let prefix = "$arg_"@;
        assert(placeholder(i).skip(prefix.len() as int) =~= decimal(i));
        assert(placeholder(j).skip(prefix.len() as int) =~= decimal(j));
        lemma_decimal_injective(i, j);
    }
}

/// A macro for a function of `arity` parameters passes on exactly `arity`
/// arguments, each once and in the order in which it takes them, and it does
/// so in both arms: each matcher binds one variable per position, no variable
/// stands for two positions, and the one call that both arms make lists the
/// variables in order.
pub proof fn law_arguments_are_forwarded_in_order(
    name: Seq<char>,
    arity: nat,
    is_async: bool,
    borrowed: bool,
    open: Seq<char>,
    close: Seq<char>,
    checks: Seq<char>,
    call: Seq<char>,
)
    ensures
        value_slots(arity).len() == arity,
        param_slots(arity).len() == arity,
        forall|i: int| 0 <= i < arity ==> #[trigger] value_slots(arity)[i] == placeholder(i as nat),
        forall|i: int|
            0 <= i < arity ==> #[trigger] param_slots(arity)[i] == value_slots(arity)[i]
                + ":expr"@,
        forall|i: int, j: int|
            0 <= i < j < arity ==> #[trigger] value_slots(arity)[i] != #[trigger] value_slots(
                arity,
            )[j],
        exact_matcher(arity) == join(param_slots(arity), ","@) + "$(,)?"@,
        override_matcher(arity) == terminated(param_slots(arity), ","@) + "$($arg:tt)+"@,
        invocation(name, arity, is_async) == "let result = "@ + name + "("@ + join(
            value_slots(arity),
            ","@,
        ) + ")"@ + dot_await(is_async) + ";"@,
        exact_arm(name, arity, is_async, borrowed, open, checks, close) == arm(
            exact_matcher(arity),
            async_block(is_async),
            invocation(name, arity, is_async),
            borrowed,
            open,
            checks,
            close,
        ),
        override_arm(name, arity, is_async, borrowed, open, call, close) == arm(
            override_matcher(arity),
            async_block(is_async),
            invocation(name, arity, is_async),
            borrowed,
            open,
            override_checks(call),
            close,
        ),
{
    assert forall|i: int, j: int| 0 <= i < j < arity implies #[trigger] value_slots(arity)[i]
        != #[trigger] value_slots(arity)[j] by {
        lemma_placeholders_differ(i as nat, j as nat);
    }
}

/// The macro is named after the function, and functions of different names
/// get macros of different names.
pub proof fn law_macro_is_named_after_function(first: Seq<char>, second: Seq<char>)
    ensures
        macro_name(first) == "assert_"@ + first,
        macro_name(first) == macro_name(second) <==> first == second,
{
    if macro_name(first) == macro_name(second) {
        let prefix = "assert_"@;
        assert(macro_name(first).skip(prefix.len() as int) =~= first);
        assert(macro_name(second).skip(prefix.len() as int) =~= second);
    }
}

/// The two assertions are written differently.
pub proof fn lemma_assertions_differ()
    ensures
        truth_call() != equality_call(),
{
    reveal_strlit("assert!(result");
    reveal_strlit("assert_eq!(result.0, result.1");
    assert(truth_call().len() != equality_call().len());
}

/// A function that returns a boolean, bare or in a `Result`, gets the
/// assertion that its result is true, and never the comparison.
pub proof fn law_boolean_is_asserted_true(shape: ReturnShape)
    requires
        shape.payload() == ReturnShape::Boolean,
    ensures
        assert_call(shape) == truth_call(),
        assert_call(shape) != equality_call(),
{
    lemma_assertions_differ();
}

/// A function that returns a tuple, bare or in a `Result`, gets the
/// comparison of the first two elements, whatever the number of elements: the
/// others take no part in it.
pub proof fn law_tuple_compares_first_two(shape: ReturnShape, other: ReturnShape)
    requires
        shape.is_tuple(),
        other.is_tuple(),
    ensures
        assert_call(shape) == equality_call(),
        assert_call(shape) != truth_call(),
        assert_call(shape) == assert_call(other),
        equality_call() == "assert_eq!(result.0, result.1"@,
{
    lemma_assertions_differ();
}

/// For a function that returns a `Result`, both arms put their checks inside
/// a guard that lets only an `Ok` value through, and the checks inside are
/// those of a function that returns the `Ok` value bare. For any other
/// function there is no guard. Whether a macro is generated at all does not
/// depend on the `Result` either.
pub proof fn law_failable_reduces_to_payload(
    item: FunctionDeclaration,
    shape: ReturnShape,
    directive: Option<MessageDirectiveView>,
)
    ensures
        !shape.payload().is_failable(),
        !shape.is_failable() ==> shape.payload() == shape,
        shape.payload().is_tuple() == shape.is_tuple(),
        tuple_destructure(directive, shape) == tuple_destructure(directive, shape.payload()),
        exact_checks(shape, directive) == exact_checks(shape.payload(), directive),
        assert_call(shape) == assert_call(shape.payload()),
        artifact(item, shape, directive) == macro_text(
            item.name@,
            exact_arm(
                item.name@,
                item.arity as nat,
                item.is_async,
                shape.payload().is_tuple(),
                guard_open(shape.is_failable()),
                exact_checks(shape.payload(), directive),
                guard_close(shape.is_failable()),
            ),
            override_arm(
                item.name@,
                item.arity as nat,
                item.is_async,
                shape.payload().is_tuple(),
                guard_open(shape.is_failable()),
                assert_call(shape.payload()),
                guard_close(shape.is_failable()),
            ),
            item.source@,
        ),
        shape.is_failable() ==> guard_open(shape.is_failable()) == "if let Ok(result) = result {"@
            && guard_close(shape.is_failable()) == "}"@,
        !shape.is_failable() ==> guard_open(shape.is_failable()) == Seq::<char>::empty()
            && guard_close(shape.is_failable()) == Seq::<char>::empty(),
{
}

/// No check takes a part out of the result. Where the checks look into a
/// tuple, guard and checks of both arms stand in a block in which `result` is
/// a reference to the result, so that the guard and the pattern bind by
/// reference. Where they look at a boolean there is no pattern, and what the
/// guard binds is the boolean, which is copied.
pub proof fn law_checks_leave_the_result_whole(
    item: FunctionDeclaration,
    shape: ReturnShape,
    directive: Option<MessageDirectiveView>,
)
    ensures
        artifact(item, shape, directive) == macro_text(
            item.name@,
            exact_arm(
                item.name@,
                item.arity as nat,
                item.is_async,
                shape.is_tuple(),
                guard_open(shape.is_failable()),
                exact_checks(shape, directive),
                guard_close(shape.is_failable()),
            ),
            second_arm(item, shape),
            item.source@,
        ),
        shape.is_tuple() ==> borrow_open(shape.is_tuple()) == "{ let result = &result;"@
            && borrow_close(shape.is_tuple()) == "}"@,
        !shape.is_tuple() ==> borrow_open(shape.is_tuple()) == Seq::<char>::empty()
            && borrow_close(shape.is_tuple()) == Seq::<char>::empty() && destructure_statement(
            directive,
            shape,
        ) == Seq::<char>::empty(),
{
}

/// In every arm the block that sees the result by reference, where there is
/// one, holds the guard and the checks and nothing else: it opens after the
/// call and closes before the last line, which is `result`, the result of
/// the call as the function returned it.
pub proof fn law_arm_ends_in_result(
    matcher: Seq<char>,
    block: Seq<char>,
    call: Seq<char>,
    borrowed: bool,
    open: Seq<char>,
    checks: Seq<char>,
    close: Seq<char>,
)
    ensures
        arm(matcher, block, call, borrowed, open, checks, close) == arm_head(matcher, block, call)
            + guarded_checks(borrowed, open, checks, close) + arm_tail(),
        guarded_checks(borrowed, open, checks, close) == line(borrow_open(borrowed)) + line(open)
            + checks + line(close) + line(borrow_close(borrowed)),
        ends_with(arm(matcher, block, call, borrowed, open, checks, close), arm_tail()),
{
    let whole = arm(matcher, block, call, borrowed, open, checks, close);
    let tail = arm_tail();
    let front = arm_head(matcher, block, call) + guarded_checks(borrowed, open, checks, close);
    assert(whole =~= front + tail);
    assert(whole.subrange(whole.len() - tail.len(), whole.len() as int) =~= tail);
}

/// An arm up to its checks: the matcher, and the call of the function.
pub open spec fn arm_head(matcher: Seq<char>, block: Seq<char>, call: Seq<char>) -> Seq<char> {
    "            ("@ + matcher + ") => { "@ + block + " {\n"@ + line(call) + "\n"@
}

/// The guard and the checks of an arm, in the block that sees the result by
/// reference where there is one.
pub open spec fn guarded_checks(
    borrowed: bool,
    open: Seq<char>,
    checks: Seq<char>,
    close: Seq<char>,
) -> Seq<char> {
    line(borrow_open(borrowed)) + line(open) + checks + line(close) + line(borrow_close(borrowed))
}

/// An arm after its checks: the result, and the end of the arm.
pub open spec fn arm_tail() -> Seq<char> {
    "\n"@ + line("result"@) + "            }};\n"@
}

/// The second arm does not depend on the directive: whatever template and
/// bindings the annotation gives, the assertion of that arm takes the tokens
/// of the call for its message, and nothing else.
pub proof fn law_override_ignores_directive(
    item: FunctionDeclaration,
    shape: ReturnShape,
    first: Option<MessageDirectiveView>,
    second: Option<MessageDirectiveView>,
)
    ensures
        artifact(item, shape, first) == macro_text(
            item.name@,
            exact_arm(
                item.name@,
                item.arity as nat,
                item.is_async,
                shape.is_tuple(),
                guard_open(shape.is_failable()),
                exact_checks(shape, first),
                guard_close(shape.is_failable()),
            ),
            second_arm(item, shape),
            item.source@,
        ),
        artifact(item, shape, second) == macro_text(
            item.name@,
            exact_arm(
                item.name@,
                item.arity as nat,
                item.is_async,
                shape.is_tuple(),
                guard_open(shape.is_failable()),
                exact_checks(shape, second),
                guard_close(shape.is_failable()),
            ),
            second_arm(item, shape),
            item.source@,
        ),
        override_checks(assert_call(shape)) == line(assert_call(shape) + ", $($arg)*"@ + ");"@),
{
}

/// The second arm of the macro for `item`: it is made of the declaration and
/// the shape of its return type alone.
pub open spec fn second_arm(item: FunctionDeclaration, shape: ReturnShape) -> Seq<char> {
    override_arm(
        item.name@,
        item.arity as nat,
        item.is_async,
        shape.is_tuple(),
        guard_open(shape.is_failable()),
        assert_call(shape),
        guard_close(shape.is_failable()),
    )
}

/// The call of the function named `name` with `arity` arguments, awaited.
pub open spec fn awaited_call(name: Seq<char>, arity: nat) -> Seq<char> {
    "let result = "@ + name + "("@ + join(value_slots(arity), ","@) + ")"@ + ".await"@ + ";"@
}

/// The call of the function named `name` with `arity` arguments, not awaited.
pub open spec fn plain_call(name: Seq<char>, arity: nat) -> Seq<char> {
    "let result = "@ + name + "("@ + join(value_slots(arity), ","@) + ")"@ + ";"@
}

/// For an `async` function both arms are `async` blocks that await the call
/// before they make their checks; for any other function neither arm holds a
/// block or an await.
pub proof fn law_async_is_awaited(
    name: Seq<char>,
    arity: nat,
    is_async: bool,
    borrowed: bool,
    open: Seq<char>,
    close: Seq<char>,
    checks: Seq<char>,
    call: Seq<char>,
)
    ensures
        is_async ==> exact_arm(name, arity, is_async, borrowed, open, checks, close) == arm(
            exact_matcher(arity),
            "async"@,
            awaited_call(name, arity),
            borrowed,
            open,
            checks,
            close,
        ) && override_arm(name, arity, is_async, borrowed, open, call, close) == arm(
            override_matcher(arity),
            "async"@,
            awaited_call(name, arity),
            borrowed,
            open,
            override_checks(call),
            close,
        ),
        !is_async ==> exact_arm(name, arity, is_async, borrowed, open, checks, close) == arm(
            exact_matcher(arity),
            Seq::empty(),
            plain_call(name, arity),
            borrowed,
            open,
            checks,
            close,
        ) && override_arm(name, arity, is_async, borrowed, open, call, close) == arm(
            override_matcher(arity),
            Seq::empty(),
            plain_call(name, arity),
            borrowed,
            open,
            override_checks(call),
            close,
        ),
{
    assert(plain_call(name, arity) =~= invocation(name, arity, false));
}

/// Generation is a function of the declaration and the arguments: two runs on
/// the same input end alike, with the same text or the same error.
pub proof fn law_same_input_same_output(
    args: Seq<NestedMeta>,
    item: FunctionDeclaration,
    first: Result<String, GenerationError>,
    second: Result<String, GenerationError>,
)
    requires
        text_view(first) == generated(args, item),
        text_view(second) == generated(args, item),
    ensures
        text_view(first) == text_view(second),
        first is Ok <==> second is Ok,
        first matches Ok(text) ==> text@ == second->Ok_0@,
        first matches Err(error) ==> second == Err::<String, GenerationError>(error),
{
}

/// A macro is generated unless the return type has no shape, or the message
/// names an element of a result that has none; and the errors come in that
/// order.
pub proof fn law_when_generation_fails(args: Seq<NestedMeta>, item: FunctionDeclaration)
    ensures
        generated(args, item) is Ok <==> return_shape(item.output) is Ok && !(has_named(
            message_directive(args),
        ) && !return_shape(item.output)->Ok_0.is_tuple()),
        return_shape(item.output) matches Err(error) ==> generated(args, item) == Err::<
            Seq<char>,
            GenerationError,
        >(error),
        return_shape(item.output) is Ok && generated(args, item) is Err ==> generated(args, item)
            == Err::<Seq<char>, GenerationError>(GenerationError::BindingsOnBoolean),
{
}

/// Every shape that a return type gets is well formed. The shape of a tuple
/// records the number of its elements, which is two at least, and a tuple of
/// fewer than two elements or more than 255 has no shape, bare or in a
/// `Result`.
pub proof fn law_shape_records_the_tuple(output: Option<TypeExpr>)
    ensures
        match return_shape(output) {
            Ok(shape) => shape.well_formed(),
            Err(_) => true,
        },
        match output {
            Some(TypeExpr::Tuple(elems)) => if 2 <= elems@.len() <= u8::MAX {
                return_shape(output) == Ok::<ReturnShape, GenerationError>(
                    ReturnShape::Tuple(elems@.len() as u8),
                )
            } else {
                return_shape(output) == Err::<ReturnShape, GenerationError>(
                    GenerationError::UnsupportedReturnType,
                )
            },
            _ => true,
        },
        match return_shape(output) {
            Ok(ReturnShape::FailableTuple(n)) => output matches Some(TypeExpr::Path(path))
                && first_type_argument(path.segments@.last()) matches Some(TypeExpr::Tuple(elems))
                && elems@.len() == n && n >= 2,
            Ok(ReturnShape::Tuple(n)) => output matches Some(TypeExpr::Tuple(elems))
                && elems@.len() == n && n >= 2,
            _ => true,
        },
{
}

/// A `Result` of a tuple that has no shape is refused as a `Result`.
pub proof fn law_result_of_odd_tuple_is_refused(segment: PathSegment)
    ensures
        first_type_argument(segment) matches Some(TypeExpr::Tuple(elems)) ==> result_shape(segment)
            == (if 2 <= elems@.len() <= u8::MAX {
            Ok::<ReturnShape, GenerationError>(ReturnShape::FailableTuple(elems@.len() as u8))
        } else {
            Err::<ReturnShape, GenerationError>(GenerationError::UnsupportedResultType)
        }),
{
}

/// The first message list is the one before which no argument is a message
/// list.
pub proof fn law_first_message_wins(args: Seq<NestedMeta>)
    ensures
        match first_message(args) {
            Some(list) => exists|i: int|
                0 <= i < args.len() && #[trigger] args[i] == NestedMeta::Meta(Meta::List(list))
                    && is_message(args[i]) && forall|j: int| 0 <= j < i ==> !is_message(args[j]),
            None => forall|j: int| 0 <= j < args.len() ==> !is_message(args[j]),
        },
    decreases args.len(),
{
    if args.len() > 0 {
        if is_message(args.first()) {
            assert(args[0] == args.first());
        } else {
            let rest = args.drop_first();
            law_first_message_wins(rest);
            assert forall|j: int| 0 <= j < rest.len() implies rest[j] == args[j + 1] by {}
            match first_message(rest) {
                Some(list) => {
                    let i = choose|i: int|
                        0 <= i < rest.len() && #[trigger] rest[i] == NestedMeta::Meta(
                            Meta::List(list),
                        ) && is_message(rest[i]) && forall|j: int|
                            0 <= j < i ==> !is_message(rest[j]);
                    assert(args[i + 1] == rest[i]);
                    assert forall|j: int| 0 <= j < i + 1 implies !is_message(args[j]) by {
                        if j > 0 {
                            assert(args[j] == rest[j - 1]);
                        }
                    }
                },
                None => {
                    assert forall|j: int| 0 <= j < args.len() implies !is_message(args[j]) by {
                        if j > 0 {
                            assert(args[j] == rest[j - 1]);
                        }
                    }
                },
            }
        }
    }
}

/// The template of a directive is written as a string literal that denotes
/// it: what stands between the quotes is read as the template again, no quote
/// of the template ends the literal, and a template without quotes,
/// backslashes, line breaks, tabs and null characters is written as it is.
pub proof fn law_template_is_written_as_it_reads(directive: MessageDirectiveView)
    ensures
        !names_an_element(directive.bindings) ==> message_arguments(Some(directive)) == ", \""@
            + escaped(directive.template) + "\""@,
        names_an_element(directive.bindings) ==> message_arguments(Some(directive)) == ", \""@
            + escaped(directive.template) + "\", "@ + join(
            named_arguments(named(directive.bindings)),
            ", "@,
        ),
        denoted(escaped(directive.template)) == directive.template,
        holds_no_bare_quote(escaped(directive.template)),
        (forall|i: int|
            0 <= i < directive.template.len() ==> is_plain(#[trigger] directive.template[i]))
            ==> escaped(directive.template) == directive.template,
{
    lemma_escaped_reads_back(directive.template);
    if forall|i: int|
        0 <= i < directive.template.len() ==> is_plain(#[trigger] directive.template[i]) {
        lemma_plain_is_unchanged(directive.template);
    }
}

/// The pattern that takes the result apart has an entry for each element of
/// the tuple, or for each binding where there are more of those: the bindings
/// come first and in order, and `_` stands for every element after them.
pub proof fn law_pattern_covers_the_tuple(bindings: Seq<BindingView>, len: nat)
    ensures
        padded(bindings, len).len() == if bindings.len() >= len {
            bindings.len()
        } else {
            len
        },
        pattern_entries(bindings, len).len() == padded(bindings, len).len(),
        bindings.len() <= len ==> pattern_entries(bindings, len).len() == len,
        forall|i: int|
            0 <= i < bindings.len() ==> #[trigger] padded(bindings, len)[i] == bindings[i],
        forall|i: int|
            bindings.len() <= i < len ==> #[trigger] padded(bindings, len)[i]
                == BindingView::Ignored,
        destructuring(bindings, len) == "let ("@ + join(pattern_entries(bindings, len), ", "@)
            + ") = result;"@,
{
}

} // verus!
