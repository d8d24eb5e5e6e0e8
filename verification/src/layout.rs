//! The layout of a generated macro: the text of its pieces, and how they are
//! put together.
//!
//! A macro has two arms. The first takes the function's arguments alone; the
//! second takes the arguments and then any tokens, which it hands to its
//! assertion as the message. Both call the function with the arguments in
//! order, make their checks, and end in the result of the call.
//!
//! The checks only read the result. Where they look into a tuple they stand
//! in a block of their own, in which `result` is a reference to the result:
//! what the guard and the pattern bind there, they bind by reference, so that
//! the result is whole when the arm hands it back.

use vstd::prelude::*;
use crate::signature::get_async;
use crate::signature::get_values_and_params;
use crate::syntax::FunctionDeclaration;
use crate::text::decimal;
use crate::text::join;
use crate::text::lemma_decimal_last;
use crate::text::lemma_trim_terminated;
use crate::text::terminated;
use crate::text::trim_end;
use crate::text::trim_end_matches;

verus! {

/// The macro variable that stands for the argument at position `i`.
pub open spec fn placeholder(i: nat) -> Seq<char> {
    "$arg_"@ + decimal(i)
}

/// The variables for `arity` arguments, in order.
pub open spec fn value_slots(arity: nat) -> Seq<Seq<char>> {
    Seq::new(arity, |i: int| placeholder(i as nat))
}

/// The matchers that bind `arity` arguments, in order: each variable as an
/// expression.
pub open spec fn param_slots(arity: nat) -> Seq<Seq<char>> {
    Seq::new(arity, |i: int| placeholder(i as nat) + ":expr"@)
}

/// The matchers for `arity` arguments, a comma after each.
pub open spec fn params(arity: nat) -> Seq<char> {
    terminated(param_slots(arity), ","@)
}

/// The variables for `arity` arguments, a comma after each.
pub open spec fn values(arity: nat) -> Seq<char> {
    terminated(value_slots(arity), ","@)
}

/// What opens the body of an arm: an `async` block for an `async` function.
pub open spec fn async_block(is_async: bool) -> Seq<char> {
    if is_async {
        "async"@
    } else {
        Seq::empty()
    }
}

/// What follows the call: `.await` for an `async` function.
pub open spec fn dot_await(is_async: bool) -> Seq<char> {
    if is_async {
        ".await"@
    } else {
        Seq::empty()
    }
}

/// What opens the guard around the checks: where the function returns a
/// `Result`, the checks are made on the `Ok` value only.
pub open spec fn guard_open(guarded: bool) -> Seq<char> {
    if guarded {
        "if let Ok(result) = result {"@
    } else {
        Seq::empty()
    }
}

/// What closes the guard around the checks.
pub open spec fn guard_close(guarded: bool) -> Seq<char> {
    if guarded {
        "}"@
    } else {
        Seq::empty()
    }
}

/// What opens the block in which the checks see the result by reference.
pub open spec fn borrow_open(borrowed: bool) -> Seq<char> {
    if borrowed {
        "{ let result = &result;"@
    } else {
        Seq::empty()
    }
}

/// What closes the block in which the checks see the result by reference.
pub open spec fn borrow_close(borrowed: bool) -> Seq<char> {
    if borrowed {
        "}"@
    } else {
        Seq::empty()
    }
}

/// The assertion that the result is true, up to its message.
pub open spec fn truth_call() -> Seq<char> {
    "assert!(result"@
}

/// The assertion that the first two elements of the result are equal, up to
/// its message.
pub open spec fn equality_call() -> Seq<char> {
    "assert_eq!(result.0, result.1"@
}

/// One line of the body of an arm.
pub open spec fn line(text: Seq<char>) -> Seq<char> {
    "                "@ + text + "\n"@
}

/// An assertion as a statement: the call, what is added to it, and the end.
pub open spec fn assertion(call: Seq<char>, arguments: Seq<char>) -> Seq<char> {
    call + arguments + ");"@
}

/// What the second arm adds to its assertion: the tokens after the arguments.
pub open spec fn override_arguments() -> Seq<char> {
    ", $($arg)*"@
}

/// The checks of the second arm: the assertion with the tokens of the call
/// for its message.
pub open spec fn override_checks(call: Seq<char>) -> Seq<char> {
    line(assertion(call, override_arguments()))
}

/// The statement that calls the function with its arguments in order.
pub open spec fn invocation(name: Seq<char>, arity: nat, is_async: bool) -> Seq<char> {
    "let result = "@ + name + "("@ + join(value_slots(arity), ","@) + ")"@ + dot_await(is_async)
        + ";"@
}

/// The matcher of the first arm: the arguments, and a comma after them or not.
pub open spec fn exact_matcher(arity: nat) -> Seq<char> {
    join(param_slots(arity), ","@) + "$(,)?"@
}

/// The matcher of the second arm: the arguments, then one token or more.
pub open spec fn override_matcher(arity: nat) -> Seq<char> {
    params(arity) + "$($arg:tt)+"@
}

/// One arm of the macro: the call, the checks inside their guard, the result.
/// With `borrowed`, guard and checks stand in the block that sees the result
/// by reference.
pub open spec fn arm(
    matcher: Seq<char>,
    block: Seq<char>,
    call: Seq<char>,
    borrowed: bool,
    open: Seq<char>,
    checks: Seq<char>,
    close: Seq<char>,
) -> Seq<char> {
    "            ("@ + matcher + ") => { "@ + block + " {\n"@ + line(call) + "\n"@ + line(
        borrow_open(borrowed),
    ) + line(open) + checks + line(close) + line(borrow_close(borrowed)) + "\n"@ + line(
        "result"@,
    ) + "            }};\n"@
}

/// The first arm of the macro for a function with the given name and number
/// of parameters, with the given checks and guard.
pub open spec fn exact_arm(
    name: Seq<char>,
    arity: nat,
    is_async: bool,
    borrowed: bool,
    open: Seq<char>,
    checks: Seq<char>,
    close: Seq<char>,
) -> Seq<char> {
    arm(
        exact_matcher(arity),
        async_block(is_async),
        invocation(name, arity, is_async),
        borrowed,
        open,
        checks,
        close,
    )
}

/// The second arm of the macro for a function with the given name and number
/// of parameters, with the given assertion and guard.
pub open spec fn override_arm(
    name: Seq<char>,
    arity: nat,
    is_async: bool,
    borrowed: bool,
    open: Seq<char>,
    call: Seq<char>,
    close: Seq<char>,
) -> Seq<char> {
    arm(
        override_matcher(arity),
        async_block(is_async),
        invocation(name, arity, is_async),
        borrowed,
        open,
        override_checks(call),
        close,
    )
}

/// The name of the macro for the function named `name`.
pub open spec fn macro_name(name: Seq<char>) -> Seq<char> {
    "assert_"@ + name
}

/// The macro named after the function `name`, with its two arms, and after
/// it the declaration of the function as it was written.
pub open spec fn macro_text(
    name: Seq<char>,
    exact: Seq<char>,
    overriding: Seq<char>,
    source: Seq<char>,
) -> Seq<char> {
    "\n        #[macro_export]\n        macro_rules! "@ + macro_name(name) + " {\n"@ + exact
        + overriding + "        }\n\n        "@ + source + "\n    "@
}

/// The macro for `item` that makes the assertion `call` inside the given
/// guard, with `checks` for the checks of the first arm. With `borrowed`, the
/// checks of both arms see the result by reference.
pub open spec fn macro_for(
    item: FunctionDeclaration,
    borrowed: bool,
    open: Seq<char>,
    close: Seq<char>,
    checks: Seq<char>,
    call: Seq<char>,
) -> Seq<char> {
    macro_text(
        item.name@,
        exact_arm(item.name@, item.arity as nat, item.is_async, borrowed, open, checks, close),
        override_arm(item.name@, item.arity as nat, item.is_async, borrowed, open, call, close),
        item.source@,
    )
}

/// Trimming the commas from the end of the matchers, or of the variables,
/// leaves them with a comma between neighbours.
pub proof fn lemma_trimmed_lists(arity: nat)
    ensures
        trim_end(params(arity), ',') == join(param_slots(arity), ","@),
        trim_end(values(arity), ',') == join(value_slots(arity), ","@),
{
    reveal_strlit(",");
    reveal_strlit(":expr");
    assert(","@ =~= seq![',']);
    assert forall|i: int| 0 <= i < arity implies (#[trigger] param_slots(arity)[i]).len() > 0
        && param_slots(arity)[i].last() != ',' by {
        assert(param_slots(arity)[i].last() == 'r');
    }
    assert forall|i: int| 0 <= i < arity implies (#[trigger] value_slots(arity)[i]).len() > 0
        && value_slots(arity)[i].last() != ',' by {
        lemma_decimal_last(i as nat);
        assert(placeholder(i as nat).last() == decimal(i as nat).last());
    }
    lemma_trim_terminated(param_slots(arity), ',');
    lemma_trim_terminated(value_slots(arity), ',');
}

/// Writes one line of the body of an arm.
pub fn line_of(text: &str) -> (written: String)
    ensures
        written@ == line(text@),
{
    String::from_str("                ").concat(text).concat("\n")
}

/// Writes an assertion as a statement.
pub fn assertion_of(call: &str, arguments: &str) -> (written: String)
    ensures
        written@ == assertion(call@, arguments@),
{
    String::from_str(call).concat(arguments).concat(");")
}

/// Writes what opens and what closes the block in which the checks see the
/// result by reference; both are empty where the checks need no such block.
pub fn get_borrow_block(borrowed: bool) -> (block: (String, String))
    ensures
        block.0@ == borrow_open(borrowed),
        block.1@ == borrow_close(borrowed),
{
    if borrowed {
        (String::from_str("{ let result = &result;"), String::from_str("}"))
    } else {
        (String::new(), String::new())
    }
}

/// Writes one arm of the macro.
pub fn arm_of(
    matcher: &str,
    block: &str,
    call: &str,
    borrowed: bool,
    open: &str,
    checks: &str,
    close: &str,
) -> (written: String)
    ensures
        written@ == arm(matcher@, block@, call@, borrowed, open@, checks@, close@),
{
    let borrow = get_borrow_block(borrowed);
    String::from_str("            (").concat(matcher).concat(") => { ").concat(block).concat(
        " {\n",
    ).concat(line_of(call).as_str()).concat("\n").concat(
        line_of(borrow.0.as_str()).as_str(),
    ).concat(line_of(open).as_str()).concat(checks).concat(line_of(close).as_str()).concat(
        line_of(borrow.1.as_str()).as_str(),
    ).concat("\n").concat(line_of("result").as_str()).concat("            }};\n")
}

/// Writes the name of the macro for the function named `fn_name`: the name of
/// the function after `assert_`.
pub fn get_macro_name(fn_name: &str) -> (name: String)
    ensures
        name@ == macro_name(fn_name@),
{
    String::from_str("assert_").concat(fn_name)
}

/// Writes the macro with its two arms, and the declaration after it.
pub fn macro_of(name: &str, exact: &str, overriding: &str, source: &str) -> (written: String)
    ensures
        written@ == macro_text(name@, exact@, overriding@, source@),
{
    String::from_str("\n        #[macro_export]\n        macro_rules! ").concat(
        get_macro_name(name).as_str(),
    ).concat(" {\n").concat(exact).concat(overriding).concat("        }\n\n        ").concat(
        source,
    ).concat("\n    ")
}

/// Writes the macro for `item` that makes the assertion `call` inside the
/// guard `guard`, with `checks` for the checks of the first arm. With
/// `borrowed`, the checks of both arms see the result by reference.
pub fn write_macro(
    item: &FunctionDeclaration,
    borrowed: bool,
    guard: &(String, String),
    checks: &str,
    call: &str,
) -> (written: String)
    ensures
        written@ == macro_for(*item, borrowed, guard.0@, guard.1@, checks@, call@),
{
    let (params, values) = get_values_and_params(item);
    let (async_block, dot_await) = get_async(item);
    proof {
        lemma_trimmed_lists(item.arity as nat);
    }
    let params_trimmed = trim_end_matches(params.as_str(), ',');
    let values_trimmed = trim_end_matches(values.as_str(), ',');

    let invocation_text = String::from_str("let result = ").concat(item.name.as_str()).concat(
        "(",
    ).concat(values_trimmed).concat(")").concat(dot_await.as_str()).concat(";");
    let exact_matcher_text = String::from_str(params_trimmed).concat("$(,)?");
    let exact = arm_of(
        exact_matcher_text.as_str(),
        async_block.as_str(),
        invocation_text.as_str(),
        borrowed,
        guard.0.as_str(),
        checks,
        guard.1.as_str(),
    );
    let override_matcher_text = params.concat("$($arg:tt)+");
    let override_checks_text = line_of(assertion_of(call, ", $($arg)*").as_str());
    let overriding = arm_of(
        override_matcher_text.as_str(),
        async_block.as_str(),
        invocation_text.as_str(),
        borrowed,
        guard.0.as_str(),
        override_checks_text.as_str(),
        guard.1.as_str(),
    );
    macro_of(item.name.as_str(), exact.as_str(), overriding.as_str(), item.source.as_str())
}

} // verus!
