//! What the generator reads off the signature: how many arguments to pass on,
//! and whether the function is `async`.

use vstd::prelude::*;
use crate::layout::async_block;
use crate::layout::dot_await;
use crate::layout::param_slots;
use crate::layout::params;
use crate::layout::placeholder;
use crate::layout::value_slots;
use crate::layout::values;
use crate::syntax::FunctionDeclaration;
use crate::text::decimal_string;

verus! {

/// Writes the macro variable for the argument at position `i`.
pub fn placeholder_string(i: usize) -> (text: String)
    ensures
        text@ == placeholder(i as nat),
{
    String::from_str("$arg_").concat(decimal_string(i).as_str())
}

/// Writes, for each parameter of `item` in order, the matcher that binds an
/// argument and the variable that passes it on, with a comma after each. The
/// matchers come first in the pair.
pub fn get_values_and_params(item: &FunctionDeclaration) -> (lists: (String, String))
    ensures
        lists.0@ == params(item.arity as nat),
        lists.1@ == values(item.arity as nat),
{
    let mut params_text = String::new();
    let mut values_text = String::new();
    let mut n: usize = 0;
    while n < item.arity
        invariant
            n <= item.arity,
            params_text@ == params(n as nat),
            values_text@ == values(n as nat),
        decreases item.arity - n,
    {
        assert(param_slots((n + 1) as nat).drop_last() =~= param_slots(n as nat));
        assert(value_slots((n + 1) as nat).drop_last() =~= value_slots(n as nat));
        let variable = placeholder_string(n);
        let matcher = placeholder_string(n).concat(":expr");
        params_text.append(matcher.as_str());
        params_text.append(",");
        values_text.append(variable.as_str());
        values_text.append(",");
        n += 1;
    }
    (params_text, values_text)
}

/// Writes what makes the body of the macro wait for an `async` function: the
/// word that opens the block, and what follows the call. Both are empty for
/// any other function.
pub fn get_async(item: &FunctionDeclaration) -> (words: (String, String))
    ensures
        words.0@ == async_block(item.is_async),
        words.1@ == dot_await(item.is_async),
{
    if item.is_async {
        (String::from_str("async"), String::from_str(".await"))
    } else {
        (String::new(), String::new())
    }
}

} // verus!
