//! The message directive of an annotation: `message("template", a, _, b)`.

use vstd::prelude::*;
use crate::syntax::Lit;
use crate::syntax::Meta;
use crate::syntax::MetaList;
use crate::syntax::NestedMeta;
use crate::syntax::ends_in;
use crate::syntax::final_segment;

verus! {

/// What the message does with one element of the returned tuple.
#[derive(Clone, Debug, PartialEq, Eq)]
pub enum Binding {
    /// The element is bound to this name, for use in the template.
    Named(String),
    /// The element is not used: `_`.
    Ignored,
}

/// What a [`Binding`] stands for.
pub enum BindingView {
    Named(Seq<char>),
    Ignored,
}

/// A message for the generated assertion: a template, and a binding for each
/// of the leading elements of the returned tuple.
#[derive(Clone, Debug, PartialEq, Eq)]
pub struct MessageDirective {
    pub template: String,
    pub bindings: Vec<Binding>,
}

/// What a [`MessageDirective`] stands for.
pub struct MessageDirectiveView {
    pub template: Seq<char>,
    pub bindings: Seq<BindingView>,
}

impl View for Binding {
    type V = BindingView;

    open spec fn view(&self) -> BindingView {
        match self {
            Binding::Named(name) => BindingView::Named(name@),
            Binding::Ignored => BindingView::Ignored,
        }
    }
}

impl View for MessageDirective {
    type V = MessageDirectiveView;

    open spec fn view(&self) -> MessageDirectiveView {
        MessageDirectiveView { template: self.template@, bindings: binding_views(self.bindings@) }
    }
}

/// The views of a list of bindings, in order.
pub open spec fn binding_views(bindings: Seq<Binding>) -> Seq<BindingView> {
    Seq::new(bindings.len(), |i: int| bindings[i]@)
}

/// The view of a directive that may be absent.
pub open spec fn directive_view(directive: Option<MessageDirective>) -> Option<
    MessageDirectiveView,
> {
    match directive {
        Some(d) => Some(d@),
        None => None,
    }
}

/// Whether an argument of the annotation is a message directive: a list under
/// a path that ends in `message`.
pub open spec fn is_message(arg: NestedMeta) -> bool {
    arg matches NestedMeta::Meta(Meta::List(list)) && ends_in(list.path, "message"@)
}

/// The first message directive among the arguments, if there is one.
pub open spec fn first_message(args: Seq<NestedMeta>) -> Option<MetaList>
    decreases args.len(),
{
    if args.len() == 0 {
        None
    } else if is_message(args.first()) {
        Some(args.first()->Meta_0->List_0)
    } else {
        first_message(args.drop_first())
    }
}

/// The binding that an argument of the directive gives: a path gives the
/// identifier of its last segment, `_` stands for an element that is not used,
/// and anything else gives none.
pub open spec fn binding_of(arg: NestedMeta) -> Option<BindingView> {
    match arg {
        NestedMeta::Meta(Meta::Path(path)) => match final_segment(path) {
            Some(segment) => if segment.ident@ =~= "_"@ {
                Some(BindingView::Ignored)
            } else {
                Some(BindingView::Named(segment.ident@))
            },
            None => None,
        },
        _ => None,
    }
}

/// The bindings that a run of arguments gives, in order; arguments that give
/// none leave no gap.
pub open spec fn bindings_of(args: Seq<NestedMeta>) -> Seq<BindingView>
    decreases args.len(),
{
    if args.len() == 0 {
        Seq::empty()
    } else {
        match binding_of(args.last()) {
            Some(binding) => bindings_of(args.drop_last()).push(binding),
            None => bindings_of(args.drop_last()),
        }
    }
}

/// The directive that a message list holds: its first argument must be a
/// string literal, the template; the others give the bindings.
pub open spec fn directive_of(list: MetaList) -> Option<MessageDirectiveView> {
    if list.nested@.len() == 0 {
        None
    } else {
        match list.nested@.first() {
            NestedMeta::Lit(Lit::Str(template)) => Some(
                MessageDirectiveView {
                    template: template@,
                    bindings: bindings_of(list.nested@.drop_first()),
                },
            ),
            _ => None,
        }
    }
}

/// The message directive of an annotation with the arguments `args`: that of
/// the first message list, whatever follows it.
pub open spec fn message_directive(args: Seq<NestedMeta>) -> Option<MessageDirectiveView> {
    match first_message(args) {
        Some(list) => directive_of(list),
        None => None,
    }
}

/// Finds the first message list among the arguments.
fn find_message(args: &[NestedMeta]) -> (found: Option<&MetaList>)
    ensures
        match found {
            Some(list) => first_message(args@) == Some(*list),
            None => first_message(args@).is_none(),
        },
{
    let ghost all = args@;
    let mut i: usize = 0;
    assert(all.skip(0) =~= all);
    while i < args.len()
        invariant
            i <= args.len(),
            all == args@,
            first_message(all) == first_message(all.skip(i as int)),
        decreases args.len() - i,
    {
        let ghost rest = all.skip(i as int);
        assert(rest.first() == args@[i as int]);
        assert(rest.drop_first() =~= all.skip(i + 1));
        match &args[i] {
            NestedMeta::Meta(Meta::List(list)) => {
                if list.path.ends_in("message") {
                    return Some(list);
                }
            },
            _ => {},
        }
        i += 1;
    }
    None
}

/// Reads the binding that one argument of the directive gives.
fn read_binding(arg: &NestedMeta) -> (binding: Option<Binding>)
    ensures
        match binding {
            Some(b) => binding_of(*arg) == Some(b@),
            None => binding_of(*arg).is_none(),
        },
{
    match arg {
        NestedMeta::Meta(Meta::Path(path)) => match path.final_segment() {
            Some(segment) => {
                if segment.ident == String::from_str("_") {
                    Some(Binding::Ignored)
                } else {
                    Some(Binding::Named(segment.ident.clone()))
                }
            },
            None => None,
        },
        _ => None,
    }
}

/// Reads the message directive of an annotation.
///
/// Only the first argument of the form `message(...)` counts. It gives a
/// directive if it starts with a string literal; the arguments after the
/// literal become bindings, and those that are neither a name nor `_` are
/// passed over.
pub fn get_message(args: &[NestedMeta]) -> (directive: Option<MessageDirective>)
    ensures
        directive_view(directive) == message_directive(args@),
{
    let list = match find_message(args) {
        Some(list) => list,
        None => { return None; },
    };
    if list.nested.len() == 0 {
        return None;
    }
    let template = match &list.nested[0] {
        NestedMeta::Lit(Lit::Str(text)) => text.clone(),
        _ => { return None; },
    };
    let ghost rest = list.nested@.drop_first();
    let mut bindings: Vec<Binding> = Vec::new();
    let mut i: usize = 1;
    while i < list.nested.len()
        invariant
            1 <= i <= list.nested.len(),
            rest == list.nested@.drop_first(),
            binding_views(bindings@) == bindings_of(rest.take(i - 1)),
        decreases list.nested.len() - i,
    {
        let ghost before = rest.take(i - 1);
        let ghost after = rest.take(i as int);
        assert(after.drop_last() =~= before);
        assert(after.last() == list.nested@[i as int]);
        let ghost old_views = binding_views(bindings@);
        match read_binding(&list.nested[i]) {
            Some(binding) => {
                bindings.push(binding);
                assert(binding_views(bindings@) =~= old_views.push(binding@));
            },
            None => {},
        }
        i += 1;
    }
    assert(rest.take(i - 1) =~= rest);
    Some(MessageDirective { template, bindings })
}

} // verus!
