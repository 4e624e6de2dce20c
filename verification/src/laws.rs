//! What holds of the pass as a whole.

use crate::derive::{derive_methods, spec_derive, spec_register, Derived};
use crate::diagnostic::DiagnosticView;
use crate::directive::{spec_parse_directive, spec_read_entries, DirectiveView};
use crate::emit::{declared_optional, spec_emit, EmittedView};
use crate::export::{ExportArgs, ExportMethodView};
use crate::extract::export_record;
use crate::seqs::{
    lemma_empty_prefix, lemma_filter_map_add, lemma_filter_map_grows, lemma_filter_map_index,
    lemma_filter_map_step,
};
use crate::syntax::{
    BindingView, EntryView, ImplBlock, ImplBlockView, MemberView, NameValueView, ParamKindView,
    ParamView, PatternView, PayloadView,
};
use crate::text::decimal;
use crate::validate::{
    generic_diagnostics, is_marked, marked, spec_marking, spec_validate, MarkingView,
    ValidationView,
};
use vstd::prelude::*;

verus! {

/// The pass is a function of what it reads: two runs on classes that read
/// the same give results that read the same, diagnostics included.
pub proof fn lemma_deterministic(a: ImplBlock, b: ImplBlock, x: Derived, y: Derived)
    requires
        a.deep_view() == b.deep_view(),
        call_ensures(derive_methods, (&a,), x),
        call_ensures(derive_methods, (&b,), y),
    ensures
        x.deep_view() == y.deep_view(),
{
}

/// A bare marker gives the default directive and reports nothing.
pub proof fn lemma_bare_marker()
    ensures
        spec_parse_directive(PayloadView::Bare) == (DirectiveView {
            args: ExportArgs::spec_default(),
            diagnostics: Seq::empty(),
        }),
{
}

/// A list that holds one pair with a key that is not known reports that
/// pair once, by its key, and gives the default directive.
pub proof fn lemma_unknown_key(pair: NameValueView)
    requires
        pair.key != "rpc"@,
    ensures
        spec_parse_directive(PayloadView::List(seq![EntryView::Pair(pair)])) == (DirectiveView {
            args: ExportArgs::spec_default(),
            diagnostics: seq![
                DiagnosticView {
                    span: pair.span,
                    message: "unknown option for export: `"@ + pair.key + "`"@,
                },
            ],
        }),
{
    let entries = seq![EntryView::Pair(pair)];
    assert(entries.drop_last() =~= Seq::empty());
    assert(entries.last() == EntryView::Pair(pair));
    reveal_with_fuel(spec_read_entries, 2);
    assert(spec_parse_directive(PayloadView::List(entries)).diagnostics =~= seq![
        DiagnosticView {
            span: pair.span,
            message: "unknown option for export: `"@ + pair.key + "`"@,
        },
    ]);
}

/// The place among the registrations of the member at `p`, if it is an
/// exported method: after the entries of the exported methods before it.
pub open spec fn registration_index(items: Seq<MemberView>, p: int) -> int {
    items.take(p).filter_map(export_record()).len() as int
}

/// The registration procedure holds one entry for each exported method.
pub proof fn lemma_one_entry_each(block: ImplBlockView)
    ensures
        spec_derive(block).registrations.len() == block.items.filter_map(export_record()).len(),
{
}

/// The entries of the registration procedure stand in the order in which
/// the exported methods are declared: of two exported methods, the entry of
/// the one declared first comes first, and each entry is that of its method.
pub proof fn lemma_order_preserved(block: ImplBlockView, p: int, q: int)
    requires
        0 <= p < q < block.items.len(),
        export_record()(block.items[p]).is_some(),
        export_record()(block.items[q]).is_some(),
    ensures
        0 <= registration_index(block.items, p) < registration_index(block.items, q)
            < spec_derive(block).registrations.len(),
        spec_derive(block).registrations[registration_index(block.items, p)] == spec_register(
            block.class_ty,
            export_record()(block.items[p]).unwrap(),
        ),
        spec_derive(block).registrations[registration_index(block.items, q)] == spec_register(
            block.class_ty,
            export_record()(block.items[q]).unwrap(),
        ),
{
    let f = export_record();
    lemma_filter_map_index(block.items, f, p);
    lemma_filter_map_index(block.items, f, q);
    lemma_filter_map_step(block.items, p, f);
    lemma_filter_map_grows(block.items, f, p + 1, q);
}

/// A member that is no exported method, put anywhere among the members,
/// changes nothing in the registration procedure.
pub proof fn lemma_other_members_do_not_matter(block: ImplBlockView, k: int, member: MemberView)
    requires
        0 <= k <= block.items.len(),
        export_record()(member).is_none(),
    ensures
        spec_derive(
            ImplBlockView { class_ty: block.class_ty, items: block.items.insert(k, member) },
        ).registrations == spec_derive(block).registrations,
{
    let f = export_record();
    let items = block.items;
    let head = items.subrange(0, k);
    let tail = items.subrange(k, items.len() as int);
    lemma_filter_map_add(head.push(member), tail, f);
    lemma_filter_map_add(head, tail, f);
    assert(head + tail =~= items);
    assert(head.push(member).drop_last() =~= head);
    assert(head.push(member).filter_map(f) == head.filter_map(f));
}

/// A method with fewer than two parameters is rejected, whatever its
/// directive holds.
pub proof fn lemma_arity_floor(class_ty: Seq<char>, method: ExportMethodView)
    requires
        method.sig.inputs.len() < 2,
    ensures
        spec_register(class_ty, method) == EmittedView::Rejected(
            seq![
                DiagnosticView {
                    span: method.sig.span,
                    message: "exported methods must take self and owner as arguments"@,
                },
            ],
        ),
        spec_validate(method) is Rejected,
        spec_emit(class_ty, method) is Rejected,
{
}

/// The two leading parameters are never counted.
pub proof fn lemma_marking_leading(inputs: Seq<ParamView>)
    requires
        inputs.len() <= 2,
    ensures
        spec_marking(inputs).count.is_none(),
    decreases inputs.len(),
{
    if inputs.len() > 0 {
        lemma_marking_leading(inputs.drop_last());
    }
}

/// The markers count the parameters after the first two that are marked:
/// how many there are, or `None` where there is none.
pub proof fn lemma_marking_counts(inputs: Seq<ParamView>)
    requires
        inputs.len() >= 2,
    ensures
        spec_marking(inputs).count == if inputs.skip(2).filter(marked()).len() == 0 {
            None
        } else {
            Some(inputs.skip(2).filter(marked()).len())
        },
    decreases inputs.len(),
{
    if inputs.len() == 2 {
        lemma_marking_leading(inputs);
        lemma_empty_prefix(inputs.skip(2), marked());
        assert(inputs.skip(2).take(0) =~= inputs.skip(2));
    } else {
        lemma_marking_counts(inputs.drop_last());
        let rest = inputs.drop_last().skip(2);
        assert(inputs.skip(2) =~= rest.push(inputs.last()));
        rest.lemma_filter_push(inputs.last(), marked());
    }
}

/// Where no parameter is marked, the markers amount to nothing.
pub proof fn lemma_marking_none(inputs: Seq<ParamView>)
    requires
        forall|i: int| 0 <= i < inputs.len() ==> !is_marked(#[trigger] inputs[i]),
    ensures
        spec_marking(inputs) == (MarkingView { count: None, diagnostics: Seq::empty() }),
    decreases inputs.len(),
{
    if inputs.len() > 0 {
        lemma_marking_none(inputs.drop_last());
    }
}

/// Where exactly the last `k` parameters are marked, and the two leading
/// ones are not among them, the markers count `k` and report nothing.
pub proof fn lemma_marking_trailing(inputs: Seq<ParamView>, k: nat)
    requires
        k + 2 <= inputs.len(),
        forall|i: int| 0 <= i < inputs.len() - k ==> !is_marked(#[trigger] inputs[i]),
        forall|i: int| inputs.len() - k <= i < inputs.len() ==> is_marked(#[trigger] inputs[i]),
    ensures
        spec_marking(inputs) == (MarkingView {
            count: if k == 0 {
                None
            } else {
                Some(k)
            },
            diagnostics: Seq::empty(),
        }),
    decreases k,
{
    if k == 0 {
        lemma_marking_none(inputs);
    } else {
        lemma_marking_trailing(inputs.drop_last(), (k - 1) as nat);
    }
}

/// A method without generic parameters whose last `k` parameters, and no
/// others, are marked optional is accepted with `k` optional parameters, as
/// long as `k` is at least one and the two leading parameters are not among
/// them. It is registered with exactly its last `k` parameters optional.
pub proof fn lemma_trailing_optional_accepted(
    class_ty: Seq<char>,
    method: ExportMethodView,
    k: nat,
)
    requires
        1 <= k,
        k + 2 <= method.sig.inputs.len() <= usize::MAX,
        method.sig.generics.len() == 0,
        forall|i: int|
            0 <= i < method.sig.inputs.len() - k ==> !is_marked(#[trigger] method.sig.inputs[i]),
        forall|i: int|
            method.sig.inputs.len() - k <= i < method.sig.inputs.len() ==> is_marked(
                #[trigger] method.sig.inputs[i],
            ),
    ensures
        spec_validate(method) matches ValidationView::Accepted(accepted)
            && accepted.args.optional_arg_count == Some(k as usize)
            && accepted.args.rpc_mode == method.args.rpc_mode,
        spec_register(class_ty, method) matches EmittedView::Registration(entry)
            && entry.params.len() == method.sig.inputs.len() && forall|i: int|
            0 <= i < entry.params.len() ==> (#[trigger] entry.params[i]).optional == (i
                >= entry.params.len() - k),
{
    lemma_marking_trailing(method.sig.inputs, k);
    assert(generic_diagnostics(method.sig) =~= Seq::empty());
}

/// A method that declares more optional parameters than it has parameters
/// after the first two is not registered, and the message gives both
/// numbers.
pub proof fn lemma_optional_bound_exceeded(class_ty: Seq<char>, method: ExportMethodView, count: usize)
    requires
        method.sig.inputs.len() >= 2,
        method.args.optional_arg_count == Some(count),
        count > method.sig.inputs.len() - 2,
    ensures
        spec_emit(class_ty, method) == EmittedView::Rejected(
            seq![
                DiagnosticView {
                    span: method.sig.span,
                    message: "there can be at most "@ + decimal(
                        (method.sig.inputs.len() - 2) as nat,
                    ) + " optional arguments, got "@ + decimal(count as nat),
                },
            ],
        ),
        method.sig.generics.len() == 0 && (forall|i: int|
            0 <= i < method.sig.inputs.len() ==> !is_marked(#[trigger] method.sig.inputs[i]))
            ==> spec_register(class_ty, method) == spec_emit(class_ty, method),
{
    if method.sig.generics.len() == 0 && (forall|i: int|
        0 <= i < method.sig.inputs.len() ==> !is_marked(#[trigger] method.sig.inputs[i])) {
        lemma_marking_none(method.sig.inputs);
        assert(generic_diagnostics(method.sig) =~= Seq::empty());
    }
}

/// Once a parameter after the first two is marked, the count is set for
/// good, and a parameter after it that is not marked is reported.
proof fn lemma_marking_prefix(inputs: Seq<ParamView>, i: int, j: int, n: int)
    requires
        2 <= i < j < inputs.len(),
        is_marked(inputs[i]),
        !is_marked(inputs[j]),
        0 <= n <= inputs.len(),
    ensures
        n > i ==> spec_marking(inputs.take(n)).count.is_some(),
        n > j ==> spec_marking(inputs.take(n)).diagnostics.len() > 0,
    decreases n,
{
    if n > 0 {
        lemma_marking_prefix(inputs, i, j, n - 1);
        assert(inputs.take(n).drop_last() =~= inputs.take(n - 1));
        assert(inputs.take(n).last() == inputs[n - 1]);
    }
}

/// A method with a required parameter after an optional one is rejected.
pub proof fn lemma_required_after_optional(method: ExportMethodView, i: int, j: int)
    requires
        2 <= i < j < method.sig.inputs.len(),
        is_marked(method.sig.inputs[i]),
        !is_marked(method.sig.inputs[j]),
    ensures
        spec_validate(method) is Rejected,
{
    let inputs = method.sig.inputs;
    lemma_marking_prefix(inputs, i, j, inputs.len() as int);
    assert(inputs.take(inputs.len() as int) =~= inputs);
}

/// A method that is accepted is registered: its entry holds its name, its
/// mode, and its parameters as the normalized signature has them, the
/// optional ones last.
pub proof fn lemma_accepted_is_registered(class_ty: Seq<char>, method: ExportMethodView)
    requires
        spec_validate(method) is Accepted,
    ensures
        spec_register(class_ty, method) matches EmittedView::Registration(entry) && {
            let accepted = spec_validate(method)->Accepted_0;
            &&& entry.class_ty == class_ty
            &&& entry.name == method.sig.name
            &&& entry.rpc_mode == method.args.rpc_mode
            &&& entry.params.len() == method.sig.inputs.len()
            &&& forall|i: int|
                0 <= i < entry.params.len() ==> (#[trigger] entry.params[i]).param
                    == accepted.sig.inputs[i]
            &&& forall|i: int|
                0 <= i < entry.params.len() ==> (#[trigger] entry.params[i]).optional == (i
                    >= entry.params.len() - declared_optional(accepted))
        },
{
}

/// A parameter without a name is named after its position, in the
/// normalized signature and in the registration alike.
pub proof fn lemma_unnamed_parameter(
    class_ty: Seq<char>,
    method: ExportMethodView,
    i: int,
    ty: Seq<char>,
)
    requires
        spec_validate(method) is Accepted,
        0 <= i < method.sig.inputs.len(),
        method.sig.inputs[i].kind == ParamKindView::Typed(PatternView::Wild, ty),
    ensures
        spec_validate(method)->Accepted_0.sig.inputs[i].kind == ParamKindView::Typed(
            PatternView::Ident(
                BindingView {
                    by_ref: false,
                    mutable: false,
                    name: "___unused_arg_"@ + decimal(i as nat),
                    subpattern: None,
                },
            ),
            ty,
        ),
        spec_register(class_ty, method) matches EmittedView::Registration(entry)
            && entry.params[i].param == spec_validate(method)->Accepted_0.sig.inputs[i],
{
    lemma_accepted_is_registered(class_ty, method);
}

} // verus!
