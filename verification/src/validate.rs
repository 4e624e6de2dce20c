//! Checking the signature of an exported method and bringing it into the
//! form in which it is registered.
//!
//! The checks run in a fixed order: the two leading parameters, the generic
//! parameters, the placement of optional parameters, the number of optional
//! parameters. A signature that passes is normalized.

use crate::diagnostic::{Diagnostic, DiagnosticView};
use crate::export::{ExportArgs, ExportMethod, ExportMethodView};
use crate::lists::{clone_all, push_item};
use crate::seqs::{lemma_empty_prefix, lemma_filter_step};
use crate::syntax::{
    clone_optional_text, Binding, BindingView, GenericKind, GenericParam, GenericParamView,
    Marker, MarkerView, Param, ParamKind, ParamKindView, ParamView, Pattern, PatternView,
    Signature, SignatureView,
};
use crate::text::{decimal, decimal_text};
use vstd::prelude::*;
use vstd::string::*;

verus! {

/// Whether an attribute on a parameter marks it as optional: it is the
/// single word `opt`.
pub open spec fn is_optional_marker(marker: MarkerView) -> bool {
    marker.path.is_word("opt"@)
}

/// The test that keeps every attribute but the optional markers.
pub open spec fn not_optional_marker() -> spec_fn(MarkerView) -> bool {
    |marker: MarkerView| !is_optional_marker(marker)
}

/// The test that picks the parameters that are marked as optional.
pub open spec fn marked() -> spec_fn(ParamView) -> bool {
    |param: ParamView| is_marked(param)
}

/// Whether a parameter is marked as optional.
pub open spec fn is_marked(param: ParamView) -> bool {
    exists|i: int| 0 <= i < param.attrs.len() && is_optional_marker(#[trigger] param.attrs[i])
}

/// The attributes of a parameter without its optional markers.
pub open spec fn without_optional_markers(attrs: Seq<MarkerView>) -> Seq<MarkerView> {
    attrs.filter(not_optional_marker())
}

/// Whether a method has a generic parameter of the given kind.
pub open spec fn has_kind(generics: Seq<GenericParamView>, kind: GenericKind) -> bool {
    exists|i: int| 0 <= i < generics.len() && (#[trigger] generics[i]).kind == kind
}

/// The diagnostic for one kind of generic parameter, where a method has one.
pub open spec fn kind_diagnostic(
    sig: SignatureView,
    kind: GenericKind,
    message: Seq<char>,
) -> Seq<DiagnosticView> {
    if has_kind(sig.generics, kind) {
        seq![DiagnosticView { span: sig.span, message }]
    } else {
        Seq::empty()
    }
}

/// The diagnostics for the generic parameters of a method: one for each kind
/// that it has, types first, then lifetimes, then constants.
pub open spec fn generic_diagnostics(sig: SignatureView) -> Seq<DiagnosticView> {
    kind_diagnostic(
        sig,
        GenericKind::Type,
        "type parameters not allowed in exported functions"@,
    ) + kind_diagnostic(
        sig,
        GenericKind::Lifetime,
        "lifetime parameters not allowed in exported functions"@,
    ) + kind_diagnostic(
        sig,
        GenericKind::Const,
        "const parameters not allowed in exported functions"@,
    )
}

/// What the optional markers of a parameter list amount to.
pub struct MarkingView {
    /// How many parameters are optional; `None` where none is.
    pub count: Option<nat>,
    pub diagnostics: Seq<DiagnosticView>,
}

/// The optional markers of a parameter list, read from the first parameter
/// to the last.
///
/// The two leading parameters cannot be optional. From the first optional
/// parameter on, every parameter must be optional.
pub open spec fn spec_marking(inputs: Seq<ParamView>) -> MarkingView
    decreases inputs.len(),
{
    if inputs.len() == 0 {
        MarkingView { count: None, diagnostics: Seq::empty() }
    } else {
        let before = spec_marking(inputs.drop_last());
        let param = inputs.last();
        if is_marked(param) {
            if inputs.len() <= 2 {
                MarkingView {
                    count: before.count,
                    diagnostics: before.diagnostics.push(
                        DiagnosticView {
                            span: param.span,
                            message: "self or owner cannot be optional"@,
                        },
                    ),
                }
            } else {
                MarkingView {
                    count: Some(
                        match before.count {
                            Some(n) => n + 1,
                            None => 1,
                        },
                    ),
                    diagnostics: before.diagnostics,
                }
            }
        } else if before.count.is_some() {
            MarkingView {
                count: before.count,
                diagnostics: before.diagnostics.push(
                    DiagnosticView {
                        span: param.span,
                        message: "cannot add required parameters after optional ones"@,
                    },
                ),
            }
        } else {
            before
        }
    }
}

/// The name given to a parameter that has none, from its position.
pub open spec fn synthetic_name(index: nat) -> Seq<char> {
    "___unused_arg_"@ + decimal(index)
}

/// A pattern as it is registered: a parameter without a name gets one from
/// its position, and a binding is no longer `mut`.
pub open spec fn spec_normalize_pattern(pattern: PatternView, index: nat) -> PatternView {
    match pattern {
        PatternView::Wild => PatternView::Ident(
            BindingView {
                by_ref: false,
                mutable: false,
                name: synthetic_name(index),
                subpattern: None,
            },
        ),
        PatternView::Ident(binding) => PatternView::Ident(
            BindingView {
                by_ref: binding.by_ref,
                mutable: false,
                name: binding.name,
                subpattern: binding.subpattern,
            },
        ),
        PatternView::Other(text) => PatternView::Other(text),
    }
}

/// A parameter as it is registered: without optional markers, and with its
/// pattern normalized.
pub open spec fn spec_normalize_param(param: ParamView, index: nat) -> ParamView {
    ParamView {
        attrs: without_optional_markers(param.attrs),
        span: param.span,
        kind: match param.kind {
            ParamKindView::Receiver(text) => ParamKindView::Receiver(text),
            ParamKindView::Typed(pattern, ty) => ParamKindView::Typed(
                spec_normalize_pattern(pattern, index),
                ty,
            ),
        },
    }
}

/// A signature as it is registered: every parameter normalized, and not
/// `unsafe`.
pub open spec fn spec_normalize_signature(sig: SignatureView) -> SignatureView {
    SignatureView {
        constness: sig.constness,
        asyncness: sig.asyncness,
        unsafety: false,
        abi: sig.abi,
        name: sig.name,
        span: sig.span,
        generics: sig.generics,
        where_clause: sig.where_clause,
        inputs: Seq::new(
            sig.inputs.len(),
            |i: int| spec_normalize_param(sig.inputs[i], i as nat),
        ),
        variadic: sig.variadic,
        output: sig.output,
    }
}

/// The message for a method that takes fewer than two parameters.
pub open spec fn arity_message() -> Seq<char> {
    "exported methods must take self and owner as arguments"@
}

/// The message for a method with more optional parameters than it can have.
pub open spec fn bound_message(max_optional: nat, count: nat) -> Seq<char> {
    "there can be at most "@ + decimal(max_optional) + " optional arguments, got "@ + decimal(
        count,
    )
}

/// The number of optional parameters of a method: what its markers say, or,
/// where no parameter is marked, what its directive declares.
pub open spec fn optional_count(method: ExportMethodView) -> Option<nat> {
    match spec_marking(method.sig.inputs).count {
        Some(n) => Some(n),
        None => match method.args.optional_arg_count {
            Some(n) => Some(n as nat),
            None => None,
        },
    }
}

/// What becomes of an exported method when its signature is checked.
pub enum ValidationView {
    /// The method with its signature normalized and its optional parameters
    /// counted.
    Accepted(ExportMethodView),
    /// The reasons for which the method is not registered.
    Rejected(Seq<DiagnosticView>),
}

/// The check of one exported method.
pub open spec fn spec_validate(method: ExportMethodView) -> ValidationView {
    let sig = method.sig;
    let total = sig.inputs.len();
    let marking = spec_marking(sig.inputs);
    if total < 2 {
        ValidationView::Rejected(seq![DiagnosticView { span: sig.span, message: arity_message() }])
    } else if generic_diagnostics(sig).len() > 0 {
        ValidationView::Rejected(generic_diagnostics(sig))
    } else if marking.diagnostics.len() > 0 {
        ValidationView::Rejected(marking.diagnostics)
    } else {
        match optional_count(method) {
            Some(count) => if count > total - 2 {
                ValidationView::Rejected(
                    seq![
                        DiagnosticView {
                            span: sig.span,
                            message: bound_message((total - 2) as nat, count),
                        },
                    ],
                )
            } else {
                ValidationView::Accepted(
                    ExportMethodView {
                        sig: spec_normalize_signature(sig),
                        args: ExportArgs {
                            optional_arg_count: Some(count as usize),
                            rpc_mode: method.args.rpc_mode,
                        },
                    },
                )
            },
            None => ValidationView::Accepted(
                ExportMethodView {
                    sig: spec_normalize_signature(sig),
                    args: ExportArgs { optional_arg_count: None, rpc_mode: method.args.rpc_mode },
                },
            ),
        }
    }
}

/// What becomes of an exported method when its signature is checked.
#[derive(Debug)]
pub enum Validation {
    /// The method with its signature normalized and its optional parameters
    /// counted.
    Accepted(ExportMethod),
    /// The reasons for which the method is not registered.
    Rejected(Vec<Diagnostic>),
}

impl DeepView for Validation {
    type V = ValidationView;

    open spec fn deep_view(&self) -> ValidationView {
        match self {
            Validation::Accepted(method) => ValidationView::Accepted(method.deep_view()),
            Validation::Rejected(diagnostics) => ValidationView::Rejected(
                diagnostics.deep_view(),
            ),
        }
    }
}

/// The attributes of a parameter without its optional markers, and whether
/// there was such a marker.
pub fn strip_optional_markers(attrs: &Vec<Marker>) -> (stripped: (Vec<Marker>, bool))
    ensures
        stripped.0.deep_view() == without_optional_markers(attrs.deep_view()),
        stripped.1 == (exists|i: int|
            0 <= i < attrs.deep_view().len() && is_optional_marker(#[trigger] attrs.deep_view()[i])),
{
    let mut kept: Vec<Marker> = Vec::new();
    let mut found = false;
    let mut i: usize = 0;
    let ghost all = attrs.deep_view();
    proof {
        lemma_empty_prefix(all, not_optional_marker());
        assert(kept.deep_view() =~= Seq::empty());
    }
    while i < attrs.len()
        invariant
            i <= attrs.len(),
            all == attrs.deep_view(),
            kept.deep_view() == all.take(i as int).filter(not_optional_marker()),
            found == (exists|j: int| 0 <= j < i && is_optional_marker(#[trigger] all[j])),
        decreases attrs.len() - i,
    {
        proof {
            lemma_filter_step(all, i as int, not_optional_marker());
            assert(all[i as int] == attrs[i as int].deep_view());
        }
        if attrs[i].path.is_word("opt") {
            found = true;
        } else {
            push_item(&mut kept, attrs[i].clone());
        }
        i += 1;
    }
    assert(all.take(attrs.len() as int) =~= all);
    (kept, found)
}

fn any_of_kind(generics: &Vec<GenericParam>, kind: GenericKind) -> (found: bool)
    ensures
        found == has_kind(generics.deep_view(), kind),
{
    let mut i: usize = 0;
    while i < generics.len()
        invariant
            i <= generics.len(),
            forall|j: int| 0 <= j < i ==> (#[trigger] generics.deep_view()[j]).kind != kind,
        decreases generics.len() - i,
    {
        if generics[i].kind == kind {
            assert(generics.deep_view()[i as int].kind == kind);
            return true;
        }
        i += 1;
    }
    false
}

fn report_kind(
    diagnostics: &mut Vec<Diagnostic>,
    sig: &Signature,
    kind: GenericKind,
    message: &str,
)
    ensures
        final(diagnostics).deep_view() == old(diagnostics).deep_view() + kind_diagnostic(
            sig.deep_view(),
            kind,
            message@,
        ),
{
    if any_of_kind(&sig.generics, kind) {
        push_item(diagnostics, Diagnostic::new(sig.span, message));
        assert(final(diagnostics).deep_view() =~= old(diagnostics).deep_view() + kind_diagnostic(
            sig.deep_view(),
            kind,
            message@,
        ));
    } else {
        assert(diagnostics.deep_view() =~= old(diagnostics).deep_view() + kind_diagnostic(
            sig.deep_view(),
            kind,
            message@,
        ));
    }
}

fn check_generics(sig: &Signature) -> (diagnostics: Vec<Diagnostic>)
    ensures
        diagnostics.deep_view() == generic_diagnostics(sig.deep_view()),
{
    let mut diagnostics: Vec<Diagnostic> = Vec::new();
    assert(diagnostics.deep_view() =~= Seq::empty());
    report_kind(
        &mut diagnostics,
        sig,
        GenericKind::Type,
        "type parameters not allowed in exported functions",
    );
    report_kind(
        &mut diagnostics,
        sig,
        GenericKind::Lifetime,
        "lifetime parameters not allowed in exported functions",
    );
    report_kind(
        &mut diagnostics,
        sig,
        GenericKind::Const,
        "const parameters not allowed in exported functions",
    );
    assert(diagnostics.deep_view() =~= generic_diagnostics(sig.deep_view()));
    diagnostics
}

/// What the optional markers of a parameter list amount to.
pub struct Marking {
    /// How many parameters are optional; `None` where none is.
    pub count: Option<usize>,
    pub diagnostics: Vec<Diagnostic>,
}

impl DeepView for Marking {
    type V = MarkingView;

    open spec fn deep_view(&self) -> MarkingView {
        MarkingView {
            count: match self.count {
                Some(n) => Some(n as nat),
                None => None,
            },
            diagnostics: self.diagnostics.deep_view(),
        }
    }
}

fn param_is_marked(param: &Param) -> (marked: bool)
    ensures
        marked == is_marked(param.deep_view()),
{
    let mut i: usize = 0;
    while i < param.attrs.len()
        invariant
            i <= param.attrs.len(),
            forall|j: int| 0 <= j < i ==> !is_optional_marker(#[trigger] param.attrs.deep_view()[j]),
        decreases param.attrs.len() - i,
    {
        if param.attrs[i].path.is_word("opt") {
            assert(is_optional_marker(param.deep_view().attrs[i as int]));
            return true;
        }
        i += 1;
    }
    false
}

/// Reads the optional markers of a parameter list.
pub fn check_marking(inputs: &Vec<Param>) -> (marking: Marking)
    ensures
        marking.deep_view() == spec_marking(inputs.deep_view()),
{
    let mut marking = Marking { count: None, diagnostics: Vec::new() };
    let ghost all = inputs.deep_view();
    assert(marking.diagnostics.deep_view() =~= Seq::empty());
    let mut i: usize = 0;
    while i < inputs.len()
        invariant
            i <= inputs.len(),
            all == inputs.deep_view(),
            marking.deep_view() == spec_marking(all.take(i as int)),
            marking.count matches Some(n) ==> n <= i,
        decreases inputs.len() - i,
    {
        proof {
            assert(all.take(i + 1).drop_last() =~= all.take(i as int));
            assert(all.take(i + 1).last() == inputs[i as int].deep_view());
        }
        let param = &inputs[i];
        if param_is_marked(param) {
            if i < 2 {
                push_item(
                    &mut marking.diagnostics,
                    Diagnostic::new(param.span, "self or owner cannot be optional"),
                );
            } else {
                marking.count = Some(
                    match marking.count {
                        Some(n) => n + 1,
                        None => 1,
                    },
                );
            }
        } else if marking.count.is_some() {
            push_item(
                &mut marking.diagnostics,
                Diagnostic::new(param.span, "cannot add required parameters after optional ones"),
            );
        }
        i += 1;
    }
    assert(all.take(inputs.len() as int) =~= all);
    marking
}

fn normalize_pattern(pattern: &Pattern, index: usize) -> (out: Pattern)
    ensures
        out.deep_view() == spec_normalize_pattern(pattern.deep_view(), index as nat),
{
    match pattern {
        Pattern::Wild => {
            let mut name = String::from_str("___unused_arg_");
            let number = decimal_text(index);
            name.append(number.as_str());
            Pattern::Ident(Binding { by_ref: false, mutable: false, name, subpattern: None })
        },
        Pattern::Ident(binding) => Pattern::Ident(
            Binding {
                by_ref: binding.by_ref,
                mutable: false,
                name: binding.name.clone(),
                subpattern: clone_optional_text(&binding.subpattern),
            },
        ),
        Pattern::Other(text) => Pattern::Other(text.clone()),
    }
}

fn normalize_param(param: &Param, index: usize) -> (out: Param)
    ensures
        out.deep_view() == spec_normalize_param(param.deep_view(), index as nat),
{
    let (attrs, _) = strip_optional_markers(&param.attrs);
    let kind = match &param.kind {
        ParamKind::Receiver(text) => ParamKind::Receiver(text.clone()),
        ParamKind::Typed(pattern, ty) => ParamKind::Typed(
            normalize_pattern(pattern, index),
            ty.clone(),
        ),
    };
    Param { attrs, span: param.span, kind }
}

/// Brings a signature into the form in which it is registered.
pub fn normalize_signature(sig: &Signature) -> (out: Signature)
    ensures
        out.deep_view() == spec_normalize_signature(sig.deep_view()),
{
    let mut inputs: Vec<Param> = Vec::new();
    let mut i: usize = 0;
    while i < sig.inputs.len()
        invariant
            i <= sig.inputs.len(),
            inputs.len() == i,
            forall|j: int|
                0 <= j < i ==> #[trigger] inputs.deep_view()[j] == spec_normalize_param(
                    sig.inputs.deep_view()[j],
                    j as nat,
                ),
        decreases sig.inputs.len() - i,
    {
        push_item(&mut inputs, normalize_param(&sig.inputs[i], i));
        i += 1;
    }
    let out = Signature {
        constness: sig.constness,
        asyncness: sig.asyncness,
        unsafety: false,
        abi: clone_optional_text(&sig.abi),
        name: sig.name.clone(),
        span: sig.span,
        generics: clone_all(&sig.generics),
        where_clause: clone_optional_text(&sig.where_clause),
        inputs,
        variadic: clone_optional_text(&sig.variadic),
        output: clone_optional_text(&sig.output),
    };
    assert(out.deep_view().inputs =~= spec_normalize_signature(sig.deep_view()).inputs);
    out
}

/// Writes the message for a method with more optional parameters than it
/// can have.
pub fn bound_text(max_optional: usize, count: usize) -> (message: String)
    ensures
        message@ == bound_message(max_optional as nat, count as nat),
{
    let mut message = String::from_str("there can be at most ");
    let max_text = decimal_text(max_optional);
    message.append(max_text.as_str());
    message.append(" optional arguments, got ");
    let count_text = decimal_text(count);
    message.append(count_text.as_str());
    message
}

/// A list that holds one diagnostic.
pub(crate) fn single(diagnostic: Diagnostic) -> (list: Vec<Diagnostic>)
    ensures
        list.deep_view() == seq![diagnostic.deep_view()],
{
    let mut list: Vec<Diagnostic> = Vec::new();
    push_item(&mut list, diagnostic);
    assert(list.deep_view() =~= seq![diagnostic.deep_view()]);
    list
}

/// Checks the signature of an exported method.
///
/// A method is rejected if it takes fewer than two parameters; else if it
/// has generic parameters; else if its optional markers are misplaced; else
/// if it has more optional parameters than parameters after the first two.
/// Otherwise it is accepted, with its signature normalized and the number of
/// its optional parameters in its directive.
pub fn validate(method: &ExportMethod) -> (outcome: Validation)
    ensures
        outcome.deep_view() == spec_validate(method.deep_view()),
{
    let sig = &method.sig;
    let total = sig.inputs.len();
    if total < 2 {
        return Validation::Rejected(
            single(
                Diagnostic::new(sig.span, "exported methods must take self and owner as arguments"),
            ),
        );
    }
    let generic = check_generics(sig);
    if generic.len() > 0 {
        return Validation::Rejected(generic);
    }
    let marking = check_marking(&sig.inputs);
    if marking.diagnostics.len() > 0 {
        return Validation::Rejected(marking.diagnostics);
    }
    let count = match marking.count {
        Some(n) => Some(n),
        None => method.args.optional_arg_count,
    };
    match count {
        Some(n) => {
            if n > total - 2 {
                return Validation::Rejected(
                    single(Diagnostic { span: sig.span, message: bound_text(total - 2, n) }),
                );
            }
        },
        None => {},
    }
    Validation::Accepted(
        ExportMethod {
            sig: normalize_signature(sig),
            args: ExportArgs { optional_arg_count: count, rpc_mode: method.args.rpc_mode },
        },
    )
}

} // verus!
