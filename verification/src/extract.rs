//! Finding the exported methods of a class.
//!
//! A method is exported if it carries an export marker: an outer attribute
//! whose path ends in `export`. The markers are taken off the method, the
//! first one is read as its directive, and the method is recorded.

use crate::diagnostic::{append_diagnostics, Diagnostic, DiagnosticView};
use crate::directive::{parse_directive, spec_parse_directive};
use crate::export::{
    ClassMethodExport, ClassMethodExportView, ExportArgs, ExportMethod, ExportMethodView,
};
use crate::lists::{clone_all, push_item};
use crate::seqs::{
    lemma_empty_filter_map, lemma_empty_flat, lemma_empty_prefix, lemma_filter_map_step,
    lemma_filter_step, lemma_flat_step, lemma_map_step,
};
use crate::syntax::{
    clone_optional_text, Attribute, AttributeView, ImplBlock, ImplBlockView, Member, MemberView,
    Method, MethodView, Param, ParamView, Signature, SignatureView,
};
use crate::validate::{strip_optional_markers, without_optional_markers};
use vstd::prelude::*;

verus! {

/// Whether an attribute is an export marker: an outer attribute whose path
/// ends in `export`.
pub open spec fn is_export_marker(attr: AttributeView) -> bool {
    attr.outer && attr.path.ends_in("export"@)
}

/// The test that picks the export markers.
pub open spec fn export_marker() -> spec_fn(AttributeView) -> bool {
    |attr: AttributeView| is_export_marker(attr)
}

/// The test that keeps every attribute but the export markers.
pub open spec fn not_export_marker() -> spec_fn(AttributeView) -> bool {
    |attr: AttributeView| !is_export_marker(attr)
}

/// The export markers among some attributes, in their order.
pub open spec fn export_markers(attrs: Seq<AttributeView>) -> Seq<AttributeView> {
    attrs.filter(export_marker())
}

/// Whether a method is exported.
pub open spec fn is_exported(method: MethodView) -> bool {
    export_markers(method.attrs).len() > 0
}

/// The directive of an exported method: that of its first marker.
pub open spec fn directive_args(markers: Seq<AttributeView>) -> Option<ExportArgs> {
    if markers.len() == 0 {
        None
    } else {
        Some(spec_parse_directive(markers[0].payload).args)
    }
}

/// The diagnostic for an export marker that is not the first on its method.
pub open spec fn duplicate_diagnostic() -> spec_fn(AttributeView) -> DiagnosticView {
    |attr: AttributeView|
        DiagnosticView { span: attr.span, message: "export marker was set more than once"@ }
}

/// What is reported of the export markers of one method: what reading the
/// first one reports, and one diagnostic for each marker after it.
pub open spec fn marker_diagnostics(markers: Seq<AttributeView>) -> Seq<DiagnosticView> {
    if markers.len() == 0 {
        Seq::empty()
    } else {
        spec_parse_directive(markers[0].payload).diagnostics + markers.skip(1).map_values(
            duplicate_diagnostic(),
        )
    }
}

/// A parameter without its optional markers.
pub open spec fn strip_param() -> spec_fn(ParamView) -> ParamView {
    |param: ParamView|
        ParamView {
            attrs: without_optional_markers(param.attrs),
            span: param.span,
            kind: param.kind,
        }
}

/// A signature without the optional markers on its parameters.
pub open spec fn spec_strip_signature(sig: SignatureView) -> SignatureView {
    SignatureView {
        constness: sig.constness,
        asyncness: sig.asyncness,
        unsafety: sig.unsafety,
        abi: sig.abi,
        name: sig.name,
        span: sig.span,
        generics: sig.generics,
        where_clause: sig.where_clause,
        inputs: sig.inputs.map_values(strip_param()),
        variadic: sig.variadic,
        output: sig.output,
    }
}

/// A method as it stays in the class: without export markers and, if it is
/// exported, without optional markers. Nothing else changes.
pub open spec fn spec_rewrite_method(method: MethodView) -> MethodView {
    MethodView {
        attrs: method.attrs.filter(not_export_marker()),
        qualifiers: method.qualifiers,
        sig: if is_exported(method) {
            spec_strip_signature(method.sig)
        } else {
            method.sig
        },
        body: method.body,
    }
}

/// A member as it stays in the class.
pub open spec fn rewrite_member() -> spec_fn(MemberView) -> MemberView {
    |member: MemberView|
        match member {
            MemberView::Method(method) => MemberView::Method(spec_rewrite_method(method)),
            MemberView::Other(text) => MemberView::Other(text),
        }
}

/// The record of an exported method: its signature as declared and its
/// directive.
pub open spec fn spec_export_record(method: MethodView) -> Option<ExportMethodView> {
    match directive_args(export_markers(method.attrs)) {
        Some(args) => Some(ExportMethodView { sig: method.sig, args }),
        None => None,
    }
}

/// The record of a member, if it is an exported method.
pub open spec fn export_record() -> spec_fn(MemberView) -> Option<ExportMethodView> {
    |member: MemberView|
        match member {
            MemberView::Method(method) => spec_export_record(method),
            MemberView::Other(_) => None,
        }
}

/// What is reported of the export markers of a member.
pub open spec fn member_diagnostics() -> spec_fn(MemberView) -> Seq<DiagnosticView> {
    |member: MemberView|
        match member {
            MemberView::Method(method) => marker_diagnostics(export_markers(method.attrs)),
            MemberView::Other(_) => Seq::empty(),
        }
}

/// What is found in a class.
#[derive(Debug)]
pub struct Extraction {
    /// The members as they stay in the class, in their order.
    pub members: Vec<Member>,
    /// The exported methods, in their order.
    pub export: ClassMethodExport,
    /// What was reported while reading the directives, in the order of the
    /// members.
    pub diagnostics: Vec<Diagnostic>,
}

pub struct ExtractionView {
    pub members: Seq<MemberView>,
    pub export: ClassMethodExportView,
    pub diagnostics: Seq<DiagnosticView>,
}

impl DeepView for Extraction {
    type V = ExtractionView;

    open spec fn deep_view(&self) -> ExtractionView {
        ExtractionView {
            members: self.members.deep_view(),
            export: self.export.deep_view(),
            diagnostics: self.diagnostics.deep_view(),
        }
    }
}

/// What is found in a class: every member rewritten, the records of the
/// exported methods, and the diagnostics of their markers, each in the order
/// of declaration.
pub open spec fn spec_extract(block: ImplBlockView) -> ExtractionView {
    ExtractionView {
        members: block.items.map_values(rewrite_member()),
        export: ClassMethodExportView {
            class_ty: block.class_ty,
            methods: block.items.filter_map(export_record()),
        },
        diagnostics: block.items.map_values(member_diagnostics()).flatten(),
    }
}

/// One more marker: its diagnostics follow those of the markers before it.
proof fn lemma_marker_diagnostics_push(markers: Seq<AttributeView>, attr: AttributeView)
    ensures
        marker_diagnostics(markers.push(attr)) == if markers.len() == 0 {
            spec_parse_directive(attr.payload).diagnostics
        } else {
            marker_diagnostics(markers).push(duplicate_diagnostic()(attr))
        },
        directive_args(markers.push(attr)) == if markers.len() == 0 {
            Some(spec_parse_directive(attr.payload).args)
        } else {
            directive_args(markers)
        },
{
    let more = markers.push(attr);
    if markers.len() == 0 {
        assert(more.skip(1).map_values(duplicate_diagnostic()) =~= Seq::empty());
        assert(marker_diagnostics(more) =~= spec_parse_directive(attr.payload).diagnostics);
    } else {
        assert(more.skip(1) =~= markers.skip(1).push(attr));
        assert(more.skip(1).map_values(duplicate_diagnostic()) =~= markers.skip(1).map_values(
            duplicate_diagnostic(),
        ).push(duplicate_diagnostic()(attr)));
        assert(marker_diagnostics(more) =~= marker_diagnostics(markers).push(
            duplicate_diagnostic()(attr),
        ));
    }
}

fn strip_signature(sig: &Signature) -> (out: Signature)
    ensures
        out.deep_view() == spec_strip_signature(sig.deep_view()),
{
    let mut inputs: Vec<Param> = Vec::new();
    let ghost all = sig.inputs.deep_view();
    let mut i: usize = 0;
    assert(inputs.deep_view() =~= all.take(0).map_values(strip_param()));
    while i < sig.inputs.len()
        invariant
            i <= sig.inputs.len(),
            all == sig.inputs.deep_view(),
            inputs.deep_view() == all.take(i as int).map_values(strip_param()),
        decreases sig.inputs.len() - i,
    {
        proof {
            lemma_map_step(all, i as int, strip_param());
        }
        let param = &sig.inputs[i];
        let (attrs, _) = strip_optional_markers(&param.attrs);
        push_item(&mut inputs, Param { attrs, span: param.span, kind: param.kind.clone() });
        i += 1;
    }
    assert(all.take(sig.inputs.len() as int) =~= all);
    Signature {
        constness: sig.constness,
        asyncness: sig.asyncness,
        unsafety: sig.unsafety,
        abi: clone_optional_text(&sig.abi),
        name: sig.name.clone(),
        span: sig.span,
        generics: clone_all(&sig.generics),
        where_clause: clone_optional_text(&sig.where_clause),
        inputs,
        variadic: clone_optional_text(&sig.variadic),
        output: clone_optional_text(&sig.output),
    }
}

/// Takes the export markers off one method and reads its directive.
///
/// Gives the method as it stays in the class and, if it is exported, its
/// record; what its markers report is added to `diagnostics`.
pub fn extract_method(method: &Method, diagnostics: &mut Vec<Diagnostic>) -> (out: (
    Method,
    Option<ExportMethod>,
))
    ensures
        out.0.deep_view() == spec_rewrite_method(method.deep_view()),
        out.1.deep_view() == spec_export_record(method.deep_view()),
        final(diagnostics).deep_view() == old(diagnostics).deep_view() + marker_diagnostics(
            export_markers(method.deep_view().attrs),
        ),
{
    let mut kept: Vec<Attribute> = Vec::new();
    let mut args: Option<ExportArgs> = None;
    let ghost all = method.attrs.deep_view();
    let ghost reported = old(diagnostics).deep_view();
    proof {
        lemma_empty_prefix(all, export_marker());
        lemma_empty_prefix(all, not_export_marker());
        assert(kept.deep_view() =~= Seq::empty());
        assert(diagnostics.deep_view() =~= reported + Seq::empty());
    }
    let mut i: usize = 0;
    while i < method.attrs.len()
        invariant
            i <= method.attrs.len(),
            all == method.attrs.deep_view(),
            kept.deep_view() == all.take(i as int).filter(not_export_marker()),
            args == directive_args(export_markers(all.take(i as int))),
            diagnostics.deep_view() == reported + marker_diagnostics(
                export_markers(all.take(i as int)),
            ),
        decreases method.attrs.len() - i,
    {
        let attr = &method.attrs[i];
        proof {
            lemma_filter_step(all, i as int, export_marker());
            lemma_filter_step(all, i as int, not_export_marker());
            lemma_marker_diagnostics_push(export_markers(all.take(i as int)), all[i as int]);
            assert(all[i as int] == attr.deep_view());
        }
        if attr.outer && attr.path.ends_in("export") {
            if args.is_none() {
                let directive = parse_directive(&attr.payload);
                args = Some(directive.args);
                append_diagnostics(diagnostics, &directive.diagnostics);
                assert(diagnostics.deep_view() =~= reported + marker_diagnostics(
                    export_markers(all.take(i + 1)),
                ));
            } else {
                push_item(
                    diagnostics,
                    Diagnostic::new(attr.span, "export marker was set more than once"),
                );
                assert(diagnostics.deep_view() =~= reported + marker_diagnostics(
                    export_markers(all.take(i + 1)),
                ));
            }
        } else {
            push_item(&mut kept, attr.clone());
        }
        i += 1;
    }
    assert(all.take(method.attrs.len() as int) =~= all);
    let sig = match args {
        Some(_) => strip_signature(&method.sig),
        None => method.sig.clone(),
    };
    let record = match args {
        Some(args) => Some(ExportMethod { sig: method.sig.clone(), args }),
        None => None,
    };
    let rewritten = Method {
        attrs: kept,
        qualifiers: method.qualifiers.clone(),
        sig,
        body: method.body.clone(),
    };
    (rewritten, record)
}

/// Finds the exported methods of a class.
///
/// Every member stays in its place; the exported methods lose their
/// markers. The records of the exported methods come in the order in which
/// the methods are declared, whatever stands between them.
pub fn impl_gdnative_expose(block: &ImplBlock) -> (found: Extraction)
    ensures
        found.deep_view() == spec_extract(block.deep_view()),
{
    let mut members: Vec<Member> = Vec::new();
    let mut methods: Vec<ExportMethod> = Vec::new();
    let mut diagnostics: Vec<Diagnostic> = Vec::new();
    let ghost all = block.items.deep_view();
    proof {
        lemma_empty_filter_map(all, export_record());
        lemma_empty_flat(all, member_diagnostics());
        assert(members.deep_view() =~= all.take(0).map_values(rewrite_member()));
        assert(methods.deep_view() =~= Seq::empty());
        assert(diagnostics.deep_view() =~= Seq::empty());
    }
    let mut i: usize = 0;
    while i < block.items.len()
        invariant
            i <= block.items.len(),
            all == block.items.deep_view(),
            members.deep_view() == all.take(i as int).map_values(rewrite_member()),
            methods.deep_view() == all.take(i as int).filter_map(export_record()),
            diagnostics.deep_view() == all.take(i as int).map_values(
                member_diagnostics(),
            ).flatten(),
        decreases block.items.len() - i,
    {
        proof {
            lemma_map_step(all, i as int, rewrite_member());
            lemma_filter_map_step(all, i as int, export_record());
            lemma_flat_step(all, i as int, member_diagnostics());
            assert(all[i as int] == block.items[i as int].deep_view());
        }
        match &block.items[i] {
            Member::Method(method) => {
                let (rewritten, record) = extract_method(method, &mut diagnostics);
                push_item(&mut members, Member::Method(rewritten));
                match record {
                    Some(record) => {
                        push_item(&mut methods, record);
                    },
                    None => {},
                }
            },
            Member::Other(text) => {
                push_item(&mut members, Member::Other(text.clone()));
                assert(diagnostics.deep_view() + Seq::<DiagnosticView>::empty()
                    =~= diagnostics.deep_view());
            },
        }
        i += 1;
    }
    assert(all.take(block.items.len() as int) =~= all);
    Extraction {
        members,
        export: ClassMethodExport { class_ty: block.class_ty.clone(), methods },
        diagnostics,
    }
}

} // verus!
