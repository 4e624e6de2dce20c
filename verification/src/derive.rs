//! The whole pass over one class: its members rewritten, and what the
//! registration procedure holds for each of its exported methods.

use crate::diagnostic::{Diagnostic, DiagnosticView};
use crate::emit::{emit, spec_emit, Emitted, EmittedView};
use crate::export::{ExportMethod, ExportMethodView};
use crate::extract::{impl_gdnative_expose, spec_extract};
use crate::lists::push_item;
use crate::seqs::lemma_map_step;
use crate::syntax::{ImplBlock, ImplBlockView, Member, MemberView};
use crate::validate::{spec_validate, validate, Validation, ValidationView};
use vstd::prelude::*;

verus! {

/// What stands for an exported method in the registration procedure: its
/// registration if its signature is accepted, else the reasons for which it
/// is rejected.
pub open spec fn spec_register(class_ty: Seq<char>, method: ExportMethodView) -> EmittedView {
    match spec_validate(method) {
        ValidationView::Accepted(normalized) => spec_emit(class_ty, normalized),
        ValidationView::Rejected(diagnostics) => EmittedView::Rejected(diagnostics),
    }
}

/// `spec_register` for the methods of one class.
pub open spec fn register_in(class_ty: Seq<char>) -> spec_fn(ExportMethodView) -> EmittedView {
    |method: ExportMethodView| spec_register(class_ty, method)
}

/// Checks one exported method of the class `class_ty` and describes its
/// registration, or says why it is rejected.
pub fn register(class_ty: &str, method: &ExportMethod) -> (emitted: Emitted)
    ensures
        emitted.deep_view() == spec_register(class_ty@, method.deep_view()),
{
    match validate(method) {
        Validation::Accepted(normalized) => emit(class_ty, &normalized),
        Validation::Rejected(diagnostics) => Emitted::Rejected(diagnostics),
    }
}

/// What the pass makes of one class.
#[derive(Debug)]
pub struct Derived {
    /// The type of the class, as written.
    pub class_ty: String,
    /// The members as they stay in the class, in their order.
    pub members: Vec<Member>,
    /// The body of the registration procedure: one entry for each exported
    /// method, in the order of declaration.
    pub registrations: Vec<Emitted>,
    /// What was reported while reading the directives.
    pub diagnostics: Vec<Diagnostic>,
}

pub struct DerivedView {
    pub class_ty: Seq<char>,
    pub members: Seq<MemberView>,
    pub registrations: Seq<EmittedView>,
    pub diagnostics: Seq<DiagnosticView>,
}

impl DeepView for Derived {
    type V = DerivedView;

    open spec fn deep_view(&self) -> DerivedView {
        DerivedView {
            class_ty: self.class_ty@,
            members: self.members.deep_view(),
            registrations: self.registrations.deep_view(),
            diagnostics: self.diagnostics.deep_view(),
        }
    }
}

/// What the pass makes of one class: the members and diagnostics of the
/// extraction, and for each exported method, in the order of declaration,
/// what stands for it in the registration procedure.
pub open spec fn spec_derive(block: ImplBlockView) -> DerivedView {
    let found = spec_extract(block);
    DerivedView {
        class_ty: block.class_ty,
        members: found.members,
        registrations: found.export.methods.map_values(register_in(block.class_ty)),
        diagnostics: found.diagnostics,
    }
}

/// Runs the pass over one class.
///
/// No diagnostic stops it: a method that is rejected leaves its reasons in
/// its place among the registrations, and every other method is treated as
/// if it stood alone.
pub fn derive_methods(block: &ImplBlock) -> (derived: Derived)
    ensures
        derived.deep_view() == spec_derive(block.deep_view()),
{
    let found = impl_gdnative_expose(block);
    let class_ty = found.export.class_ty;
    let methods = found.export.methods;
    let ghost all = methods.deep_view();
    let ghost each = register_in(block.class_ty@);
    let mut registrations: Vec<Emitted> = Vec::new();
    assert(registrations.deep_view() =~= all.take(0).map_values(each));
    let mut i: usize = 0;
    while i < methods.len()
        invariant
            i <= methods.len(),
            all == methods.deep_view(),
            class_ty@ == block.class_ty@,
            each == register_in(block.class_ty@),
            registrations.deep_view() == all.take(i as int).map_values(each),
        decreases methods.len() - i,
    {
        proof {
            lemma_map_step(all, i as int, each);
        }
        push_item(&mut registrations, register(class_ty.as_str(), &methods[i]));
        i += 1;
    }
    assert(all.take(methods.len() as int) =~= all);
    Derived { class_ty, members: found.members, registrations, diagnostics: found.diagnostics }
}

} // verus!
