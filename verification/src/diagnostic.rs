//! Diagnostics: what is reported, and where.

use crate::lists::push_item;
use proc_macro2::Span;
use vstd::prelude::*;

verus! {

/// `proc_macro2::Span`: a place in the source text. The declaration makes
/// the type known and claims nothing of it. A span is never made or
/// inspected here: it is taken from what was read and put on what is
/// reported.
#[verifier::external_type_specification]
#[verifier::external_body]
pub struct ExSpan(proc_macro2::Span);

/// A message bound to the place in the source that it is about.
#[derive(Debug)]
pub struct Diagnostic {
    pub span: Span,
    pub message: String,
}

/// A diagnostic as a mathematical value.
pub struct DiagnosticView {
    pub span: Span,
    pub message: Seq<char>,
}

impl DeepView for Diagnostic {
    type V = DiagnosticView;

    open spec fn deep_view(&self) -> DiagnosticView {
        DiagnosticView { span: self.span, message: self.message@ }
    }
}

impl Clone for Diagnostic {
    fn clone(&self) -> (copy: Self)
        ensures
            copy.deep_view() == self.deep_view(),
    {
        Diagnostic { span: self.span, message: self.message.clone() }
    }
}

impl Diagnostic {
    /// A diagnostic at `span` that says `message`.
    pub fn new(span: Span, message: &str) -> (made: Self)
        ensures
            made.deep_view() == (DiagnosticView { span, message: message@ }),
    {
        Diagnostic { span, message: message.to_owned() }
    }
}

/// Appends copies of `more` to `list`.
pub(crate) fn append_diagnostics(list: &mut Vec<Diagnostic>, more: &Vec<Diagnostic>)
    ensures
        final(list).deep_view() == old(list).deep_view() + more.deep_view(),
{
    let mut i: usize = 0;
    while i < more.len()
        invariant
            i <= more.len(),
            list.deep_view() == old(list).deep_view() + more.deep_view().take(i as int),
        decreases more.len() - i,
    {
        push_item(list, more[i].clone());
        assert(list.deep_view() =~= old(list).deep_view() + more.deep_view().take(i + 1));
        i += 1;
    }
    assert(more.deep_view().take(more.len() as int) =~= more.deep_view());
}

} // verus!
