//! Reading the payload of an export marker into a directive.
//!
//! A payload is read pair by pair. A pair that cannot be used is reported
//! and left out; the pairs after it are still read.

use crate::diagnostic::{Diagnostic, DiagnosticView};
use crate::export::ExportArgs;
use crate::lists::push_item;
use crate::rpc::RpcMode;
use crate::syntax::{
    Entry, EntryView, Literal, LiteralView, NameValue, NameValueView, Payload, PayloadView,
};
use crate::text::{joined, text_eq};
use proc_macro2::Span;
use vstd::prelude::*;
use vstd::string::*;

verus! {

/// What has been read of a payload so far.
pub struct Reading {
    /// The mode that a pair has set, if one has.
    pub rpc: Option<RpcMode>,
    pub diagnostics: Vec<Diagnostic>,
}

pub struct ReadingView {
    pub rpc: Option<RpcMode>,
    pub diagnostics: Seq<DiagnosticView>,
}

impl DeepView for Reading {
    type V = ReadingView;

    open spec fn deep_view(&self) -> ReadingView {
        ReadingView { rpc: self.rpc, diagnostics: self.diagnostics.deep_view() }
    }
}

impl ReadingView {
    /// Nothing read yet.
    pub open spec fn start() -> ReadingView {
        ReadingView { rpc: None, diagnostics: Seq::empty() }
    }

    /// This reading with one more diagnostic.
    pub open spec fn report(self, span: Span, message: Seq<char>) -> ReadingView {
        ReadingView {
            rpc: self.rpc,
            diagnostics: self.diagnostics.push(DiagnosticView { span, message }),
        }
    }

    /// The directive that this reading amounts to: the mode that was set,
    /// or none, and no optional parameters.
    pub open spec fn directive(self) -> DirectiveView {
        DirectiveView {
            args: ExportArgs {
                optional_arg_count: None,
                rpc_mode: match self.rpc {
                    Some(mode) => mode,
                    None => RpcMode::Disabled,
                },
            },
            diagnostics: self.diagnostics,
        }
    }
}

/// The reading after one more name/value pair.
///
/// Only the key `rpc` is known. Its value must be a string that names a
/// mode, and it may be set once.
pub open spec fn spec_read_pair(before: ReadingView, pair: NameValueView) -> ReadingView {
    if pair.key == "rpc"@ {
        match pair.value {
            LiteralView::Str(word) => match RpcMode::spec_parse(word) {
                Some(mode) => if before.rpc.is_some() {
                    before.report(pair.span, "rpc mode was set more than once"@)
                } else {
                    ReadingView { rpc: Some(mode), diagnostics: before.diagnostics }
                },
                None => before.report(pair.span, "unexpected value for rpc: "@ + word),
            },
            LiteralView::Other => before.report(
                pair.span,
                "unexpected type for rpc value, expected string"@,
            ),
        }
    } else {
        before.report(pair.span, "unknown option for export: `"@ + pair.key + "`"@)
    }
}

/// The reading after one more element of a list.
pub open spec fn spec_read_entry(before: ReadingView, entry: EntryView) -> ReadingView {
    match entry {
        EntryView::Pair(pair) => spec_read_pair(before, pair),
        EntryView::Other(other) => before.report(
            other.span,
            "unexpected argument in list: "@ + other.text,
        ),
    }
}

/// The reading after all elements of a list, from the first to the last.
pub open spec fn spec_read_entries(entries: Seq<EntryView>) -> ReadingView
    decreases entries.len(),
{
    if entries.len() == 0 {
        ReadingView::start()
    } else {
        spec_read_entry(spec_read_entries(entries.drop_last()), entries.last())
    }
}

/// The reading of a whole payload.
pub open spec fn spec_read_payload(payload: PayloadView) -> ReadingView {
    match payload {
        PayloadView::Bare => ReadingView::start(),
        PayloadView::Malformed(diagnostic) => ReadingView {
            rpc: None,
            diagnostics: seq![diagnostic],
        },
        PayloadView::Pair(pair) => spec_read_pair(ReadingView::start(), pair),
        PayloadView::List(entries) => spec_read_entries(entries),
        PayloadView::Other(other) => ReadingView::start().report(
            other.span,
            "unexpected attribute argument: "@ + other.text,
        ),
    }
}

/// A directive and what was reported while reading it.
#[derive(Debug)]
pub struct Directive {
    pub args: ExportArgs,
    pub diagnostics: Vec<Diagnostic>,
}

pub struct DirectiveView {
    pub args: ExportArgs,
    pub diagnostics: Seq<DiagnosticView>,
}

impl DeepView for Directive {
    type V = DirectiveView;

    open spec fn deep_view(&self) -> DirectiveView {
        DirectiveView { args: self.args, diagnostics: self.diagnostics.deep_view() }
    }
}

/// The directive that a payload stands for, with the diagnostics of the
/// pairs that were left out.
pub open spec fn spec_parse_directive(payload: PayloadView) -> DirectiveView {
    spec_read_payload(payload).directive()
}

fn report(reading: &mut Reading, span: Span, message: String)
    ensures
        final(reading).deep_view() == old(reading).deep_view().report(span, message@),
{
    push_item(&mut reading.diagnostics, Diagnostic { span, message });
}

fn read_pair(reading: &mut Reading, pair: &NameValue)
    ensures
        final(reading).deep_view() == spec_read_pair(old(reading).deep_view(), pair.deep_view()),
{
    if text_eq(pair.key.as_str(), "rpc") {
        match &pair.value {
            Literal::Str(word) => match RpcMode::parse(word.as_str()) {
                Some(mode) => {
                    if reading.rpc.is_some() {
                        report(
                            reading,
                            pair.span,
                            String::from_str("rpc mode was set more than once"),
                        );
                    } else {
                        reading.rpc = Some(mode);
                    }
                },
                None => {
                    report(reading, pair.span, joined("unexpected value for rpc: ", word.as_str()));
                },
            },
            Literal::Other => {
                report(
                    reading,
                    pair.span,
                    String::from_str("unexpected type for rpc value, expected string"),
                );
            },
        }
    } else {
        let mut message = joined("unknown option for export: `", pair.key.as_str());
        message.append("`");
        report(reading, pair.span, message);
    }
}

fn read_entries(entries: &Vec<Entry>) -> (reading: Reading)
    ensures
        reading.deep_view() == spec_read_entries(entries.deep_view()),
{
    let mut reading = Reading { rpc: None, diagnostics: Vec::new() };
    let mut i: usize = 0;
    assert(reading.deep_view().diagnostics =~= Seq::empty());
    while i < entries.len()
        invariant
            i <= entries.len(),
            reading.deep_view() == spec_read_entries(entries.deep_view().take(i as int)),
        decreases entries.len() - i,
    {
        let ghost read = entries.deep_view().take(i + 1);
        assert(read.drop_last() =~= entries.deep_view().take(i as int));
        assert(read.last() == entries[i as int].deep_view());
        match &entries[i] {
            Entry::Pair(pair) => {
                read_pair(&mut reading, pair);
            },
            Entry::Other(other) => {
                report(
                    &mut reading,
                    other.span,
                    joined("unexpected argument in list: ", other.text.as_str()),
                );
            },
        }
        i += 1;
    }
    assert(entries.deep_view().take(entries.len() as int) =~= entries.deep_view());
    reading
}

/// Reads the payload of an export marker.
///
/// A bare marker gives the default directive. A pair that cannot be used is
/// reported and left out, and the directive keeps its default there.
pub fn parse_directive(payload: &Payload) -> (directive: Directive)
    ensures
        directive.deep_view() == spec_parse_directive(payload.deep_view()),
{
    let mut reading = Reading { rpc: None, diagnostics: Vec::new() };
    assert(reading.deep_view().diagnostics =~= Seq::empty());
    match payload {
        Payload::Bare => {},
        Payload::Malformed(diagnostic) => {
            push_item(&mut reading.diagnostics, diagnostic.clone());
            assert(reading.deep_view().diagnostics =~= seq![diagnostic.deep_view()]);
        },
        Payload::Pair(pair) => {
            read_pair(&mut reading, pair);
        },
        Payload::List(entries) => {
            reading = read_entries(entries);
        },
        Payload::Other(other) => {
            report(
                &mut reading,
                other.span,
                joined("unexpected attribute argument: ", other.text.as_str()),
            );
        },
    }
    let rpc_mode = match reading.rpc {
        Some(mode) => mode,
        None => RpcMode::Disabled,
    };
    Directive {
        args: ExportArgs { optional_arg_count: None, rpc_mode },
        diagnostics: reading.diagnostics,
    }
}

} // verus!
