//! The syntax that the export pass reads: the members of a class, their
//! attributes and their signatures. Each part holds what the pass inspects;
//! what it only carries along is kept as the text that was written.

use crate::diagnostic::{Diagnostic, DiagnosticView};
use crate::lists::clone_all;
use crate::text::text_eq;
use proc_macro2::Span;
use vstd::prelude::*;

verus! {

/// A copy of a text that may be absent.
pub(crate) fn clone_optional_text(text: &Option<String>) -> (copy: Option<String>)
    ensures
        copy.deep_view() == text.deep_view(),
{
    match text {
        Some(t) => Some(t.clone()),
        None => None,
    }
}

/// The path that names an attribute, such as `export` or `a::export`.
#[derive(Debug)]
pub struct Path {
    /// Whether the path starts with `::`.
    pub global: bool,
    pub segments: Vec<String>,
}

pub struct PathView {
    pub global: bool,
    pub segments: Seq<Seq<char>>,
}

impl DeepView for Path {
    type V = PathView;

    open spec fn deep_view(&self) -> PathView {
        PathView { global: self.global, segments: self.segments.deep_view() }
    }
}

impl Clone for Path {
    fn clone(&self) -> (copy: Self)
        ensures
            copy.deep_view() == self.deep_view(),
    {
        Path { global: self.global, segments: clone_all(&self.segments) }
    }
}

impl PathView {
    /// Whether the last segment of the path is `name`, whatever stands
    /// before it.
    pub open spec fn ends_in(self, name: Seq<char>) -> bool {
        self.segments.len() > 0 && self.segments.last() == name
    }

    /// Whether the path is the single word `name`.
    pub open spec fn is_word(self, name: Seq<char>) -> bool {
        !self.global && self.segments.len() == 1 && self.segments[0] == name
    }
}

impl Path {
    /// Whether the last segment of the path is `name`, whatever stands
    /// before it.
    pub fn ends_in(&self, name: &str) -> (yes: bool)
        ensures
            yes == self.deep_view().ends_in(name@),
    {
        let n = self.segments.len();
        n > 0 && text_eq(self.segments[n - 1].as_str(), name)
    }

    /// Whether the path is the single word `name`.
    pub fn is_word(&self, name: &str) -> (yes: bool)
        ensures
            yes == self.deep_view().is_word(name@),
    {
        !self.global && self.segments.len() == 1 && text_eq(self.segments[0].as_str(), name)
    }
}

/// The value of a name/value pair. Only a string's content is read.
#[derive(Debug)]
pub enum Literal {
    Str(String),
    Other,
}

pub enum LiteralView {
    Str(Seq<char>),
    Other,
}

impl DeepView for Literal {
    type V = LiteralView;

    open spec fn deep_view(&self) -> LiteralView {
        match self {
            Literal::Str(s) => LiteralView::Str(s@),
            Literal::Other => LiteralView::Other,
        }
    }
}

impl Clone for Literal {
    fn clone(&self) -> (copy: Self)
        ensures
            copy.deep_view() == self.deep_view(),
    {
        match self {
            Literal::Str(s) => Literal::Str(s.clone()),
            Literal::Other => Literal::Other,
        }
    }
}

/// A name/value pair of a directive, such as `rpc = "remote"`.
#[derive(Debug)]
pub struct NameValue {
    /// The last segment of the pair's name.
    pub key: String,
    /// Where that segment stands.
    pub span: Span,
    pub value: Literal,
}

pub struct NameValueView {
    pub key: Seq<char>,
    pub span: Span,
    pub value: LiteralView,
}

impl DeepView for NameValue {
    type V = NameValueView;

    open spec fn deep_view(&self) -> NameValueView {
        NameValueView { key: self.key@, span: self.span, value: self.value.deep_view() }
    }
}

impl Clone for NameValue {
    fn clone(&self) -> (copy: Self)
        ensures
            copy.deep_view() == self.deep_view(),
    {
        NameValue { key: self.key.clone(), span: self.span, value: self.value.clone() }
    }
}

/// Something that stands where a name/value pair was expected.
#[derive(Debug)]
pub struct Unexpected {
    pub span: Span,
    /// What stands there, as written.
    pub text: String,
}

pub struct UnexpectedView {
    pub span: Span,
    pub text: Seq<char>,
}

impl DeepView for Unexpected {
    type V = UnexpectedView;

    open spec fn deep_view(&self) -> UnexpectedView {
        UnexpectedView { span: self.span, text: self.text@ }
    }
}

impl Clone for Unexpected {
    fn clone(&self) -> (copy: Self)
        ensures
            copy.deep_view() == self.deep_view(),
    {
        Unexpected { span: self.span, text: self.text.clone() }
    }
}

/// One element of a parenthesised list of a directive.
#[derive(Debug)]
pub enum Entry {
    Pair(NameValue),
    Other(Unexpected),
}

pub enum EntryView {
    Pair(NameValueView),
    Other(UnexpectedView),
}

impl DeepView for Entry {
    type V = EntryView;

    open spec fn deep_view(&self) -> EntryView {
        match self {
            Entry::Pair(p) => EntryView::Pair(p.deep_view()),
            Entry::Other(u) => EntryView::Other(u.deep_view()),
        }
    }
}

impl Clone for Entry {
    fn clone(&self) -> (copy: Self)
        ensures
            copy.deep_view() == self.deep_view(),
    {
        match self {
            Entry::Pair(p) => Entry::Pair(p.clone()),
            Entry::Other(u) => Entry::Other(u.clone()),
        }
    }
}

/// What an attribute holds after its path.
#[derive(Debug)]
pub enum Payload {
    /// Nothing: the attribute is a bare marker.
    Bare,
    /// Tokens that are no attribute argument at all, with what the parser
    /// said of them.
    Malformed(Diagnostic),
    /// `= value`: a single name/value pair, named by the attribute's path.
    Pair(NameValue),
    /// A parenthesised list.
    List(Vec<Entry>),
    /// An argument of any other shape.
    Other(Unexpected),
}

pub enum PayloadView {
    Bare,
    Malformed(DiagnosticView),
    Pair(NameValueView),
    List(Seq<EntryView>),
    Other(UnexpectedView),
}

impl DeepView for Payload {
    type V = PayloadView;

    open spec fn deep_view(&self) -> PayloadView {
        match self {
            Payload::Bare => PayloadView::Bare,
            Payload::Malformed(d) => PayloadView::Malformed(d.deep_view()),
            Payload::Pair(p) => PayloadView::Pair(p.deep_view()),
            Payload::List(l) => PayloadView::List(l.deep_view()),
            Payload::Other(u) => PayloadView::Other(u.deep_view()),
        }
    }
}

impl Clone for Payload {
    fn clone(&self) -> (copy: Self)
        ensures
            copy.deep_view() == self.deep_view(),
    {
        match self {
            Payload::Bare => Payload::Bare,
            Payload::Malformed(d) => Payload::Malformed(d.clone()),
            Payload::Pair(p) => Payload::Pair(p.clone()),
            Payload::List(l) => Payload::List(clone_all(l)),
            Payload::Other(u) => Payload::Other(u.clone()),
        }
    }
}

/// An attribute on a method.
#[derive(Debug)]
pub struct Attribute {
    /// Whether it is written before the item (`#[..]`), not inside it
    /// (`#![..]`).
    pub outer: bool,
    pub path: Path,
    pub payload: Payload,
    pub span: Span,
    /// The whole attribute, as written.
    pub text: String,
}

pub struct AttributeView {
    pub outer: bool,
    pub path: PathView,
    pub payload: PayloadView,
    pub span: Span,
    pub text: Seq<char>,
}

impl DeepView for Attribute {
    type V = AttributeView;

    open spec fn deep_view(&self) -> AttributeView {
        AttributeView {
            outer: self.outer,
            path: self.path.deep_view(),
            payload: self.payload.deep_view(),
            span: self.span,
            text: self.text@,
        }
    }
}

impl Clone for Attribute {
    fn clone(&self) -> (copy: Self)
        ensures
            copy.deep_view() == self.deep_view(),
    {
        Attribute {
            outer: self.outer,
            path: self.path.clone(),
            payload: self.payload.clone(),
            span: self.span,
            text: self.text.clone(),
        }
    }
}

/// An attribute on a parameter. Only its path is read.
#[derive(Debug)]
pub struct Marker {
    pub path: Path,
    /// The whole attribute, as written.
    pub text: String,
}

pub struct MarkerView {
    pub path: PathView,
    pub text: Seq<char>,
}

impl DeepView for Marker {
    type V = MarkerView;

    open spec fn deep_view(&self) -> MarkerView {
        MarkerView { path: self.path.deep_view(), text: self.text@ }
    }
}

impl Clone for Marker {
    fn clone(&self) -> (copy: Self)
        ensures
            copy.deep_view() == self.deep_view(),
    {
        Marker { path: self.path.clone(), text: self.text.clone() }
    }
}

/// A parameter pattern that binds one name, such as `mut x` or `ref x @ _`.
#[derive(Debug)]
pub struct Binding {
    pub by_ref: bool,
    pub mutable: bool,
    pub name: String,
    /// What follows `@`, as written.
    pub subpattern: Option<String>,
}

pub struct BindingView {
    pub by_ref: bool,
    pub mutable: bool,
    pub name: Seq<char>,
    pub subpattern: Option<Seq<char>>,
}

impl DeepView for Binding {
    type V = BindingView;

    open spec fn deep_view(&self) -> BindingView {
        BindingView {
            by_ref: self.by_ref,
            mutable: self.mutable,
            name: self.name@,
            subpattern: self.subpattern.deep_view(),
        }
    }
}

impl Clone for Binding {
    fn clone(&self) -> (copy: Self)
        ensures
            copy.deep_view() == self.deep_view(),
    {
        Binding {
            by_ref: self.by_ref,
            mutable: self.mutable,
            name: self.name.clone(),
            subpattern: clone_optional_text(&self.subpattern),
        }
    }
}

/// The pattern of a typed parameter.
#[derive(Debug)]
pub enum Pattern {
    /// `_`: the parameter has no name.
    Wild,
    Ident(Binding),
    /// Any other pattern, as written.
    Other(String),
}

pub enum PatternView {
    Wild,
    Ident(BindingView),
    Other(Seq<char>),
}

impl DeepView for Pattern {
    type V = PatternView;

    open spec fn deep_view(&self) -> PatternView {
        match self {
            Pattern::Wild => PatternView::Wild,
            Pattern::Ident(b) => PatternView::Ident(b.deep_view()),
            Pattern::Other(t) => PatternView::Other(t@),
        }
    }
}

impl Clone for Pattern {
    fn clone(&self) -> (copy: Self)
        ensures
            copy.deep_view() == self.deep_view(),
    {
        match self {
            Pattern::Wild => Pattern::Wild,
            Pattern::Ident(b) => Pattern::Ident(b.clone()),
            Pattern::Other(t) => Pattern::Other(t.clone()),
        }
    }
}

/// What a parameter is: the receiver, or a pattern with a type.
#[derive(Debug)]
pub enum ParamKind {
    /// `self` in one of its forms, as written.
    Receiver(String),
    /// A pattern and the text of its type.
    Typed(Pattern, String),
}

pub enum ParamKindView {
    Receiver(Seq<char>),
    Typed(PatternView, Seq<char>),
}

impl DeepView for ParamKind {
    type V = ParamKindView;

    open spec fn deep_view(&self) -> ParamKindView {
        match self {
            ParamKind::Receiver(t) => ParamKindView::Receiver(t@),
            ParamKind::Typed(p, t) => ParamKindView::Typed(p.deep_view(), t@),
        }
    }
}

impl Clone for ParamKind {
    fn clone(&self) -> (copy: Self)
        ensures
            copy.deep_view() == self.deep_view(),
    {
        match self {
            ParamKind::Receiver(t) => ParamKind::Receiver(t.clone()),
            ParamKind::Typed(p, t) => ParamKind::Typed(p.clone(), t.clone()),
        }
    }
}

/// One parameter of a method.
#[derive(Debug)]
pub struct Param {
    pub attrs: Vec<Marker>,
    pub span: Span,
    pub kind: ParamKind,
}

pub struct ParamView {
    pub attrs: Seq<MarkerView>,
    pub span: Span,
    pub kind: ParamKindView,
}

impl DeepView for Param {
    type V = ParamView;

    open spec fn deep_view(&self) -> ParamView {
        ParamView {
            attrs: self.attrs.deep_view(),
            span: self.span,
            kind: self.kind.deep_view(),
        }
    }
}

impl Clone for Param {
    fn clone(&self) -> (copy: Self)
        ensures
            copy.deep_view() == self.deep_view(),
    {
        Param { attrs: clone_all(&self.attrs), span: self.span, kind: self.kind.clone() }
    }
}

/// The three kinds of generic parameter.
#[derive(Clone, Copy, PartialEq, Eq, Structural, Debug)]
pub enum GenericKind {
    Type,
    Lifetime,
    Const,
}

/// One generic parameter of a method.
#[derive(Debug)]
pub struct GenericParam {
    pub kind: GenericKind,
    /// The parameter with its bounds, as written.
    pub text: String,
}

pub struct GenericParamView {
    pub kind: GenericKind,
    pub text: Seq<char>,
}

impl DeepView for GenericParam {
    type V = GenericParamView;

    open spec fn deep_view(&self) -> GenericParamView {
        GenericParamView { kind: self.kind, text: self.text@ }
    }
}

impl Clone for GenericParam {
    fn clone(&self) -> (copy: Self)
        ensures
            copy.deep_view() == self.deep_view(),
    {
        GenericParam { kind: self.kind, text: self.text.clone() }
    }
}

/// The signature of a method.
#[derive(Debug)]
pub struct Signature {
    pub constness: bool,
    pub asyncness: bool,
    pub unsafety: bool,
    /// The `extern` qualifier, as written.
    pub abi: Option<String>,
    pub name: String,
    /// Where the name stands.
    pub span: Span,
    pub generics: Vec<GenericParam>,
    /// The `where` clause, as written.
    pub where_clause: Option<String>,
    pub inputs: Vec<Param>,
    /// What follows the last parameter of a variadic method, as written.
    pub variadic: Option<String>,
    /// The declared return type, as written; `None` where none is declared.
    pub output: Option<String>,
}

pub struct SignatureView {
    pub constness: bool,
    pub asyncness: bool,
    pub unsafety: bool,
    pub abi: Option<Seq<char>>,
    pub name: Seq<char>,
    pub span: Span,
    pub generics: Seq<GenericParamView>,
    pub where_clause: Option<Seq<char>>,
    pub inputs: Seq<ParamView>,
    pub variadic: Option<Seq<char>>,
    pub output: Option<Seq<char>>,
}

impl DeepView for Signature {
    type V = SignatureView;

    open spec fn deep_view(&self) -> SignatureView {
        SignatureView {
            constness: self.constness,
            asyncness: self.asyncness,
            unsafety: self.unsafety,
            abi: self.abi.deep_view(),
            name: self.name@,
            span: self.span,
            generics: self.generics.deep_view(),
            where_clause: self.where_clause.deep_view(),
            inputs: self.inputs.deep_view(),
            variadic: self.variadic.deep_view(),
            output: self.output.deep_view(),
        }
    }
}

impl Clone for Signature {
    fn clone(&self) -> (copy: Self)
        ensures
            copy.deep_view() == self.deep_view(),
    {
        Signature {
            constness: self.constness,
            asyncness: self.asyncness,
            unsafety: self.unsafety,
            abi: clone_optional_text(&self.abi),
            name: self.name.clone(),
            span: self.span,
            generics: clone_all(&self.generics),
            where_clause: clone_optional_text(&self.where_clause),
            inputs: clone_all(&self.inputs),
            variadic: clone_optional_text(&self.variadic),
            output: clone_optional_text(&self.output),
        }
    }
}

/// A method of a class.
#[derive(Debug)]
pub struct Method {
    pub attrs: Vec<Attribute>,
    /// Visibility and other qualifiers before the signature, as written.
    pub qualifiers: String,
    pub sig: Signature,
    /// The body, as written.
    pub body: String,
}

pub struct MethodView {
    pub attrs: Seq<AttributeView>,
    pub qualifiers: Seq<char>,
    pub sig: SignatureView,
    pub body: Seq<char>,
}

impl DeepView for Method {
    type V = MethodView;

    open spec fn deep_view(&self) -> MethodView {
        MethodView {
            attrs: self.attrs.deep_view(),
            qualifiers: self.qualifiers@,
            sig: self.sig.deep_view(),
            body: self.body@,
        }
    }
}

impl Clone for Method {
    fn clone(&self) -> (copy: Self)
        ensures
            copy.deep_view() == self.deep_view(),
    {
        Method {
            attrs: clone_all(&self.attrs),
            qualifiers: self.qualifiers.clone(),
            sig: self.sig.clone(),
            body: self.body.clone(),
        }
    }
}

/// A member of a class: a method, or anything else, which is only carried.
#[derive(Debug)]
pub enum Member {
    Method(Method),
    /// Any other item, as written.
    Other(String),
}

pub enum MemberView {
    Method(MethodView),
    Other(Seq<char>),
}

impl DeepView for Member {
    type V = MemberView;

    open spec fn deep_view(&self) -> MemberView {
        match self {
            Member::Method(m) => MemberView::Method(m.deep_view()),
            Member::Other(t) => MemberView::Other(t@),
        }
    }
}

impl Clone for Member {
    fn clone(&self) -> (copy: Self)
        ensures
            copy.deep_view() == self.deep_view(),
    {
        match self {
            Member::Method(m) => Member::Method(m.clone()),
            Member::Other(t) => Member::Other(t.clone()),
        }
    }
}

/// The implementation block of a class: the class's type and its members in
/// the order in which they are declared.
#[derive(Debug)]
pub struct ImplBlock {
    /// The type of the class, as written.
    pub class_ty: String,
    pub items: Vec<Member>,
}

pub struct ImplBlockView {
    pub class_ty: Seq<char>,
    pub items: Seq<MemberView>,
}

impl DeepView for ImplBlock {
    type V = ImplBlockView;

    open spec fn deep_view(&self) -> ImplBlockView {
        ImplBlockView { class_ty: self.class_ty@, items: self.items.deep_view() }
    }
}

impl Clone for ImplBlock {
    fn clone(&self) -> (copy: Self)
        ensures
            copy.deep_view() == self.deep_view(),
    {
        ImplBlock { class_ty: self.class_ty.clone(), items: clone_all(&self.items) }
    }
}

} // verus!
