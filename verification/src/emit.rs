//! Describing the registration of an exported method.
//!
//! A registration names the method, wraps it for dispatch with its
//! parameters split into those a caller must give and those it may leave
//! out, and hands the wrapper to the builder with the method's remote-call
//! mode.

use crate::diagnostic::{Diagnostic, DiagnosticView};
use crate::export::{ExportMethod, ExportMethodView};
use crate::lists::push_item;
use crate::rpc::RpcMode;
use crate::syntax::{Param, ParamView};
use crate::validate::{arity_message, bound_message, bound_text, single};
use proc_macro2::Span;
use vstd::prelude::*;
use vstd::string::*;

verus! {

/// One parameter of a dispatch wrapper.
#[derive(Debug)]
pub struct WrapperParam {
    pub param: Param,
    /// Whether a caller may leave it out.
    pub optional: bool,
}

pub struct WrapperParamView {
    pub param: ParamView,
    pub optional: bool,
}

impl DeepView for WrapperParam {
    type V = WrapperParamView;

    open spec fn deep_view(&self) -> WrapperParamView {
        WrapperParamView { param: self.param.deep_view(), optional: self.optional }
    }
}

/// The registration of one method with the builder.
#[derive(Debug)]
pub struct Registration {
    /// The type of the class, as written.
    pub class_ty: String,
    /// The name under which the method is registered.
    pub name: String,
    /// Where the method's name stands.
    pub span: Span,
    /// All parameters of the method in their order, the optional ones last.
    pub params: Vec<WrapperParam>,
    /// The return type, as written; `()` where none is declared.
    pub return_type: String,
    pub rpc_mode: RpcMode,
}

pub struct RegistrationView {
    pub class_ty: Seq<char>,
    pub name: Seq<char>,
    pub span: Span,
    pub params: Seq<WrapperParamView>,
    pub return_type: Seq<char>,
    pub rpc_mode: RpcMode,
}

impl DeepView for Registration {
    type V = RegistrationView;

    open spec fn deep_view(&self) -> RegistrationView {
        RegistrationView {
            class_ty: self.class_ty@,
            name: self.name@,
            span: self.span,
            params: self.params.deep_view(),
            return_type: self.return_type@,
            rpc_mode: self.rpc_mode,
        }
    }
}

/// What stands for an exported method in the registration procedure.
#[derive(Debug)]
pub enum Emitted {
    Registration(Registration),
    /// The method is not registered, for these reasons.
    Rejected(Vec<Diagnostic>),
}

pub enum EmittedView {
    Registration(RegistrationView),
    Rejected(Seq<DiagnosticView>),
}

impl DeepView for Emitted {
    type V = EmittedView;

    open spec fn deep_view(&self) -> EmittedView {
        match self {
            Emitted::Registration(r) => EmittedView::Registration(r.deep_view()),
            Emitted::Rejected(d) => EmittedView::Rejected(d.deep_view()),
        }
    }
}

/// The number of optional parameters that a directive declares.
pub open spec fn declared_optional(method: ExportMethodView) -> nat {
    match method.args.optional_arg_count {
        Some(n) => n as nat,
        None => 0,
    }
}

/// The registration of a method of the class `class_ty`.
///
/// The method must take at least two parameters, and no more optional ones
/// than it has after the first two. The last `declared_optional` parameters
/// are the optional ones.
pub open spec fn spec_emit(class_ty: Seq<char>, method: ExportMethodView) -> EmittedView {
    let sig = method.sig;
    let total = sig.inputs.len();
    let count = declared_optional(method);
    if total < 2 {
        EmittedView::Rejected(seq![DiagnosticView { span: sig.span, message: arity_message() }])
    } else if count > total - 2 {
        EmittedView::Rejected(
            seq![
                DiagnosticView {
                    span: sig.span,
                    message: bound_message((total - 2) as nat, count),
                },
            ],
        )
    } else {
        EmittedView::Registration(
            RegistrationView {
                class_ty,
                name: sig.name,
                span: sig.span,
                params: Seq::new(
                    total,
                    |i: int| WrapperParamView { param: sig.inputs[i], optional: i >= total - count },
                ),
                return_type: match sig.output {
                    Some(ty) => ty,
                    None => "()"@,
                },
                rpc_mode: method.args.rpc_mode,
            },
        )
    }
}

/// Describes the registration of one exported method of the class
/// `class_ty`, or says why it cannot be registered.
pub fn emit(class_ty: &str, method: &ExportMethod) -> (emitted: Emitted)
    ensures
        emitted.deep_view() == spec_emit(class_ty@, method.deep_view()),
{
    let sig = &method.sig;
    let total = sig.inputs.len();
    if total < 2 {
        return Emitted::Rejected(
            single(
                Diagnostic::new(sig.span, "exported methods must take self and owner as arguments"),
            ),
        );
    }
    let count = match method.args.optional_arg_count {
        Some(n) => n,
        None => 0,
    };
    if count > total - 2 {
        return Emitted::Rejected(
            single(Diagnostic { span: sig.span, message: bound_text(total - 2, count) }),
        );
    }
    let required = total - count;
    let mut params: Vec<WrapperParam> = Vec::new();
    let mut i: usize = 0;
    while i < total
        invariant
            i <= total,
            total == sig.inputs.len(),
            required == total - count,
            params.len() == i,
            forall|j: int|
                0 <= j < i ==> #[trigger] params.deep_view()[j] == (WrapperParamView {
                    param: sig.inputs.deep_view()[j],
                    optional: j >= total - count,
                }),
        decreases total - i,
    {
        push_item(&mut params, WrapperParam { param: sig.inputs[i].clone(), optional: i >= required });
        i += 1;
    }
    let return_type = match &sig.output {
        Some(ty) => ty.clone(),
        None => String::from_str("()"),
    };
    let registration = Registration {
        class_ty: class_ty.to_owned(),
        name: sig.name.clone(),
        span: sig.span,
        params,
        return_type,
        rpc_mode: method.args.rpc_mode,
    };
    proof {
        let expected = spec_emit(class_ty@, method.deep_view());
        assert(expected is Registration);
        assert(registration.deep_view().params =~= expected->Registration_0.params);
    }
    Emitted::Registration(registration)
}

} // verus!
