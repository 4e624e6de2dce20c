//! What is recorded of an exported method: its directive and its signature.

use crate::lists::clone_all;
use crate::rpc::RpcMode;
use crate::syntax::{Signature, SignatureView};
use vstd::prelude::*;

verus! {

/// The directive of one exported method.
#[derive(Clone, Copy, PartialEq, Eq, Structural, PartialOrd, Ord, Hash, Debug)]
pub struct ExportArgs {
    /// How many trailing parameters a caller may leave out; `None` where no
    /// parameter is optional.
    pub optional_arg_count: Option<usize>,
    pub rpc_mode: RpcMode,
}

impl ExportArgs {
    /// The directive of a bare marker: no optional parameter, remote calls
    /// disabled.
    pub open spec fn spec_default() -> ExportArgs {
        ExportArgs { optional_arg_count: None, rpc_mode: RpcMode::Disabled }
    }
}

impl Default for ExportArgs {
    fn default() -> (args: Self)
        ensures
            args == ExportArgs::spec_default(),
    {
        ExportArgs { optional_arg_count: None, rpc_mode: RpcMode::Disabled }
    }
}

/// An exported method: its signature and its directive.
#[derive(Debug)]
pub struct ExportMethod {
    pub sig: Signature,
    pub args: ExportArgs,
}

pub struct ExportMethodView {
    pub sig: SignatureView,
    pub args: ExportArgs,
}

impl DeepView for ExportMethod {
    type V = ExportMethodView;

    open spec fn deep_view(&self) -> ExportMethodView {
        ExportMethodView { sig: self.sig.deep_view(), args: self.args }
    }
}

impl Clone for ExportMethod {
    fn clone(&self) -> (copy: Self)
        ensures
            copy.deep_view() == self.deep_view(),
    {
        ExportMethod { sig: self.sig.clone(), args: self.args }
    }
}

/// The exported methods of one class, in the order of their declaration.
#[derive(Debug)]
pub struct ClassMethodExport {
    /// The type of the class, as written.
    pub class_ty: String,
    pub methods: Vec<ExportMethod>,
}

pub struct ClassMethodExportView {
    pub class_ty: Seq<char>,
    pub methods: Seq<ExportMethodView>,
}

impl DeepView for ClassMethodExport {
    type V = ClassMethodExportView;

    open spec fn deep_view(&self) -> ClassMethodExportView {
        ClassMethodExportView { class_ty: self.class_ty@, methods: self.methods.deep_view() }
    }
}

impl Clone for ClassMethodExport {
    fn clone(&self) -> (copy: Self)
        ensures
            copy.deep_view() == self.deep_view(),
    {
        ClassMethodExport { class_ty: self.class_ty.clone(), methods: clone_all(&self.methods) }
    }
}

} // verus!
