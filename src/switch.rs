use vstd::prelude::*;
use crate::decl::{Decl, Diagnostic, DiagnosticKind, Import};
use crate::filter::{filtered, remove_wasm_bindgen_attrs};
use crate::options::{is_camel_case_arg, passed_through, ConfigArg, SwitchOptions};
use crate::rewrite::{decl_diags, imported, item_as_wasm_bindgen_imports, kinds};

verus! {

/// The two halves of a rewrite: the import block for `wasm` targets and the
/// native declaration for every other target.
#[derive(Debug, PartialEq, Eq)]
pub struct Switched {
    /// The arguments of the import block's `#[wasm_bindgen(...)]`.
    pub block_args: Vec<ConfigArg>,
    /// The content of the import block.
    pub import: Import,
    /// The declaration kept for other targets.
    pub native: Decl,
    /// What the rewrite reported, in order.
    pub diagnostics: Vec<Diagnostic>,
}

/// Whether the configuration entries ask for camel-style names.
pub open spec fn camel_requested(args: Seq<ConfigArg>) -> bool {
    exists|i: int| 0 <= i < args.len() && #[trigger] is_camel_case_arg(args[i])
}

/// Rewrites a declaration under the configuration entries `args`. `item` and
/// `native` are two copies of the one declaration: the first is turned into
/// the import, the second into the copy kept for other targets. The import
/// block takes the entries other than `camel_case`; the native copy loses its
/// import-only attributes.
pub fn wasm_bindgen_switch(args: Vec<ConfigArg>, item: Decl, native: Decl) -> (r: Switched)
    requires
        native == item,
    ensures
        r.block_args@ == passed_through(args@),
        imported(item, camel_requested(args@), None, r.import),
        filtered(item, r.native),
        kinds(r.diagnostics@) == decl_diags(item, camel_requested(args@)),
{
    let options = SwitchOptions::parse(args);
    let mut diagnostics: Vec<Diagnostic> = Vec::new();
    assert(kinds(diagnostics@) =~= Seq::<DiagnosticKind>::empty());
    let import = item_as_wasm_bindgen_imports(item, &options, None, &mut diagnostics);
    assert(kinds(diagnostics@) =~= decl_diags(item, options.camel_case));
    let native = remove_wasm_bindgen_attrs(native);
    let SwitchOptions { other_args, .. } = options;
    Switched { block_args: other_args, import, native, diagnostics }
}

/// Checks the arguments of the test directive, which takes none: `attr` is
/// their source text.
pub fn wasm_bindgen_switch_test(attr: &str) -> (r: Result<(), Diagnostic>)
    ensures
        r is Ok <==> attr@.len() == 0,
        r is Err ==> r->Err_0.kind == DiagnosticKind::ArgumentsNotSupported,
{
    if attr.unicode_len() == 0 {
        Ok(())
    } else {
        Err(Diagnostic { kind: DiagnosticKind::ArgumentsNotSupported, subject: None })
    }
}

} // verus!
