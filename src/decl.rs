use vstd::prelude::*;

verus! {

/// One segment of an attribute's path, such as `wasm_bindgen` in
/// `#[wasm_bindgen(method)]`; `has_args` is set where the segment carries
/// generic arguments.
#[derive(Clone, Debug, PartialEq, Eq)]
pub struct PathSegment {
    pub ident: String,
    pub has_args: bool,
}

/// One entry of an attribute's argument list: a bare identifier, or anything
/// else (kept as source text).
#[derive(Clone, Debug, PartialEq, Eq)]
pub enum AttrArg {
    Word(String),
    Other(String),
}

/// What follows an attribute's path.
#[derive(Clone, Debug, PartialEq, Eq)]
pub enum AttrArgs {
    /// `#[path]`
    Bare,
    /// `#[path(a, b = c, ...)]`
    List(Vec<AttrArg>),
    /// `#[path = value]`
    NameValue(String),
    /// Tokens that do not form a meta item.
    Unparsed(String),
}

/// An attribute: its path and arguments, which the rewrite inspects, and its
/// source text, which is emitted as it stands.
#[derive(Clone, Debug, PartialEq, Eq)]
pub struct Attribute {
    pub path: Vec<PathSegment>,
    pub args: AttrArgs,
    pub text: String,
}

/// A type expression.
#[derive(Debug, PartialEq, Eq)]
pub enum Ty {
    /// A path without a qualified self, with the lifetime and generic
    /// arguments of its last segment: `Self`, `u32`, `Cow<'a, T>`. A const
    /// argument stands among `args` as `Other`.
    Path { segments: Vec<String>, lifetimes: Vec<String>, args: Vec<Ty> },
    /// `&'a T` or `&'a mut T`.
    Ref { lifetime: Option<String>, mutable: bool, elem: Box<Ty> },
    /// `*const T` or `*mut T`.
    Ptr { mutable: bool, elem: Box<Ty> },
    /// `[T]`
    Slice { elem: Box<Ty> },
    /// `[T; len]`, with the length as source text.
    Array { elem: Box<Ty>, len: String },
    /// `(A, B, ...)`
    Tuple { elems: Vec<Ty> },
    /// `fn(A, B) -> C`, with what precedes `fn` (`unsafe`, an ABI, `for<'a>`)
    /// as source text.
    BareFn { prefix: String, inputs: Vec<Ty>, output: Option<Box<Ty>> },
    /// Any other type (a trait object, `impl Trait`, a qualified path, a
    /// macro), as source text that the rewrite does not look into.
    Other { text: String },
}

/// A parameter of a method.
#[derive(Debug, PartialEq, Eq)]
pub enum FnArg {
    /// `self`, `&self`, `&'a mut self`, ...
    Receiver { reference: bool, lifetime: Option<String>, mutable: bool },
    /// `pattern: type`
    Typed { pat: String, ty: Ty },
}

/// A method of an impl. `sig` holds the signature's source text and `body`
/// the statements of its block, which the native copy re-emits; `inputs` and
/// `output` are what the import reads.
#[derive(Debug, PartialEq, Eq)]
pub struct Method {
    pub attrs: Vec<Attribute>,
    pub vis: String,
    pub ident: String,
    pub inputs: Vec<FnArg>,
    pub output: Option<Ty>,
    pub sig: String,
    pub body: Vec<Decl>,
}

/// An item of an inherent impl.
#[derive(Debug, PartialEq, Eq)]
pub enum ImplItem {
    Method(Method),
    /// An associated constant, type or macro, as source text.
    Other { text: String },
}

/// A declaration that the rewrite reads. `text` fields hold what follows the
/// attributes, for the native copy.
#[derive(Debug, PartialEq, Eq)]
pub enum Decl {
    /// A struct, enum, union or type alias.
    Type { attrs: Vec<Attribute>, vis: String, ident: String, text: String },
    /// A module with inline content.
    Module { attrs: Vec<Attribute>, vis: String, ident: String, items: Vec<Decl> },
    /// A free function; `sig` is its signature as source text and `body`
    /// the statements of its block.
    Function { attrs: Vec<Attribute>, vis: String, ident: String, sig: String, body: Vec<Decl> },
    /// A constant item.
    Const { attrs: Vec<Attribute>, text: String },
    /// An impl block; `header` is its text up to the opening brace, and
    /// `for_trait` says that it implements a trait.
    Impl {
        attrs: Vec<Attribute>,
        for_trait: bool,
        self_ty: Ty,
        header: String,
        impl_items: Vec<ImplItem>,
    },
    /// Any other item, or a statement of a body that is not an item, as
    /// source text.
    Other { text: String },
}

/// How an imported method is bound to its type.
#[derive(Clone, Debug, PartialEq, Eq)]
pub enum MethodKind {
    /// `#[wasm_bindgen(method)]`: the first parameter is the instance.
    Instance,
    /// `#[wasm_bindgen(static_method_of = T)]`.
    Static,
    /// No binding attribute: the method carries its own constructor marker.
    Constructor,
}

/// A method import. Its first parameter is already rewritten: a receiver
/// becomes `_: T`, `_: &T` or `_: &mut T`.
#[derive(Debug, PartialEq, Eq)]
pub struct MethodImport {
    pub attrs: Vec<Attribute>,
    pub kind: MethodKind,
    pub js_name: Option<String>,
    pub vis: String,
    pub ident: String,
    pub inputs: Vec<FnArg>,
    pub output: Option<Ty>,
}

/// One declaration of the generated import block.
#[derive(Debug, PartialEq, Eq)]
pub enum Import {
    /// `#namespace #attrs #vis type #ident;`
    Type { namespace: Option<String>, attrs: Vec<Attribute>, vis: String, ident: String },
    /// A module shell around the imports of its items.
    Module { attrs: Vec<Attribute>, vis: String, ident: String, items: Vec<Import> },
    /// `#[wasm_bindgen] #namespace #attrs #js_name #vis #sig;`
    Function {
        namespace: Option<String>,
        attrs: Vec<Attribute>,
        js_name: Option<String>,
        vis: String,
        sig: String,
    },
    /// The methods of one impl block, one entry per impl item (none for an
    /// item that has no import form); `attrs` (the impl's) go before each.
    Methods { attrs: Vec<Attribute>, self_ty: String, methods: Vec<Option<MethodImport>> },
    /// The empty fragment left by a declaration that has no import form.
    Empty,
}

/// What a diagnostic reports.
#[derive(Clone, Debug, PartialEq, Eq)]
pub enum DiagnosticKind {
    /// The self type of an impl is not a plain path.
    UnsupportedImplType,
    /// The self type of an impl is a path of more than one identifier.
    ImplTypeNotIdent,
    /// An impl item that is not a method.
    UnsupportedImplItem,
    /// A receiver that is not the first parameter.
    InvalidReceiver,
    /// A declaration that has no import form.
    UnsupportedItem,
    /// Two separators next to each other in an identifier that is renamed.
    DoubleSeparator,
    /// Arguments given to a directive that takes none.
    ArgumentsNotSupported,
}

/// A diagnostic, with the name of the identifier it is about where there is
/// one.
#[derive(Clone, Debug, PartialEq, Eq)]
pub struct Diagnostic {
    pub kind: DiagnosticKind,
    pub subject: Option<String>,
}

} // verus!
