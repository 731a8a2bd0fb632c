//! Hindley-Milner inference (Algorithm W) over the syntax tree.
//!
//! [`Checker`] owns the substitution, accumulates diagnostics with error
//! recovery, and caches inferred types keyed by pre-walk node ids. Its model is
//! [`CheckerV`]; each step of inference is a transition of the model, written
//! as a method of the same name.
use crate::ast::Visibility;
use crate::env::{AssocProjection, Env, EnvV, ProjectionV, Scheme, SchemeV, TyVarCounter};
use crate::generics::{Generics, GenericsV, InstV, InstanceDef};
use crate::id::{IdTable, NodeId};
use crate::kind::Kind;
use crate::maps::{Dup, KeyMap, MapKey, NameMap, NameSet};
use crate::report::{Message, MessageV, Span};
use crate::subst::Subst;
use crate::text::same_text;
use crate::tree::Tree;
use crate::ty::{Constraint, EnumVariantPayloadTy, Ty, TyVarId};
use crate::virtual_modules::{BuiltinExport, VirtualModules};
use vstd::prelude::*;

pub mod annotations;
pub mod basics;
pub mod builtins;
pub mod calls;
pub mod construct;
pub mod decls;
pub mod enums;
pub mod exprs;
pub mod fields;
pub mod forin;
pub mod formats;
pub mod forward;
pub mod growth;
pub mod instances;
pub mod kinds;
pub mod laws;
pub mod lookup;
pub mod methods;
pub mod ops;
pub mod program;
pub mod properties;
pub mod stmts;
pub mod traits;

verus! {

/// Code-generation recipe for a trait method call in a generic body.
#[derive(Clone, Copy, Debug, PartialEq, Eq, Structural)]
pub struct BoundMethodCall {
    pub dict_index: usize,
    pub method_slot: usize,
    pub arity: usize,
    pub has_receiver: bool,
}

impl DeepView for BoundMethodCall {
    type V = BoundMethodCall;

    open spec fn deep_view(&self) -> BoundMethodCall {
        *self
    }
}

/// Code-generation recipe for an operator dispatched through a typeclass
/// dictionary in a shared generic body.
#[derive(Clone, Copy, Debug, PartialEq, Eq, Structural)]
pub struct BoundOperatorCall {
    pub dict_index: usize,
    pub method_slot: usize,
}

impl DeepView for BoundOperatorCall {
    type V = BoundOperatorCall;

    open spec fn deep_view(&self) -> BoundOperatorCall {
        *self
    }
}

/// Code-generation recipe for a `%v` format argument dispatched through
/// an active `Show` dictionary in a shared generic body.
#[derive(Clone, Copy, Debug, PartialEq, Eq, Structural)]
pub struct BoundDisplayCall {
    pub dict_index: usize,
    pub method_slot: usize,
}

impl DeepView for BoundDisplayCall {
    type V = BoundDisplayCall;

    open spec fn deep_view(&self) -> BoundDisplayCall {
        *self
    }
}

/// Code-generation recipe for a trait method call on an existential pack.
#[derive(Clone, Copy, Debug, PartialEq, Eq, Structural)]
pub struct ExistentialMethodCall {
    pub method_slot: usize,
    pub arity: usize,
    pub has_receiver: bool,
}

impl DeepView for ExistentialMethodCall {
    type V = ExistentialMethodCall;

    open spec fn deep_view(&self) -> ExistentialMethodCall {
        *self
    }
}

/// Code-generation recipe for packing a concrete value as a bare-class existential.
#[derive(Clone, Debug, PartialEq, Eq)]
pub struct ExistentialPack {
    pub class: String,
    pub value_ty: Ty,
}

/// The model of an [`ExistentialPack`].
#[verifier::ext_equal]
pub struct PackV {
    pub class: Seq<char>,
    pub value_ty: Tree,
}

impl View for ExistentialPack {
    type V = PackV;

    open spec fn view(&self) -> PackV {
        PackV { class: self.class@, value_ty: self.value_ty@ }
    }
}

impl DeepView for ExistentialPack {
    type V = PackV;

    open spec fn deep_view(&self) -> PackV {
        self@
    }
}

/// Runtime lowering strategy for `for x in expr` (unified Iterator protocol).
#[derive(Clone, Debug, PartialEq, Eq)]
pub enum ForInKind {
    /// Index loop over `[T]` / `[T; N]`.
    Array,
    /// Materialise homogeneous tuple elements into a temp array, then array path.
    Tuple { arity: usize },
    /// Dict entries, then array path; items are `(string, V)` pairs.
    Dict,
    /// Resume/Done loop (completion value excluded from body).
    Coroutine,
    /// Dictionary ABI: `into_iter`, then `next` to `Option<Item>`.
    Custom { into_iter_fqn: String, next_fqn: String },
}

/// The model of a [`ForInKind`].
#[verifier::ext_equal]
pub enum ForInV {
    Array,
    Tuple(usize),
    Dict,
    Coroutine,
    Custom(Seq<char>, Seq<char>),
}

impl View for ForInKind {
    type V = ForInV;

    open spec fn view(&self) -> ForInV {
        match self {
            ForInKind::Array => ForInV::Array,
            ForInKind::Tuple { arity } => ForInV::Tuple(*arity),
            ForInKind::Dict => ForInV::Dict,
            ForInKind::Coroutine => ForInV::Coroutine,
            ForInKind::Custom { into_iter_fqn, next_fqn } => ForInV::Custom(
                into_iter_fqn@,
                next_fqn@,
            ),
        }
    }
}

/// Side-table entry for for-in codegen, keyed by the loop node.
#[derive(Clone, Debug, PartialEq, Eq)]
pub struct ForInInfo {
    pub kind: ForInKind,
}

impl View for ForInInfo {
    type V = ForInV;

    open spec fn view(&self) -> ForInV {
        self.kind@
    }
}

impl DeepView for ForInInfo {
    type V = ForInV;

    open spec fn deep_view(&self) -> ForInV {
        self.kind@
    }
}

impl Dup for ForInInfo {
    fn dup(&self) -> (r: Self) {
        let kind = match &self.kind {
            ForInKind::Array => ForInKind::Array,
            ForInKind::Tuple { arity } => ForInKind::Tuple { arity: *arity },
            ForInKind::Dict => ForInKind::Dict,
            ForInKind::Coroutine => ForInKind::Coroutine,
            ForInKind::Custom { into_iter_fqn, next_fqn } => ForInKind::Custom {
                into_iter_fqn: into_iter_fqn.clone(),
                next_fqn: next_fqn.clone(),
            },
        };
        ForInInfo { kind }
    }
}

/// A parametric type alias (`type Pair<T> = (T, T)`).
#[derive(Clone, Debug)]
pub struct GenericAliasDef {
    /// Parameter names in declaration order.
    pub params: Vec<String>,
    /// Fresh variables used while parsing the right-hand side.
    pub param_vars: Vec<TyVarId>,
    /// Right-hand side with `param_vars` free.
    pub body: Ty,
}

/// The model of a [`GenericAliasDef`].
#[verifier::ext_equal]
pub struct AliasV {
    pub params: Seq<Seq<char>>,
    pub param_vars: Seq<TyVarId>,
    pub body: Tree,
}

impl View for GenericAliasDef {
    type V = AliasV;

    open spec fn view(&self) -> AliasV {
        AliasV {
            params: self.params.deep_view(),
            param_vars: self.param_vars@,
            body: self.body@,
        }
    }
}

impl DeepView for GenericAliasDef {
    type V = AliasV;

    open spec fn deep_view(&self) -> AliasV {
        self@
    }
}

/// A field of a class.
#[derive(Debug)]
pub struct ClassField {
    pub vis: Visibility,
    pub name: String,
    pub ty: Ty,
}

/// The model of a [`ClassField`].
#[verifier::ext_equal]
pub struct ClassFieldV {
    pub vis: Visibility,
    pub name: Seq<char>,
    pub ty: Tree,
}

impl View for ClassField {
    type V = ClassFieldV;

    open spec fn view(&self) -> ClassFieldV {
        ClassFieldV { vis: self.vis, name: self.name@, ty: self.ty@ }
    }
}

impl DeepView for ClassField {
    type V = ClassFieldV;

    open spec fn deep_view(&self) -> ClassFieldV {
        self@
    }
}

impl Dup for ClassField {
    fn dup(&self) -> (r: Self) {
        ClassField { vis: self.vis, name: self.name.clone(), ty: self.ty.clone() }
    }
}

/// A method of a class.
#[derive(Debug)]
pub struct ClassMethod {
    pub vis: Visibility,
    pub scheme: Scheme,
}

/// The model of a [`ClassMethod`].
#[verifier::ext_equal]
pub struct ClassMethodV {
    pub vis: Visibility,
    pub scheme: SchemeV,
}

impl View for ClassMethod {
    type V = ClassMethodV;

    open spec fn view(&self) -> ClassMethodV {
        ClassMethodV { vis: self.vis, scheme: self.scheme@ }
    }
}

impl DeepView for ClassMethod {
    type V = ClassMethodV;

    open spec fn deep_view(&self) -> ClassMethodV {
        self@
    }
}

impl Dup for ClassMethod {
    fn dup(&self) -> (r: Self) {
        ClassMethod { vis: self.vis, scheme: self.scheme.clone() }
    }
}

/// A method of a class, by the names of both.
#[derive(Debug)]
pub struct MethodKey {
    pub class: String,
    pub method: String,
}

impl DeepView for MethodKey {
    type V = (Seq<char>, Seq<char>);

    open spec fn deep_view(&self) -> (Seq<char>, Seq<char>) {
        (self.class@, self.method@)
    }
}

impl MapKey for MethodKey {
    type Probe = MethodKey;

    open spec fn probe(p: &MethodKey) -> (Seq<char>, Seq<char>) {
        p.deep_view()
    }

    fn matches(&self, p: &MethodKey) -> (r: bool) {
        same_text(self.class.as_str(), p.class.as_str()) && same_text(
            self.method.as_str(),
            p.method.as_str(),
        )
    }

    fn as_probe(&self) -> (p: &MethodKey) {
        self
    }
}

/// C-layout struct registered by a foreign struct declaration.
#[derive(Clone, Debug)]
pub struct CStructDef {
    pub name: String,
    pub fields: Vec<(String, u32)>,
}

/// The model of a [`CStructDef`].
#[verifier::ext_equal]
pub struct CStructV {
    pub name: Seq<char>,
    pub fields: Seq<(Seq<char>, u32)>,
}

impl View for CStructDef {
    type V = CStructV;

    open spec fn view(&self) -> CStructV {
        CStructV { name: self.name@, fields: self.fields.deep_view() }
    }
}

impl DeepView for CStructDef {
    type V = CStructV;

    open spec fn deep_view(&self) -> CStructV {
        self@
    }
}

/// Callback signature registered for callback type tags.
#[derive(Clone, Debug)]
pub struct CallbackSigDef {
    pub args: Vec<u32>,
    pub ret: u32,
}

/// What the inner pattern covers (only meaningful for constructor arms): the
/// tag of the first inner pattern that tests one.
#[derive(Debug, Clone, Copy, PartialEq, Eq, Structural)]
pub enum InnerCoverage {
    /// No inner pattern to test (unit payload, or patterns that always match).
    Any,
    /// The inner pattern is a constructor with the given tag.
    Tag(u32),
}

/// Per-arm coverage info, captured at the match site.
#[derive(Debug, Clone, Copy, PartialEq, Eq, Structural)]
pub struct ArmCoverage {
    /// The variant tag this arm covers, if it was a constructor pattern.
    pub tag: Option<u32>,
    /// The inner pattern's coverage.
    pub inner: InnerCoverage,
    /// True if the arm was a wildcard (`_`) or a binding (`name`).
    pub is_catchall: bool,
    /// The arm's source range.
    pub range: Span,
}

/// One pending exhaustiveness check, recorded at the match site and run after
/// inference, when every scrutinee type can be resolved.
#[derive(Clone, Debug)]
pub struct PendingExhaustive {
    /// Scrutinee type at the time of the match.
    pub scrutinee_ty: Ty,
    /// The arms, in order.
    pub arms: Vec<ArmCoverage>,
    /// Source range of the `match`.
    pub match_range: Span,
}

/// The model of a [`PendingExhaustive`].
#[verifier::ext_equal]
pub struct PendingV {
    pub scrutinee_ty: Tree,
    pub arms: Seq<ArmCoverage>,
    pub match_range: Span,
}

impl View for PendingExhaustive {
    type V = PendingV;

    open spec fn view(&self) -> PendingV {
        PendingV {
            scrutinee_ty: self.scrutinee_ty@,
            arms: self.arms@,
            match_range: self.match_range,
        }
    }
}

impl DeepView for PendingExhaustive {
    type V = PendingV;

    open spec fn deep_view(&self) -> PendingV {
        self@
    }
}

/// An open associated-type projection: `var` stands for `owner::name<args>`.
#[derive(Debug)]
pub struct OpenProjection {
    pub owner: TyVarId,
    pub name: String,
    /// The notations of the arguments, by which the projection is found again.
    pub key: Vec<String>,
    pub var: TyVarId,
    pub args: Vec<Ty>,
}

/// The model of an [`OpenProjection`].
#[verifier::ext_equal]
pub struct OpenV {
    pub owner: TyVarId,
    pub name: Seq<char>,
    pub key: Seq<Seq<char>>,
    pub var: TyVarId,
    pub args: Seq<Tree>,
}

impl View for OpenProjection {
    type V = OpenV;

    open spec fn view(&self) -> OpenV {
        OpenV {
            owner: self.owner,
            name: self.name@,
            key: self.key.deep_view(),
            var: self.var,
            args: self.args.deep_view(),
        }
    }
}

impl DeepView for OpenProjection {
    type V = OpenV;

    open spec fn deep_view(&self) -> OpenV {
        self@
    }
}

impl Dup for OpenProjection {
    fn dup(&self) -> (r: Self) {
        OpenProjection {
            owner: self.owner,
            name: self.name.clone(),
            key: self.key.dup(),
            var: self.var,
            args: self.args.dup(),
        }
    }
}

/// What the enclosing function, match and trait fix for the code inside.
#[derive(Debug)]
pub struct FnContext {
    /// Type that the enclosing function expects to return, if any.
    pub return_ty: Option<Ty>,
    /// Type of the surrounding `match`'s scrutinee, if any.
    pub match_lhs: Option<Ty>,
    /// Expected type pushed by annotated initializers and returns.
    pub expected: Option<Ty>,
    /// Nesting depth inside `async fn` bodies.
    pub async_depth: usize,
    /// Yield value type for the enclosing `async fn`, if any.
    pub yield_ty: Option<Ty>,
    /// Send/resume-in value type for the enclosing `async fn`, if any.
    pub send_ty: Option<Ty>,
    /// True when the enclosing `async fn` uses the value of a `yield`.
    pub yield_receives_used: bool,
    /// Enclosing function is in Result mode, with its `Ok` and `Err` types.
    pub result_mode: Option<(Ty, Ty)>,
    /// Enclosing function is in Option mode, with the payload type.
    pub option_mode: Option<Ty>,
    /// Typeclass currently being defined.
    pub typeclass: Option<String>,
    /// Projections met while a scheme is built.
    pub projections: Option<Vec<AssocProjection>>,
}

/// The model of a [`FnContext`].
#[verifier::ext_equal]
pub struct CtxV {
    pub return_ty: Option<Tree>,
    pub match_lhs: Option<Tree>,
    pub expected: Option<Tree>,
    pub async_depth: usize,
    pub yield_ty: Option<Tree>,
    pub send_ty: Option<Tree>,
    pub yield_receives_used: bool,
    pub result_mode: Option<(Tree, Tree)>,
    pub option_mode: Option<Tree>,
    pub typeclass: Option<Seq<char>>,
    pub projections: Option<Seq<ProjectionV>>,
}

impl View for FnContext {
    type V = CtxV;

    open spec fn view(&self) -> CtxV {
        CtxV {
            return_ty: self.return_ty.deep_view(),
            match_lhs: self.match_lhs.deep_view(),
            expected: self.expected.deep_view(),
            async_depth: self.async_depth,
            yield_ty: self.yield_ty.deep_view(),
            send_ty: self.send_ty.deep_view(),
            yield_receives_used: self.yield_receives_used,
            result_mode: self.result_mode.deep_view(),
            option_mode: self.option_mode.deep_view(),
            typeclass: self.typeclass.deep_view(),
            projections: self.projections.deep_view(),
        }
    }
}

/// What names stand for, apart from values.
#[derive(Debug)]
pub struct Scopes {
    /// Module path currently being typechecked. The entry file uses `""`.
    pub module: String,
    /// Short names in scope from the prelude and explicit `use`.
    pub bindings: NameMap<BuiltinExport>,
    /// `type Name = T` aliases, innermost frame last.
    pub type_aliases: Vec<NameMap<Ty>>,
    /// `type Name<T, ..> = RHS` generic aliases.
    pub generic_aliases: NameMap<GenericAliasDef>,
    /// Names declared with `const`, innermost frame last.
    pub const_scopes: Vec<NameSet>,
    /// Type parameters in scope, innermost frame last.
    pub type_params: Vec<NameMap<TyVarId>>,
    /// Active trait constraints on type parameters in scope.
    pub active: Vec<Constraint>,
    /// Concrete classes chosen for abstract constraint parameters.
    pub abstract_bindings: Vec<NameMap<String>>,
    /// Kind of each type variable in play.
    pub var_kinds: KeyMap<TyVarId, Kind>,
    /// Open associated-type projections, in the order they were met.
    pub open_projections: Vec<OpenProjection>,
}

/// The model of [`Scopes`].
#[verifier::ext_equal]
pub struct ScopesV {
    pub module: Seq<char>,
    pub bindings: Map<Seq<char>, BuiltinExport>,
    pub binding_order: Seq<Seq<char>>,
    pub type_aliases: Seq<Map<Seq<char>, Tree>>,
    pub generic_aliases: Map<Seq<char>, AliasV>,
    pub const_scopes: Seq<Set<Seq<char>>>,
    pub type_params: Seq<Map<Seq<char>, TyVarId>>,
    pub param_order: Seq<Seq<Seq<char>>>,
    pub active: Seq<Tree>,
    pub abstract_bindings: Seq<Map<Seq<char>, Seq<char>>>,
    pub var_kinds: Map<TyVarId, Kind>,
    pub open_projections: Seq<OpenV>,
}

impl View for Scopes {
    type V = ScopesV;

    open spec fn view(&self) -> ScopesV {
        ScopesV {
            module: self.module@,
            bindings: self.bindings@,
            binding_order: self.bindings.order(),
            type_aliases: self.type_aliases.deep_view(),
            generic_aliases: self.generic_aliases@,
            const_scopes: self.const_scopes.deep_view(),
            type_params: self.type_params.deep_view(),
            param_order: Seq::new(self.type_params@.len(), |i: int| self.type_params@[i].order()),
            active: self.active.deep_view(),
            abstract_bindings: self.abstract_bindings.deep_view(),
            var_kinds: self.var_kinds@,
            open_projections: self.open_projections.deep_view(),
        }
    }
}

/// What the program declares.
#[derive(Debug)]
pub struct Registry {
    /// Class declarations: name to fields.
    pub classes: NameMap<Vec<ClassField>>,
    /// Method declarations: owner class to method name to method.
    pub methods: NameMap<NameMap<ClassMethod>>,
    /// Enums: variant names in declaration order.
    pub enums: NameMap<Vec<String>>,
    /// Enums: variant name to tag.
    pub enum_tags: NameMap<NameMap<u32>>,
    /// Enums: payloads in declaration order.
    pub enum_payloads: NameMap<Vec<EnumVariantPayloadTy>>,
    /// Enums: payload arities in declaration order.
    pub enum_arities: NameMap<Vec<usize>>,
    /// Names of `async fn` declarations.
    pub async_functions: NameSet,
    /// C-layout structs.
    pub c_structs: Vec<CStructDef>,
    /// Callback signature descriptors.
    pub callback_sigs: Vec<CallbackSigDef>,
    /// Return types recorded for `let id = declare(.., ret)`.
    pub ffi_fn_ret_tys: NameMap<Ty>,
    /// Functions whose success returns are wrapped in `Ok`.
    pub result_mode_fns: NameSet,
    /// Functions whose return type is (or was inferred as) `Option<_>`.
    pub option_mode_fns: NameSet,
    /// Typeclasses, instances and generic type constructors.
    pub generics: Generics,
    /// The variants of `IoError`, as the runtime numbers them.
    pub io_error_variants: Vec<String>,
    /// Typeclass method signatures.
    pub method_schemes: KeyMap<MethodKey, Scheme>,
}

/// The model of a [`Registry`].
#[verifier::ext_equal]
pub struct RegistryV {
    pub classes: Map<Seq<char>, Seq<ClassFieldV>>,
    pub methods: Map<Seq<char>, Map<Seq<char>, ClassMethodV>>,
    pub enums: Map<Seq<char>, Seq<Seq<char>>>,
    pub enum_tags: Map<Seq<char>, Map<Seq<char>, u32>>,
    pub enum_payloads: Map<Seq<char>, Seq<Tree>>,
    pub enum_arities: Map<Seq<char>, Seq<usize>>,
    pub async_functions: Set<Seq<char>>,
    pub c_structs: Seq<CStructV>,
    pub callback_sigs: Seq<CallbackSigDef>,
    pub ffi_fn_ret_tys: Map<Seq<char>, Tree>,
    pub result_mode_fns: Set<Seq<char>>,
    pub option_mode_fns: Set<Seq<char>>,
    pub generics: GenericsV,
    pub io_error_variants: Seq<Seq<char>>,
    pub method_schemes: Map<(Seq<char>, Seq<char>), SchemeV>,
    pub method_order: Seq<(Seq<char>, Seq<char>)>,
}

impl View for Registry {
    type V = RegistryV;

    open spec fn view(&self) -> RegistryV {
        RegistryV {
            classes: self.classes@,
            methods: self.methods@,
            enums: self.enums@,
            enum_tags: self.enum_tags@,
            enum_payloads: self.enum_payloads@,
            enum_arities: self.enum_arities@,
            async_functions: self.async_functions@,
            c_structs: self.c_structs.deep_view(),
            callback_sigs: self.callback_sigs@,
            ffi_fn_ret_tys: self.ffi_fn_ret_tys@,
            result_mode_fns: self.result_mode_fns@,
            option_mode_fns: self.option_mode_fns@,
            generics: self.generics@,
            io_error_variants: self.io_error_variants.deep_view(),
            method_schemes: self.method_schemes@,
            method_order: self.method_schemes.order(),
        }
    }
}

/// What inference records for code generation, by node id and by source span.
#[derive(Debug)]
pub struct Tables {
    /// Pre-walk IDs consumed in lockstep by inference.
    pub ids: IdTable,
    pub next_id_idx: usize,
    /// Inferred types by node.
    pub cache: KeyMap<NodeId, Ty>,
    /// The first inferred type at each span.
    pub types_by_span: KeyMap<Span, Ty>,
    /// Variable types.
    pub var_types: NameMap<Ty>,
    /// Concrete trait dictionaries selected at each generic call site.
    pub call_dicts: KeyMap<NodeId, Vec<InstanceDef>>,
    pub call_dicts_by_span: KeyMap<Span, Vec<InstanceDef>>,
    /// Open dictionaries forwarded from the enclosing generic function.
    pub forward_dicts: KeyMap<NodeId, Vec<usize>>,
    pub forward_dicts_by_span: KeyMap<Span, Vec<usize>>,
    /// Calls resolved through an active trait constraint.
    pub method_calls: KeyMap<NodeId, BoundMethodCall>,
    pub method_calls_by_span: KeyMap<Span, BoundMethodCall>,
    /// Operators resolved through an active trait constraint.
    pub operator_calls: KeyMap<NodeId, BoundOperatorCall>,
    pub operator_calls_by_span: KeyMap<Span, BoundOperatorCall>,
    /// `%v` arguments resolved through an active `Show` constraint.
    pub display_calls: KeyMap<NodeId, BoundDisplayCall>,
    pub display_calls_by_span: KeyMap<Span, BoundDisplayCall>,
    /// Expressions whose result must be packed with a dictionary.
    pub packs_by_span: KeyMap<Span, ExistentialPack>,
    /// Calls dispatched through an existential dictionary.
    pub existential_calls: KeyMap<NodeId, ExistentialMethodCall>,
    pub existential_calls_by_span: KeyMap<Span, ExistentialMethodCall>,
    /// `for x in` lowering info.
    pub for_in: KeyMap<NodeId, ForInInfo>,
    pub for_in_by_span: KeyMap<Span, ForInInfo>,
    /// Match exhaustiveness checks deferred until the substitution is closed.
    pub pending: Vec<PendingExhaustive>,
}

/// The model of [`Tables`].
#[verifier::ext_equal]
pub struct TablesV {
    pub ids: Seq<NodeId>,
    pub next_id_idx: usize,
    pub cache: Map<NodeId, Tree>,
    pub types_by_span: Map<Span, Tree>,
    pub var_types: Map<Seq<char>, Tree>,
    pub call_dicts: Map<NodeId, Seq<InstV>>,
    pub call_dicts_by_span: Map<Span, Seq<InstV>>,
    pub forward_dicts: Map<NodeId, Seq<usize>>,
    pub forward_dicts_by_span: Map<Span, Seq<usize>>,
    pub method_calls: Map<NodeId, BoundMethodCall>,
    pub method_calls_by_span: Map<Span, BoundMethodCall>,
    pub operator_calls: Map<NodeId, BoundOperatorCall>,
    pub operator_calls_by_span: Map<Span, BoundOperatorCall>,
    pub display_calls: Map<NodeId, BoundDisplayCall>,
    pub display_calls_by_span: Map<Span, BoundDisplayCall>,
    pub packs_by_span: Map<Span, PackV>,
    pub existential_calls: Map<NodeId, ExistentialMethodCall>,
    pub existential_calls_by_span: Map<Span, ExistentialMethodCall>,
    pub for_in: Map<NodeId, ForInV>,
    pub for_in_by_span: Map<Span, ForInV>,
    pub pending: Seq<PendingV>,
}

impl View for Tables {
    type V = TablesV;

    open spec fn view(&self) -> TablesV {
        TablesV {
            ids: self.ids@,
            next_id_idx: self.next_id_idx,
            cache: self.cache@,
            types_by_span: self.types_by_span@,
            var_types: self.var_types@,
            call_dicts: self.call_dicts@,
            call_dicts_by_span: self.call_dicts_by_span@,
            forward_dicts: self.forward_dicts@,
            forward_dicts_by_span: self.forward_dicts_by_span@,
            method_calls: self.method_calls@,
            method_calls_by_span: self.method_calls_by_span@,
            operator_calls: self.operator_calls@,
            operator_calls_by_span: self.operator_calls_by_span@,
            display_calls: self.display_calls@,
            display_calls_by_span: self.display_calls_by_span@,
            packs_by_span: self.packs_by_span@,
            existential_calls: self.existential_calls@,
            existential_calls_by_span: self.existential_calls_by_span@,
            for_in: self.for_in@,
            for_in_by_span: self.for_in_by_span@,
            pending: self.pending.deep_view(),
        }
    }
}

/// The typechecker. Owns the environment, the fresh-variable counter, the
/// running substitution, and the accumulated diagnostic messages.
#[derive(Debug)]
pub struct Checker {
    pub env: Env,
    pub counter: TyVarCounter,
    pub subst: Subst,
    pub messages: Vec<Message>,
    pub ctx: FnContext,
    pub scope: Scopes,
    pub reg: Registry,
    pub out: Tables,
    pub virtual_modules: VirtualModules,
    /// Generic function names registered during typechecking.
    pub generic_fns: NameSet,
    /// Number of *user-defined* trait dict slots expected by each generic
    /// function. Built-in classes (Num, Ord, Eq, Show and the operator classes) do
    /// not count toward this arity. Persists across programs.
    pub fn_dict_arity: NameMap<usize>,
}

/// The model of a [`Checker`].
#[verifier::ext_equal]
pub struct CheckerV {
    pub env: EnvV,
    pub counter: u32,
    pub subst: Map<TyVarId, Tree>,
    pub messages: Seq<MessageV>,
    pub ctx: CtxV,
    pub scope: ScopesV,
    pub reg: RegistryV,
    pub out: TablesV,
    pub generic_fns: Set<Seq<char>>,
    pub fn_dict_arity: Map<Seq<char>, usize>,
}

impl View for Checker {
    type V = CheckerV;

    open spec fn view(&self) -> CheckerV {
        CheckerV {
            env: self.env@,
            counter: self.counter@,
            subst: self.subst@,
            messages: self.messages.deep_view(),
            ctx: self.ctx@,
            scope: self.scope@,
            reg: self.reg@,
            out: self.out@,
            generic_fns: self.generic_fns@,
            fn_dict_arity: self.fn_dict_arity@,
        }
    }
}

} // verus!
