//! Checking a whole program: the state a checker starts from, what is cleared
//! between programs, the signatures of the builtin traits, and the passes over
//! the tree.
use crate::ast::Output;
use crate::env::{AssocProjection, Env, ProjectionV, Scheme, SchemeV, TyVarCounter};
use crate::generics::{self, Generics, GenericsV};
use crate::id::{self, IdTable};
use crate::infer::builtins;
use crate::infer::{Checker, CheckerV, CtxV, FnContext, Registry, RegistryV, Scopes, ScopesV, Tables, TablesV};
use crate::kind::Kind;
use crate::maps::{Dup, KeyMap, NameMap, NameSet};
use crate::report::{Message, MessageV};
use crate::subst::Subst;
use crate::tree::{ArrayLength, Tree};
use crate::ty::{Constraint, Ty, TyVarId, array, boolean, byte, con, fun, int_ty, option_app_ty, result_app_ty, string, tys2};
use crate::virtual_modules::VirtualModules;
use vstd::prelude::*;

verus! {

broadcast use crate::tree::group_shapes;

/// Outside every function, match and trait.
pub open spec fn no_context() -> CtxV {
    CtxV {
        return_ty: None,
        match_lhs: None,
        expected: None,
        async_depth: 0,
        yield_ty: None,
        send_ty: None,
        yield_receives_used: false,
        result_mode: None,
        option_mode: None,
        typeclass: None,
        projections: None,
    }
}

/// Nothing recorded.
pub open spec fn no_tables() -> TablesV {
    TablesV {
        ids: Seq::empty(),
        next_id_idx: 0,
        cache: Map::empty(),
        types_by_span: Map::empty(),
        var_types: Map::empty(),
        call_dicts: Map::empty(),
        call_dicts_by_span: Map::empty(),
        forward_dicts: Map::empty(),
        forward_dicts_by_span: Map::empty(),
        method_calls: Map::empty(),
        method_calls_by_span: Map::empty(),
        operator_calls: Map::empty(),
        operator_calls_by_span: Map::empty(),
        display_calls: Map::empty(),
        display_calls_by_span: Map::empty(),
        packs_by_span: Map::empty(),
        existential_calls: Map::empty(),
        existential_calls_by_span: Map::empty(),
        for_in: Map::empty(),
        for_in_by_span: Map::empty(),
        pending: Seq::empty(),
    }
}

/// No names in scope, in one frame of aliases and one of constants.
pub open spec fn no_names() -> ScopesV {
    ScopesV {
        module: Seq::empty(),
        bindings: Map::empty(),
        binding_order: Seq::empty(),
        type_aliases: seq![Map::empty()],
        generic_aliases: Map::empty(),
        const_scopes: seq![Set::empty()],
        type_params: Seq::empty(),
        param_order: Seq::empty(),
        active: Seq::empty(),
        abstract_bindings: Seq::empty(),
        var_kinds: Map::empty(),
        open_projections: Seq::empty(),
    }
}

/// The variants of `IoError` before the host names its own.
pub open spec fn io_errors() -> Seq<Seq<char>> {
    seq!["Other"@]
}

/// Nothing declared beside what `generics` holds.
pub open spec fn no_declarations(generics: GenericsV) -> RegistryV {
    RegistryV {
        classes: Map::empty(),
        methods: Map::empty(),
        enums: Map::empty(),
        enum_tags: Map::empty(),
        enum_payloads: Map::empty(),
        enum_arities: Map::empty(),
        async_functions: Set::empty(),
        c_structs: Seq::empty(),
        callback_sigs: Seq::empty(),
        ffi_fn_ret_tys: Map::empty(),
        result_mode_fns: Set::empty(),
        option_mode_fns: Set::empty(),
        generics,
        io_error_variants: io_errors(),
        method_schemes: Map::empty(),
        method_order: Seq::empty(),
    }
}

impl CheckerV {
    /// A checker that has seen no program: one open frame, and the builtin enums.
    pub open spec fn start() -> CheckerV {
        CheckerV {
            env: seq![Map::empty()],
            counter: 0,
            subst: Map::empty(),
            messages: Seq::empty(),
            ctx: no_context(),
            scope: no_names(),
            reg: no_declarations(generics::with_builtins(generics::no_generics())),
            out: no_tables(),
            generic_fns: Set::empty(),
            fn_dict_arity: Map::empty(),
        }.register_builtin_enums()
    }

    /// The builtin enums are entered.
    pub open spec fn register_builtin_enums(self) -> CheckerV {
        self.register_builtin_ffi_type().register_builtin_option_result()
    }

    /// What belongs to one program is cleared. The environment, the fresh
    /// variables, the substitution, the messages, and the declared classes,
    /// methods, traits and instances stay.
    pub open spec fn cleared(self) -> CheckerV {
        CheckerV {
            ctx: CtxV {
                return_ty: self.ctx.return_ty,
                match_lhs: self.ctx.match_lhs,
                ..no_context()
            },
            scope: ScopesV {
                module: self.scope.module,
                bindings: self.scope.bindings,
                binding_order: self.scope.binding_order,
                type_params: self.scope.type_params,
                param_order: self.scope.param_order,
                active: self.scope.active,
                ..no_names()
            },
            reg: RegistryV {
                classes: self.reg.classes,
                methods: self.reg.methods,
                io_error_variants: self.reg.io_error_variants,
                ..no_declarations(
                    GenericsV {
                        generic_type_ctors: generics::with_builtin_ctors(Map::empty()),
                        generic_fns: Set::empty(),
                        ..self.reg.generics
                    },
                )
            },
            out: no_tables(),
            ..self
        }
    }

    /// One type variable is used up.
    pub open spec fn mint(self) -> (CheckerV, TyVarId) {
        (CheckerV { counter: crate::env::bump(self.counter), ..self }, TyVarId(self.counter))
    }

    /// `class::method` takes two values of one type; it gives a `bool`, or a
    /// third value of that type.
    pub open spec fn add_operator(self, class: Seq<char>, method: Seq<char>, tests: bool) -> CheckerV {
        let (c, v) = self.mint();
        let result = if tests {
            Tree::con("bool"@)
        } else {
            Tree::Var(v)
        };
        c.add_method_scheme(
            class,
            method,
            SchemeV::poly(
                seq![v],
                seq![Tree::pred(class, seq![Tree::Var(v)])],
                Tree::fun(Tree::Var(v), Tree::fun(Tree::Var(v), result)),
            ),
        )
    }

    /// `class::method` takes a value of the type that implements the class.
    pub open spec fn add_unary(self, class: Seq<char>, method: Seq<char>, result: Tree) -> CheckerV {
        let (c, v) = self.mint();
        c.add_method_scheme(
            class,
            method,
            SchemeV::poly(
                seq![v],
                seq![Tree::pred(class, seq![Tree::Var(v)])],
                Tree::fun(Tree::Var(v), result),
            ),
        )
    }

    /// `Into::into : Self -> T`.
    pub open spec fn add_into(self) -> CheckerV {
        let (c, from) = self.mint();
        let (c, to) = c.mint();
        c.add_method_scheme(
            "Into"@,
            "into"@,
            SchemeV::poly(
                seq![from, to],
                seq![Tree::pred("Into"@, seq![Tree::Var(from), Tree::Var(to)])],
                Tree::fun(Tree::Var(from), Tree::Var(to)),
            ),
        )
    }

    /// `Iterator::next : I -> Option<I::Item>`.
    pub open spec fn add_next(self) -> CheckerV {
        let (c, iter) = self.mint();
        let (c, item) = c.mint();
        c.add_method_scheme(
            "Iterator"@,
            "next"@,
            SchemeV {
                bounds: seq![iter, item],
                kinds: seq![Kind::Type, Kind::Type],
                constraints: seq![Tree::pred("Iterator"@, seq![Tree::Var(iter)])],
                projections: seq![projection(item, "Item"@)],
                ty: Tree::fun(Tree::Var(iter), Tree::option_app(Tree::Var(item))),
            },
        )
    }

    /// `IntoIterator::into_iter : T -> T::IntoIter`.
    pub open spec fn add_into_iter(self) -> CheckerV {
        let (c, whole) = self.mint();
        let (c, item) = c.mint();
        let (c, iter) = c.mint();
        c.add_method_scheme(
            "IntoIterator"@,
            "into_iter"@,
            SchemeV {
                bounds: seq![whole, item, iter],
                kinds: seq![Kind::Type, Kind::Type, Kind::Type],
                constraints: seq![Tree::pred("IntoIterator"@, seq![Tree::Var(whole)])],
                projections: seq![projection(item, "Item"@), projection(iter, "IntoIter"@)],
                ty: Tree::fun(Tree::Var(whole), Tree::Var(iter)),
            },
        )
    }

    /// The signatures of the operator traits are entered.
    pub open spec fn add_operators(self) -> CheckerV {
        self.add_operator("Add"@, "add"@, false).add_operator("Sub"@, "sub"@, false).add_operator(
            "Mul"@,
            "mul"@,
            false,
        ).add_operator("Div"@, "div"@, false).add_operator("Lt"@, "lt"@, true).add_operator(
            "Le"@,
            "le"@,
            true,
        ).add_operator("Gt"@, "gt"@, true).add_operator("Ge"@, "ge"@, true).add_operator(
            "Eq"@,
            "eq"@,
            true,
        ).add_operator("Eq"@, "ne"@, true)
    }

    /// The signatures of the builtin traits are entered.
    pub open spec fn register_builtin_typeclass_method_schemes(self) -> CheckerV {
        let bytes = Tree::array(Tree::con("byte"@), ArrayLength::Dynamic);
        self.add_operators().add_unary("Show"@, "show"@, Tree::con("string"@)).add_into().add_unary(
            "Read"@,
            "read"@,
            Tree::fun(bytes, builtins::io_result(Tree::option_app(Tree::con("int"@)))),
        ).add_unary(
            "Write"@,
            "write"@,
            Tree::fun(bytes, builtins::io_result(Tree::con("int"@))),
        ).add_next().add_into_iter()
    }

    /// Ready for a program: cleared, with the builtins in scope and an id for
    /// every node of the tree.
    pub open spec fn prepared(self, ast: Output) -> CheckerV {
        let c =
            self.cleared().register_builtin_typeclass_method_schemes().register_builtin_enums().inject_prelude_scope();
        CheckerV {
            out: TablesV { ids: id::minted(Seq::empty(), id::visits(ast)), ..c.out },
            ..c
        }
    }

    /// The enums of the program are entered before its code is read.
    pub open spec fn declared(self, ast: Output) -> CheckerV {
        let (c, errs) = self.forward(ast, Seq::empty());
        CheckerV { messages: c.messages + errs, ..c }
    }

    /// The program is typed, and its matches are checked.
    pub open spec fn check_program(self, ast: Output) -> (CheckerV, Tree) {
        let (c, t) = self.prepared(ast).declared(ast).push_scope().infer(ast);
        let c = c.run_pending_exhaustiveness();
        (c, c.resolve(t))
    }

    /// An expression is typed without an id of its own; the ids that its parts
    /// take are given back, and the types under ids stay as they were.
    pub open spec fn infer_for_codegen(self, e: Output) -> (CheckerV, Tree) {
        let (c, t) = self.infer_inner(e, None);
        (
            CheckerV {
                out: TablesV {
                    next_id_idx: self.out.next_id_idx,
                    cache: self.out.cache,
                    ..c.out
                },
                ..c
            },
            t,
        )
    }
}

/// A projection without arguments.
pub open spec fn projection(var: TyVarId, name: Seq<char>) -> ProjectionV {
    ProjectionV { var, name, args: Seq::empty() }
}

fn open_projection(var: TyVarId, name: &str) -> (r: AssocProjection)
    ensures
        r@ == projection(var, name@),
{
    let r = AssocProjection { var, name: name.to_owned(), args: Vec::new() };
    assert(r@ =~= projection(var, name@));
    r
}

fn only(k: Constraint) -> (r: Vec<Constraint>)
    ensures
        r.deep_view() == seq![k@],
{
    let mut r: Vec<Constraint> = Vec::new();
    r.push(k);
    assert(r.deep_view() =~= seq![k@]);
    r
}

fn empty_context() -> (r: FnContext)
    ensures
        r@ == no_context(),
{
    FnContext {
        return_ty: None,
        match_lhs: None,
        expected: None,
        async_depth: 0,
        yield_ty: None,
        send_ty: None,
        yield_receives_used: false,
        result_mode: None,
        option_mode: None,
        typeclass: None,
        projections: None,
    }
}

fn empty_tables() -> (r: Tables)
    ensures
        r@ == no_tables(),
{
    let r = Tables {
        ids: IdTable::new(),
        next_id_idx: 0,
        cache: KeyMap::new(),
        types_by_span: KeyMap::new(),
        var_types: NameMap::new(),
        call_dicts: KeyMap::new(),
        call_dicts_by_span: KeyMap::new(),
        forward_dicts: KeyMap::new(),
        forward_dicts_by_span: KeyMap::new(),
        method_calls: KeyMap::new(),
        method_calls_by_span: KeyMap::new(),
        operator_calls: KeyMap::new(),
        operator_calls_by_span: KeyMap::new(),
        display_calls: KeyMap::new(),
        display_calls_by_span: KeyMap::new(),
        packs_by_span: KeyMap::new(),
        existential_calls: KeyMap::new(),
        existential_calls_by_span: KeyMap::new(),
        for_in: KeyMap::new(),
        for_in_by_span: KeyMap::new(),
        pending: Vec::new(),
    };
    assert(r@ =~= no_tables());
    r
}

fn empty_scopes() -> (r: Scopes)
    ensures
        r@ == no_names(),
{
    let mut type_aliases: Vec<NameMap<Ty>> = Vec::new();
    type_aliases.push(NameMap::new());
    let mut const_scopes: Vec<NameSet> = Vec::new();
    const_scopes.push(NameSet::new());
    let r = Scopes {
        module: "".to_owned(),
        bindings: NameMap::new(),
        type_aliases,
        generic_aliases: NameMap::new(),
        const_scopes,
        type_params: Vec::new(),
        active: Vec::new(),
        abstract_bindings: Vec::new(),
        var_kinds: KeyMap::new(),
        open_projections: Vec::new(),
    };
    proof {
        reveal_strlit("");
    }
    assert(r@ =~= no_names());
    r
}

fn io_error_names() -> (r: Vec<String>)
    ensures
        r.deep_view() == io_errors(),
{
    let mut r: Vec<String> = Vec::new();
    r.push("Other".to_owned());
    assert(r.deep_view() =~= io_errors());
    r
}

fn empty_registry(generics: Generics) -> (r: Registry)
    ensures
        r@ == no_declarations(generics@),
{
    let r = Registry {
        classes: NameMap::new(),
        methods: NameMap::new(),
        enums: NameMap::new(),
        enum_tags: NameMap::new(),
        enum_payloads: NameMap::new(),
        enum_arities: NameMap::new(),
        async_functions: NameSet::new(),
        c_structs: Vec::new(),
        callback_sigs: Vec::new(),
        ffi_fn_ret_tys: NameMap::new(),
        result_mode_fns: NameSet::new(),
        option_mode_fns: NameSet::new(),
        generics,
        io_error_variants: io_error_names(),
        method_schemes: KeyMap::new(),
    };
    assert(r@ =~= no_declarations(generics@));
    r
}

impl Default for Checker {
    fn default() -> (r: Self)
        ensures
            r@ == CheckerV::start(),
    {
        Checker::new()
    }
}

impl Checker {
    /// A checker with one open frame, so that natives can be registered before
    /// the first program.
    ///
    /// The variants of `IoError` belong to the host that performs the IO, and are
    /// not listed in this crate: a new checker knows `Other` alone, and
    /// [`set_io_error_variants`](Self::set_io_error_variants) takes the host's list.
    pub fn new() -> (r: Self)
        ensures
            r@ == CheckerV::start(),
    {
        let mut env = Env::new();
        env.push();
        let mut checker = Checker {
            env,
            counter: TyVarCounter::new(),
            subst: Subst::empty(),
            messages: Vec::new(),
            ctx: empty_context(),
            scope: empty_scopes(),
            reg: empty_registry(Generics::new()),
            out: empty_tables(),
            virtual_modules: VirtualModules::new(),
            generic_fns: NameSet::new(),
            fn_dict_arity: NameMap::new(),
        };
        assert(checker.messages.deep_view() =~= Seq::<MessageV>::empty());
        assert(checker.env@ =~= seq![Map::<Seq<char>, SchemeV>::empty()]);
        checker.register_builtin_enums();
        checker
    }

    fn register_builtin_enums(&mut self)
        ensures
            final(self)@ == old(self)@.register_builtin_enums(),
    {
        self.register_builtin_ffi_type();
        self.register_builtin_option_result();
    }

    /// Set the module path used for ownership checks while typechecking.
    pub fn set_current_module(&mut self, module: String)
        ensures
            final(self)@ == (CheckerV {
                scope: ScopesV { module: module@, ..old(self)@.scope },
                ..old(self)@
            }),
    {
        self.scope.module = module;
    }

    /// Set the variants of `IoError`, in the order in which the runtime numbers
    /// them.
    pub fn set_io_error_variants(&mut self, names: Vec<String>)
        ensures
            final(self)@ == (CheckerV {
                reg: RegistryV { io_error_variants: names.deep_view(), ..old(self)@.reg },
                ..old(self)@
            }),
    {
        self.reg.io_error_variants = names;
    }

    fn clear(&mut self)
        ensures
            final(self)@ == old(self)@.cleared(),
    {
        let mut ctx = empty_context();
        std::mem::swap(&mut ctx.return_ty, &mut self.ctx.return_ty);
        std::mem::swap(&mut ctx.match_lhs, &mut self.ctx.match_lhs);
        self.ctx = ctx;
        let mut scope = empty_scopes();
        std::mem::swap(&mut scope.module, &mut self.scope.module);
        std::mem::swap(&mut scope.bindings, &mut self.scope.bindings);
        std::mem::swap(&mut scope.type_params, &mut self.scope.type_params);
        std::mem::swap(&mut scope.active, &mut self.scope.active);
        self.scope = scope;
        let mut reg = empty_registry(Generics::default());
        std::mem::swap(&mut reg.classes, &mut self.reg.classes);
        std::mem::swap(&mut reg.methods, &mut self.reg.methods);
        std::mem::swap(&mut reg.io_error_variants, &mut self.reg.io_error_variants);
        std::mem::swap(&mut reg.generics, &mut self.reg.generics);
        reg.generics.generic_type_ctors.clear();
        reg.generics.register_builtin_type_ctors();
        reg.generics.generic_fns = NameSet::new();
        self.reg = reg;
        self.out = empty_tables();
        assert(self@ =~= old(self)@.cleared());
    }

    fn mint(&mut self) -> (r: TyVarId)
        ensures
            (final(self)@, r) == old(self)@.mint(),
    {
        self.counter.fresh()
    }

    fn add_operator(&mut self, class: &str, method: &str, tests: bool)
        ensures
            final(self)@ == old(self)@.add_operator(class@, method@, tests),
    {
        let v = self.mint();
        let result = if tests {
            boolean()
        } else {
            Ty::Var(v)
        };
        let bounds = vec![v];
        assert(bounds@ =~= seq![v]);
        let scheme = Scheme::poly(
            bounds,
            only(Constraint::unary(class, v)),
            fun(Ty::Var(v), fun(Ty::Var(v), result)),
        );
        self.add_method_scheme(class, method, scheme);
    }

    fn add_unary(&mut self, class: &str, method: &str, result: Ty)
        ensures
            final(self)@ == old(self)@.add_unary(class@, method@, result@),
    {
        let v = self.mint();
        let bounds = vec![v];
        assert(bounds@ =~= seq![v]);
        let scheme = Scheme::poly(
            bounds,
            only(Constraint::unary(class, v)),
            fun(Ty::Var(v), result),
        );
        self.add_method_scheme(class, method, scheme);
    }

    fn add_into(&mut self)
        ensures
            final(self)@ == old(self)@.add_into(),
    {
        let from = self.mint();
        let to = self.mint();
        let scheme = Scheme::poly(
            vec![from, to],
            only(Constraint::on("Into", tys2(Ty::Var(from), Ty::Var(to)))),
            fun(Ty::Var(from), Ty::Var(to)),
        );
        self.add_method_scheme("Into", "into", scheme);
    }

    fn add_next(&mut self)
        ensures
            final(self)@ == old(self)@.add_next(),
    {
        let iter = self.mint();
        let item = self.mint();
        let projections = vec![open_projection(item, "Item")];
        assert(projections.deep_view() =~= seq![projection(item, "Item"@)]);
        let scheme = Scheme::poly_with_kinds_and_assoc(
            vec![iter, item],
            vec![Kind::Type, Kind::Type],
            only(Constraint::unary("Iterator", iter)),
            projections,
            fun(Ty::Var(iter), option_app_ty(Ty::Var(item))),
        );
        self.add_method_scheme("Iterator", "next", scheme);
    }

    fn add_into_iter(&mut self)
        ensures
            final(self)@ == old(self)@.add_into_iter(),
    {
        let whole = self.mint();
        let item = self.mint();
        let iter = self.mint();
        let projections = vec![open_projection(item, "Item"), open_projection(iter, "IntoIter")];
        assert(projections.deep_view() =~= seq![
            projection(item, "Item"@),
            projection(iter, "IntoIter"@),
        ]);
        let scheme = Scheme::poly_with_kinds_and_assoc(
            vec![whole, item, iter],
            vec![Kind::Type, Kind::Type, Kind::Type],
            only(Constraint::unary("IntoIterator", whole)),
            projections,
            fun(Ty::Var(whole), Ty::Var(iter)),
        );
        self.add_method_scheme("IntoIterator", "into_iter", scheme);
    }

    fn add_operators(&mut self)
        ensures
            final(self)@ == old(self)@.add_operators(),
    {
        self.add_operator("Add", "add", false);
        self.add_operator("Sub", "sub", false);
        self.add_operator("Mul", "mul", false);
        self.add_operator("Div", "div", false);
        self.add_operator("Lt", "lt", true);
        self.add_operator("Le", "le", true);
        self.add_operator("Gt", "gt", true);
        self.add_operator("Ge", "ge", true);
        self.add_operator("Eq", "eq", true);
        self.add_operator("Eq", "ne", true);
    }

    fn register_builtin_typeclass_method_schemes(&mut self)
        ensures
            final(self)@ == old(self)@.register_builtin_typeclass_method_schemes(),
    {
        self.add_operators();
        self.add_unary("Show", "show", string());
        self.add_into();
        let io_error = con("IoError");
        let read = fun(
            array(byte()),
            result_app_ty(option_app_ty(int_ty()), io_error.clone()),
        );
        self.add_unary("Read", "read", read);
        let write = fun(array(byte()), result_app_ty(int_ty(), io_error));
        self.add_unary("Write", "write", write);
        self.add_next();
        self.add_into_iter();
    }

    fn prepare(&mut self, ast: &Output)
        ensures
            final(self)@ == old(self)@.prepared(*ast),
    {
        self.clear();
        self.register_builtin_typeclass_method_schemes();
        self.register_builtin_enums();
        self.inject_prelude_scope();
        let mut ids = IdTable::new();
        id::pre_walk(ast, &mut ids);
        self.out.ids = ids;
    }

    fn declare(&mut self, ast: &Output)
        ensures
            final(self)@ == old(self)@.declared(*ast),
    {
        let mut errs = self.pre_register_enums(ast);
        let ghost before = self.messages.deep_view();
        let ghost more = errs.deep_view();
        self.messages.append(&mut errs);
        assert(self.messages.deep_view() =~= before + more);
    }

    /// Run inference over `ast`. The result is the type of the root under the
    /// final substitution; the messages accumulate. The top frame stays open,
    /// so that the declared bindings can be inspected.
    pub fn check_program(&mut self, ast: &Output) -> (r: Ty)
        ensures
            (final(self)@, r@) == old(self)@.check_program(*ast),
    {
        self.prepare(ast);
        self.declare(ast);
        self.push_scope();
        let t = self.infer(ast);
        self.run_pending_exhaustiveness();
        self.resolve(&t)
    }

    /// Infer without updating the types under node ids: the ids at hand need not
    /// be those of this tree, and overwriting a right entry is worse than having
    /// none.
    pub fn infer_for_codegen(&mut self, e: &Output) -> (r: Ty)
        ensures
            (final(self)@, r@) == old(self)@.infer_for_codegen(*e),
    {
        let saved = self.out.next_id_idx;
        let cache = self.out.cache.dup();
        let t = self.infer_inner(e, None);
        self.out.next_id_idx = saved;
        self.out.cache = cache;
        t
    }

    /// Take all accumulated messages, leaving none behind.
    pub fn take_messages(&mut self) -> (r: Vec<Message>)
        ensures
            r.deep_view() == old(self)@.messages,
            final(self)@ == (CheckerV { messages: Seq::empty(), ..old(self)@ }),
    {
        let mut taken: Vec<Message> = Vec::new();
        std::mem::swap(&mut taken, &mut self.messages);
        assert(self.messages.deep_view() =~= Seq::<MessageV>::empty());
        taken
    }

    /// The accumulated messages.
    pub fn messages(&self) -> (r: &Vec<Message>)
        ensures
            r.deep_view() == self@.messages,
    {
        &self.messages
    }

    pub fn env(&self) -> (r: &Env)
        ensures
            r@ == self@.env,
    {
        &self.env
    }

    pub fn env_mut(&mut self) -> (r: &mut Env)
        ensures
            r@ == old(self)@.env,
            final(self)@ == (CheckerV { env: final(r)@, ..old(self)@ }),
    {
        &mut self.env
    }

    /// The running substitution.
    pub fn subst(&self) -> (r: &Subst)
        ensures
            r@ == self@.subst,
    {
        &self.subst
    }
}

} // verus!
