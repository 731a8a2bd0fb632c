//! The steps of [`stmts`](crate::infer::stmts) only add.
use crate::ast::{ForeignFn, Output, TypeParam};
use crate::env::SchemeV;
use crate::infer::CheckerV;
use crate::infer::builtins;
use crate::infer::decls;
use crate::infer::growth::{self, steps};
use crate::infer::stmts;
use crate::report::{ErrorCode, Span};
use crate::tree::Tree;
use crate::virtual_modules::BuiltinExport;
use vstd::prelude::*;

verus! {

impl CheckerV {
    pub broadcast proof fn bind_callables_grows(self, names: Seq<Seq<char>>, at: nat)
        ensures
            steps(self.ledger(), (#[trigger] self.bind_callables(names, at)).ledger()),
        decreases names.len() - at,
    {
        broadcast use {growth::chained, CheckerV::bind_grows, CheckerV::fresh_grows};

        if at < names.len() {
            let name = names[at as int];
            let c = if self.lookup(name) is Some || !self.scope.bindings.contains_key(name) {
                self
            } else {
                match self.scope.bindings[name] {
                    BuiltinExport::IoFn { kind } => self.bind(
                        name,
                        SchemeV::mono(builtins::io_fn_ty(kind)),
                    ),
                    BuiltinExport::FfiFn { .. } => {
                        let (c, v) = self.fresh();
                        c.bind(name, SchemeV::mono(v))
                    },
                    _ => self,
                }
            };
            c.bind_callables_grows(names, at + 1);
        }
        growth::starts(self.ledger());
        growth::arrives(self.ledger(), self.bind_callables(names, at).ledger());
    }

    pub broadcast proof fn apply_use_grows(
        self,
        path: Seq<Seq<char>>,
        name: Seq<char>,
        alias: Option<Seq<char>>,
    )
        ensures
            steps(self.ledger(), (#[trigger] self.apply_use(path, name, alias)).ledger()),
    {
        broadcast use {
            growth::chained,
            CheckerV::apply_virtual_use_grows,
            CheckerV::bind_callables_grows,
            CheckerV::fresh_grows,
            CheckerV::bind_grows,
        };

        growth::starts(self.ledger());
        growth::arrives(self.ledger(), self.apply_use(path, name, alias).ledger());
    }

    pub broadcast proof fn declare_foreign_grows(self, items: Seq<ForeignFn>, at: nat)
        ensures
            steps(self.ledger(), (#[trigger] self.declare_foreign(items, at)).ledger()),
        decreases items.len() - at,
    {
        broadcast use {
            growth::chained,
            CheckerV::parse_arg_list_grows,
            CheckerV::parse_type_name_grows,
            CheckerV::bind_grows,
        };

        if at < items.len() {
            let f = items[at as int];
            let (c, args) = self.parse_arg_list(f.args);
            let (c, ret) = match f.returns {
                Some(r) => c.parse_type_name(r),
                None => (c, Tree::con("unit"@)),
            };
            c.bind(
                f.name@,
                SchemeV::mono(decls::fn_type(args, None, ret)),
            ).declare_foreign_grows(items, at + 1);
        }
        growth::starts(self.ledger());
        growth::arrives(self.ledger(), self.declare_foreign(items, at).ledger());
    }

    pub broadcast proof fn annotated_grows(self, ann: Option<Output>)
        ensures
            steps(self.ledger(), (#[trigger] self.annotated(ann)).0.ledger()),
    {
        broadcast use {growth::chained, CheckerV::parse_type_name_grows, CheckerV::fresh_grows};

        growth::starts(self.ledger());
        growth::arrives(self.ledger(), self.annotated(ann).0.ledger());
    }

    pub broadcast proof fn declare_var_grows(self, name: Seq<char>, ann: Option<Output>)
        ensures
            steps(self.ledger(), (#[trigger] self.declare_var(name, ann)).0.ledger()),
    {
        broadcast use {growth::chained, CheckerV::annotated_grows, CheckerV::bind_grows};

        growth::starts(self.ledger());
        growth::arrives(self.ledger(), self.declare_var(name, ann).0.ledger());
    }

    pub broadcast proof fn declare_const_grows(self, name: Output, ann: Option<Output>, range: Span)
        ensures
            steps(self.ledger(), (#[trigger] self.declare_const(name, ann, range)).0.ledger()),
    {
        broadcast use {
            growth::chained,
            CheckerV::annotated_grows,
            CheckerV::bind_grows,
            CheckerV::report_grows,
            CheckerV::fresh_grows,
        };

        growth::starts(self.ledger());
        growth::arrives(self.ledger(), self.declare_const(name, ann, range).0.ledger());
    }

    pub broadcast proof fn initialize_grows(
        self,
        name: Seq<char>,
        var_ty: Tree,
        val_ty: Tree,
        next: Output,
        range: Span,
        what: Seq<char>,
    )
        ensures
            steps(
                self.ledger(),
                (#[trigger] self.initialize(name, var_ty, val_ty, next, range, what)).ledger(),
            ),
    {
        broadcast use {growth::chained, CheckerV::coerce_or_unify_grows};

        growth::starts(self.ledger());
        growth::arrives(
            self.ledger(),
            self.initialize(name, var_ty, val_ty, next, range, what).ledger(),
        );
    }

    pub broadcast proof fn open_impl_opens(self, owner: Seq<char>, params: Seq<TypeParam>)
        ensures
            steps(self.ledger(), (#[trigger] self.open_impl(owner, params)).0.ledger().closed()),
    {
        broadcast use {
            growth::chained,
            growth::within,
            CheckerV::push_type_params_grows,
            CheckerV::bind_grows,
            CheckerV::push_scope_opens,
        };

        growth::starts(self.ledger());
        growth::arrives(self.ledger(), self.open_impl(owner, params).0.ledger().closed());
    }

    pub broadcast proof fn close_impl_closes(self, pushed: bool)
        ensures
            steps(self.ledger().closed(), (#[trigger] self.close_impl(pushed)).ledger()),
    {
        broadcast use {growth::chained, growth::within, CheckerV::pop_type_params_grows};

        growth::starts(self.ledger().closed());
        growth::arrives(self.ledger().closed(), self.close_impl(pushed).ledger());
    }

    pub broadcast proof fn bind_ctors_grows(
        self,
        name: Seq<char>,
        variants: Seq<(Seq<char>, Tree)>,
        at: nat,
    )
        ensures
            steps(self.ledger(), (#[trigger] self.bind_ctors(name, variants, at)).ledger()),
        decreases variants.len() - at,
    {
        broadcast use {growth::chained, CheckerV::bind_grows};

        if at < variants.len() {
            let (vname, payload) = variants[at as int];
            let t = builtins::curried(
                payload.kids(),
                stmts::constructor_tree(
                    stmts::sum_tree(name, variants),
                    at as u32,
                    payload.kids().len() as usize,
                ),
            );
            self.bind(name + "::"@ + vname, SchemeV::mono(t)).bind_ctors_grows(
                name,
                variants,
                at + 1,
            );
        }
        growth::starts(self.ledger());
        growth::arrives(self.ledger(), self.bind_ctors(name, variants, at).ledger());
    }

    pub broadcast proof fn bind_enum_grows(self, name: Seq<char>, variants: Seq<(Seq<char>, Tree)>)
        ensures
            steps(self.ledger(), (#[trigger] self.bind_enum(name, variants)).ledger()),
    {
        broadcast use {growth::chained, CheckerV::bind_grows, CheckerV::bind_ctors_grows};

        growth::starts(self.ledger());
        growth::arrives(self.ledger(), self.bind_enum(name, variants).ledger());
    }

    pub broadcast proof fn declare_alias_grows(
        self,
        name: Seq<char>,
        params: Seq<TypeParam>,
        ty: Output,
        range: Span,
    )
        ensures
            steps(self.ledger(), (#[trigger] self.declare_alias(name, params, ty, range)).ledger()),
    {
        broadcast use {
            growth::chained,
            CheckerV::register_generic_type_ctor_grows,
            CheckerV::push_type_params_grows,
            CheckerV::parse_type_name_grows,
            CheckerV::pop_type_params_grows,
            CheckerV::register_generic_alias_grows,
            CheckerV::register_type_alias_grows,
        };

        growth::starts(self.ledger());
        growth::arrives(self.ledger(), self.declare_alias(name, params, ty, range).ledger());
    }

    pub broadcast proof fn declare_class_grows(
        self,
        name: Seq<char>,
        params: Seq<TypeParam>,
        fields: Seq<Output>,
    )
        ensures
            steps(self.ledger(), (#[trigger] self.declare_class(name, params, fields)).ledger()),
    {
        broadcast use {
            growth::chained,
            CheckerV::register_generic_type_ctor_grows,
            CheckerV::push_type_params_grows,
            CheckerV::register_class_grows,
            CheckerV::pop_type_params_grows,
        };

        growth::starts(self.ledger());
        growth::arrives(self.ledger(), self.declare_class(name, params, fields).ledger());
    }

    pub broadcast proof fn c_field_grows(self, name: Seq<char>, ty: Output)
        ensures
            steps(self.ledger(), (#[trigger] self.c_field(name, ty)).0.ledger()),
    {
        broadcast use {growth::chained, CheckerV::require_ffi_type_expr_grows};

        growth::starts(self.ledger());
        growth::arrives(self.ledger(), self.c_field(name, ty).0.ledger());
    }

    pub broadcast proof fn not_imported_grows(self, name: Seq<char>, range: Span)
        ensures
            steps(self.ledger(), (#[trigger] self.not_imported(name, range)).0.ledger()),
    {
        broadcast use {growth::chained, CheckerV::report_grows, CheckerV::fresh_grows};

        growth::starts(self.ledger());
        growth::arrives(self.ledger(), self.not_imported(name, range).0.ledger());
    }

    pub broadcast proof fn require_ffi_grows(self, name: Seq<char>, range: Span)
        ensures
            steps(self.ledger(), (#[trigger] self.require_ffi(name, range)).ledger()),
    {
        broadcast use {growth::chained, CheckerV::not_imported_grows};

        growth::starts(self.ledger());
        growth::arrives(self.ledger(), self.require_ffi(name, range).ledger());
    }

    pub broadcast proof fn wrong_count_grows(
        self,
        code: ErrorCode,
        text: Seq<char>,
        got: nat,
        range: Span,
    )
        ensures
            steps(self.ledger(), (#[trigger] self.wrong_count(code, text, got, range)).ledger()),
    {
        broadcast use {growth::chained, CheckerV::report_grows};

        growth::starts(self.ledger());
        growth::arrives(self.ledger(), self.wrong_count(code, text, got, range).ledger());
    }
}

} // verus!
