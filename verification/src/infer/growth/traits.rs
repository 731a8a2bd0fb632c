//! The steps of [`traits`](crate::infer::traits) only add.
use crate::ast::{Expression, Output, TypeParam};
use crate::generics::{AssocDeclV, AssocValueV, ClassV, MethodV};
use crate::infer::CheckerV;
use crate::infer::decls;
use crate::infer::growth::{self, steps};
use crate::infer::traits::{self, AssocFrameV, ClassFrameV, InstFrameV};
use crate::kind::Kind;
use crate::report::{ErrorCode, Span};
use crate::text;
use crate::tree::{Tree, TyVarId};
use vstd::prelude::*;

verus! {

impl CheckerV {
    pub broadcast proof fn class_members_grows(
        self,
        class: Seq<char>,
        methods: Seq<Output>,
        at: nat,
        assocs: Seq<AssocDeclV>,
        defs: Seq<MethodV>,
    )
        ensures
            steps(
                self.ledger(),
                (#[trigger] self.class_members(class, methods, at, assocs, defs)).0.ledger(),
            ),
        decreases methods.len() - at,
    {
        broadcast use {growth::chained, CheckerV::report_grows};

        if at < methods.len() {
            let m = methods[at as int];
            match *m.expr {
                Expression::AssocTypeDecl { name, type_params } => {
                    if traits::declares_assoc_type(
                        assocs,
                        name@,
                    ) {
                        self.say(
                            ErrorCode::GenericTypeError,
                            "Duplicate associated type `"@ + name@ + "` in trait `"@ + class + "`"@,
                            m.span,
                        ).class_members_grows(class, methods, at + 1, assocs, defs);
                    } else {
                        let decl = AssocDeclV {
                            name: name@,
                            params: decls::param_names(type_params@),
                            param_kinds: Seq::new(
                                type_params@.len(),
                                |i: int| self.resolve_type_param_kind(type_params@[i]),
                            ),
                        };
                        self.class_members_grows(class, methods, at + 1, assocs.push(decl), defs);
                    }
                },
                Expression::Function { name, body, .. } => {
                    self.class_members_grows(
                        class,
                        methods,
                        at + 1,
                        assocs,
                        defs.push(MethodV { name: name@, has_default: traits::has_body(body) }),
                    );
                },
                _ => {
                    self.class_members_grows(class, methods, at + 1, assocs, defs);
                },
            }
        }
        growth::starts(self.ledger());
        growth::arrives(
            self.ledger(),
            self.class_members(class, methods, at, assocs, defs).0.ledger(),
        );
    }

    pub broadcast proof fn class_params_grows(
        self,
        params: Seq<TypeParam>,
        at: nat,
        frame: Map<Seq<char>,
        TyVarId>,
        vars: Seq<TyVarId>,
    )
        ensures
            steps(
                self.ledger(),
                (#[trigger] self.class_params(params, at, frame, vars)).0.ledger(),
            ),
        decreases params.len() - at,
    {
        broadcast use {growth::chained, CheckerV::fresh_grows};

        if at < params.len() {
            let (c, v) = self.fresh_var();
            c.set_var_kind(v, params[at as int].kind).class_params_grows(
                params,
                at + 1,
                frame.insert(params[at as int].name@, v),
                vars.push(v),
            );
        }
        growth::starts(self.ledger());
        growth::arrives(self.ledger(), self.class_params(params, at, frame, vars).0.ledger());
    }

    pub broadcast proof fn push_some_params_grows(
        self,
        frame: Map<Seq<char>,
        TyVarId>,
        order: Seq<Seq<char>>,
    )
        ensures
            steps(self.ledger(), (#[trigger] self.push_some_params(frame, order)).ledger()),
    {
        broadcast use {growth::chained};

        growth::starts(self.ledger());
        growth::arrives(self.ledger(), self.push_some_params(frame, order).ledger());
    }

    pub broadcast proof fn method_signature_grows(
        self,
        class: Seq<char>,
        vars: Seq<TyVarId>,
        kinds: Seq<Kind>,
        params: Seq<TypeParam>,
        args: Output,
        declared_ret: Option<Output>,
    )
        ensures
            steps(
                self.ledger(),
                (
                    #[trigger] self.method_signature(class, vars, kinds, params, args, declared_ret)
                ).0.ledger(),
            ),
    {
        broadcast use {
            growth::chained,
            CheckerV::fresh_params_grows,
            CheckerV::push_some_params_grows,
            CheckerV::parse_arg_list_grows,
            CheckerV::parse_type_name_grows,
        };

        growth::starts(self.ledger());
        growth::arrives(
            self.ledger(),
            self.method_signature(class, vars, kinds, params, args, declared_ret).0.ledger(),
        );
    }

    pub broadcast proof fn method_signatures_grows(
        self,
        class: Seq<char>,
        vars: Seq<TyVarId>,
        kinds: Seq<Kind>,
        methods: Seq<Output>,
        at: nat,
    )
        ensures
            steps(
                self.ledger(),
                (#[trigger] self.method_signatures(class, vars, kinds, methods, at)).ledger(),
            ),
        decreases methods.len() - at,
    {
        broadcast use {growth::chained, CheckerV::method_signature_grows};

        if at < methods.len() {
            match *methods[at as int].expr {
                Expression::Function { name, type_params, args, returns: declared_ret, .. } => {
                    let (c, scheme) = self.method_signature(
                        class,
                        vars,
                        kinds,
                        type_params@,
                        args,
                        declared_ret,
                    );
                    c.add_method_scheme(class, name@, scheme).method_signatures_grows(
                        class,
                        vars,
                        kinds,
                        methods,
                        at + 1,
                    );
                },
                _ => {
                    self.method_signatures_grows(class, vars, kinds, methods, at + 1);
                },
            }
        }
        growth::starts(self.ledger());
        growth::arrives(
            self.ledger(),
            self.method_signatures(class, vars, kinds, methods, at).ledger(),
        );
    }

    pub broadcast proof fn open_class_grows(
        self,
        name: Seq<char>,
        params: Seq<TypeParam>,
        methods: Seq<Output>,
        range: Span,
    )
        ensures
            steps(
                self.ledger(),
                (#[trigger] self.open_class(name, params, methods, range)).0.ledger(),
            ),
    {
        broadcast use {
            growth::chained,
            CheckerV::class_members_grows,
            CheckerV::report_grows,
            CheckerV::class_params_grows,
            CheckerV::method_signatures_grows,
        };

        growth::starts(self.ledger());
        growth::arrives(self.ledger(), self.open_class(name, params, methods, range).0.ledger());
    }

    pub broadcast proof fn close_class_grows(self, f: ClassFrameV)
        ensures
            steps(self.ledger(), (#[trigger] self.close_class(f)).ledger()),
    {
        broadcast use {growth::chained, CheckerV::deactivate_grows};

        growth::starts(self.ledger());
        growth::arrives(self.ledger(), self.close_class(f).ledger());
    }

    pub broadcast proof fn parse_heads_grows(self, items: Seq<Output>, at: nat, acc: Seq<Tree>)
        ensures
            steps(self.ledger(), (#[trigger] self.parse_heads(items, at, acc)).0.ledger()),
        decreases items.len() - at,
    {
        broadcast use {growth::chained, CheckerV::parse_instance_head_grows};

        if at < items.len() {
            let (c, t) = self.parse_instance_head(items[at as int]);
            c.parse_heads_grows(items, at + 1, acc.push(t));
        }
        growth::starts(self.ledger());
        growth::arrives(self.ledger(), self.parse_heads(items, at, acc).0.ledger());
    }

    pub broadcast proof fn open_instance_grows(
        self,
        class: Seq<char>,
        exprs: Seq<Output>,
        args: Seq<Tree>,
        methods: Seq<Output>,
        range: Span,
    )
        ensures
            steps(
                self.ledger(),
                (#[trigger] self.open_instance(class, exprs, args, methods, range)).0.ledger(),
            ),
    {
        broadcast use {
            growth::chained,
            CheckerV::validate_instance_head_kinds_grows,
            CheckerV::report_grows,
        };

        growth::starts(self.ledger());
        growth::arrives(
            self.ledger(),
            self.open_instance(class, exprs, args, methods, range).0.ledger(),
        );
    }

    pub broadcast proof fn open_assoc_grows(self, params: Seq<TypeParam>, ty: Output)
        ensures
            steps(self.ledger(), (#[trigger] self.open_assoc(params, ty)).0.ledger()),
    {
        broadcast use {
            growth::chained,
            CheckerV::next_id_grows,
            CheckerV::fresh_params_grows,
            CheckerV::push_some_params_grows,
            CheckerV::parse_type_name_grows,
        };

        growth::starts(self.ledger());
        growth::arrives(self.ledger(), self.open_assoc(params, ty).0.ledger());
    }

    pub broadcast proof fn compare_kinds_grows(
        self,
        name: Seq<char>,
        want: Seq<Kind>,
        have: Seq<Kind>,
        range: Span,
        at: nat,
        faulty: bool,
    )
        ensures
            steps(
                self.ledger(),
                (#[trigger] self.compare_kinds(name, want, have, range, at, faulty)).0.ledger(),
            ),
        decreases want.len() - at,
    {
        broadcast use {growth::chained, CheckerV::report_grows};

        if at < want.len() && at < have.len() {
            if want[at as int] != have[at as int] {
                self.say(
                    ErrorCode::GenericTypeError,
                    "Type parameter "@ + text::decimal(at + 1) + " of associated type `"@ + name
                        + "` has kind `"@ + have[at as int].text_spec() + "`, expected `"@
                        + want[at as int].text_spec() + "`"@,
                    range,
                ).compare_kinds_grows(name, want, have, range, at + 1, true);
            } else {
                self.compare_kinds_grows(name, want, have, range, at + 1, faulty);
            }
        }
        growth::starts(self.ledger());
        growth::arrives(
            self.ledger(),
            self.compare_kinds(name, want, have, range, at, faulty).0.ledger(),
        );
    }

    pub broadcast proof fn compare_assoc_grows(
        self,
        class: Seq<char>,
        decl: AssocDeclV,
        name: Seq<char>,
        a: AssocFrameV,
        params: nat,
        range: Span,
        ty_range: Span,
    )
        ensures
            steps(
                self.ledger(),
                (
                    #[trigger] self.compare_assoc(class, decl, name, a, params, range, ty_range)
                ).0.ledger(),
            ),
    {
        broadcast use {growth::chained, CheckerV::report_grows, CheckerV::compare_kinds_grows};

        growth::starts(self.ledger());
        growth::arrives(
            self.ledger(),
            self.compare_assoc(class, decl, name, a, params, range, ty_range).0.ledger(),
        );
    }

    pub broadcast proof fn patch_stub_grows(
        self,
        stub: Option<usize>,
        name: Seq<char>,
        value: AssocValueV,
    )
        ensures
            steps(self.ledger(), (#[trigger] self.patch_stub(stub, name, value)).ledger()),
    {
        broadcast use {growth::chained};

        growth::starts(self.ledger());
        growth::arrives(self.ledger(), self.patch_stub(stub, name, value).ledger());
    }

    pub broadcast proof fn close_assoc_grows(
        self,
        f: InstFrameV,
        class: Seq<char>,
        name: Seq<char>,
        params: Seq<TypeParam>,
        a: AssocFrameV,
        range: Span,
        ty_range: Span,
    )
        ensures
            steps(
                self.ledger(),
                (
                    #[trigger] self.close_assoc(f, class, name, params, a, range, ty_range)
                ).0.ledger(),
            ),
    {
        broadcast use {
            growth::chained,
            CheckerV::compare_assoc_grows,
            CheckerV::report_grows,
            CheckerV::patch_stub_grows,
        };

        growth::starts(self.ledger());
        growth::arrives(
            self.ledger(),
            self.close_assoc(f, class, name, params, a, range, ty_range).0.ledger(),
        );
    }

    pub broadcast proof fn say_each_grows(
        self,
        names: Seq<Seq<char>>,
        before: Seq<char>,
        after: Seq<char>,
        range: Span,
        at: nat,
    )
        ensures
            steps(
                self.ledger(),
                (#[trigger] self.say_each(names, before, after, range, at)).ledger(),
            ),
        decreases names.len() - at,
    {
        broadcast use {growth::chained, CheckerV::report_grows};

        if at < names.len() {
            self.say(
                ErrorCode::GenericTypeError,
                before + names[at as int] + after,
                range,
            ).say_each_grows(names, before, after, range, at + 1);
        }
        growth::starts(self.ledger());
        growth::arrives(self.ledger(), self.say_each(names, before, after, range, at).ledger());
    }

    pub broadcast proof fn say_missing_grows(
        self,
        names: Seq<Seq<char>>,
        class: Seq<char>,
        args: Seq<Tree>,
        noun: Seq<char>,
        range: Span,
    )
        ensures
            steps(
                self.ledger(),
                (#[trigger] self.say_missing(names, class, args, noun, range)).ledger(),
            ),
    {
        broadcast use {growth::chained, CheckerV::report_grows};

        growth::starts(self.ledger());
        growth::arrives(self.ledger(), self.say_missing(names, class, args, noun, range).ledger());
    }

    pub broadcast proof fn check_instance_grows(
        self,
        f: InstFrameV,
        class: Seq<char>,
        def: ClassV,
        range: Span,
    )
        ensures
            steps(self.ledger(), (#[trigger] self.check_instance(f, class, def, range)).0.ledger()),
    {
        broadcast use {growth::chained, CheckerV::say_each_grows, CheckerV::say_missing_grows};

        growth::starts(self.ledger());
        growth::arrives(self.ledger(), self.check_instance(f, class, def, range).0.ledger());
    }

    pub broadcast proof fn close_instance_grows(self, f: InstFrameV, class: Seq<char>, range: Span)
        ensures
            steps(self.ledger(), (#[trigger] self.close_instance(f, class, range)).ledger()),
    {
        broadcast use {growth::chained, CheckerV::check_instance_grows};

        growth::starts(self.ledger());
        growth::arrives(self.ledger(), self.close_instance(f, class, range).ledger());
    }
}

} // verus!
