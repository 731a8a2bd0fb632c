//! Diagnostics, fresh variables, unification and scopes.
use crate::env::{self, Scheme, SchemeV};
use crate::infer::{Checker, CheckerV, ScopesV, TablesV};
use crate::id::NodeId;
use crate::maps::{NameMap, NameSet};
use crate::report::{ErrorCode, Message, MessageV, Span};
use crate::subst::{self, apply_ty, apply_tys};
use crate::text::{self, cat3, cat5, number};
use crate::tree::Tree;
use crate::ty::{Ty, TyVarId, ty_text};
use crate::unify::{self, UnifyError, UnifyFault, unify_with};
use vstd::prelude::*;

verus! {

impl CheckerV {
    /// A diagnostic is recorded.
    pub open spec fn report(self, m: MessageV) -> CheckerV {
        CheckerV { messages: self.messages.push(m), ..self }
    }

    /// A fresh variable is taken.
    pub open spec fn fresh(self) -> (CheckerV, Tree) {
        (
            CheckerV { counter: env::bump(self.counter), ..self },
            Tree::Var(TyVarId(self.counter)),
        )
    }

    /// A diagnostic is recorded, and a fresh variable stands for the result.
    pub open spec fn error(self, code: ErrorCode, text: Seq<char>, range: Span) -> (
        CheckerV,
        Tree,
    ) {
        self.report(MessageV::error(code, text, range)).fresh()
    }

    /// As `error`, with a help hint.
    pub open spec fn error_with_help(
        self,
        code: ErrorCode,
        text: Seq<char>,
        range: Span,
        help: Seq<char>,
    ) -> (CheckerV, Tree) {
        self.report(MessageV::error(code, text, range).helped(help)).fresh()
    }

    /// What a type is under the substitution.
    pub open spec fn resolve(self, t: Tree) -> Tree {
        t.subst(self.subst)
    }

    /// What types are under the substitution.
    pub open spec fn resolve_all(self, ts: Seq<Tree>) -> Seq<Tree> {
        subst::subst_all(ts, self.subst)
    }

    /// Two types are made equal, or the reason why not is reported and a fresh
    /// variable stands for the result.
    pub open spec fn unify(self, a: Tree, b: Tree, range: Span, what: Seq<char>) -> (
        CheckerV,
        Tree,
    ) {
        match unify::unified(self.subst, a, b) {
            Ok(s) => {
                let c = CheckerV { subst: s, ..self };
                (c, c.resolve(a))
            },
            Err(UnifyFault::Mismatch(left, right)) => self.error_with_help(
                ErrorCode::TypeMismatch,
                "Type mismatch: expected `"@ + left.text() + "`, found `"@ + right.text() + "`"@,
                range,
                "while checking `"@ + what + "`"@,
            ),
            Err(UnifyFault::Occurs(v, t)) => self.error_with_help(
                ErrorCode::InfiniteType,
                "Cannot construct infinite type `"@ + t.text() + "`"@,
                range,
                "the type variable `t"@ + text::decimal(v.0 as nat)
                    + "` would occur in its own definition"@,
            ),
        }
    }

    /// A frame is opened.
    pub open spec fn push_scope(self) -> CheckerV {
        CheckerV {
            env: self.env.push(Map::empty()),
            scope: ScopesV {
                const_scopes: self.scope.const_scopes.push(Set::empty()),
                type_aliases: self.scope.type_aliases.push(Map::empty()),
                ..self.scope
            },
            ..self
        }
    }

    /// The innermost frame is closed; one frame of aliases always stays.
    pub open spec fn pop_scope(self) -> CheckerV {
        CheckerV {
            env: env::env_pop(self.env),
            scope: ScopesV {
                const_scopes: if self.scope.const_scopes.len() > 0 {
                    self.scope.const_scopes.drop_last()
                } else {
                    self.scope.const_scopes
                },
                type_aliases: if self.scope.type_aliases.len() > 1 {
                    self.scope.type_aliases.drop_last()
                } else {
                    seq![Map::empty()]
                },
                ..self.scope
            },
            ..self
        }
    }

    /// A name is bound in the innermost frame.
    pub open spec fn bind(self, name: Seq<char>, scheme: SchemeV) -> CheckerV {
        CheckerV { env: env::env_insert(self.env, name, scheme), ..self }
    }

    /// What a name is bound to.
    pub open spec fn lookup(self, name: Seq<char>) -> Option<SchemeV> {
        env::env_lookup(self.env, name)
    }

    /// The type of a variable is recorded.
    pub open spec fn note_var(self, name: Seq<char>, t: Tree) -> CheckerV {
        CheckerV {
            out: TablesV { var_types: self.out.var_types.insert(name, t), ..self.out },
            ..self
        }
    }

    /// A name is declared constant in the innermost frame.
    pub open spec fn insert_const_binding(self, name: Seq<char>) -> CheckerV {
        let scopes = self.scope.const_scopes;
        CheckerV {
            scope: ScopesV {
                const_scopes: if scopes.len() == 0 {
                    seq![Set::<Seq<char>>::empty().insert(name)]
                } else {
                    scopes.drop_last().push(scopes.last().insert(name))
                },
                ..self.scope
            },
            ..self
        }
    }

    /// A name is declared constant in some frame.
    pub open spec fn is_const(self, name: Seq<char>) -> bool {
        exists|i: int|
            0 <= i < self.scope.const_scopes.len() && (#[trigger] self.scope.const_scopes[i]).contains(
                name,
            )
    }

    /// The id of the next node, while there is one.
    pub open spec fn next_id(self) -> (CheckerV, Option<NodeId>) {
        if self.out.next_id_idx < self.out.ids.len() {
            (
                CheckerV {
                    out: TablesV {
                        next_id_idx: (self.out.next_id_idx + 1) as usize,
                        ..self.out
                    },
                    ..self
                },
                Some(self.out.ids[self.out.next_id_idx as int]),
            )
        } else {
            (self, None)
        }
    }

    /// The type of a node is recorded.
    pub open spec fn cache_at(self, id: Option<NodeId>, t: Tree) -> CheckerV {
        match id {
            Some(id) => CheckerV {
                out: TablesV { cache: self.out.cache.insert(id, t), ..self.out },
                ..self
            },
            None => self,
        }
    }
}

impl Checker {
    /// Record a diagnostic.
    pub fn report(&mut self, m: Message)
        ensures
            final(self)@ == old(self)@.report(m@),
    {
        self.messages.push(m);
        assert(self.messages.deep_view() =~= old(self).messages.deep_view().push(m@));
    }

    /// A fresh type variable.
    pub fn fresh(&mut self) -> (r: Ty)
        ensures
            final(self)@ == old(self)@.fresh().0,
            r@ == old(self)@.fresh().1,
    {
        Ty::Var(self.counter.fresh())
    }

    /// Record an error message and return a fresh variable.
    pub fn error(&mut self, code: ErrorCode, message: String, range: Span) -> (r: Ty)
        ensures
            (final(self)@, r@) == old(self)@.error(code, message@, range),
    {
        self.report(Message::error(code, message, range));
        self.fresh()
    }

    /// Record an error message with a help hint and return a fresh variable.
    pub fn error_with_help(
        &mut self,
        code: ErrorCode,
        message: String,
        range: Span,
        help: String,
    ) -> (r: Ty)
        ensures
            (final(self)@, r@) == old(self)@.error_with_help(code, message@, range, help@),
    {
        let mut msg = Message::error(code, message, range);
        msg.with_help(help);
        self.report(msg);
        self.fresh()
    }

    /// What a type is under the substitution.
    pub fn resolve(&self, t: &Ty) -> (r: Ty)
        ensures
            r@ == self@.resolve(t@),
    {
        apply_ty(&self.subst, t)
    }

    /// What types are under the substitution.
    pub fn resolve_all(&self, ts: &Vec<Ty>) -> (r: Vec<Ty>)
        ensures
            r.deep_view() == self@.resolve_all(ts.deep_view()),
    {
        apply_tys(&self.subst, ts)
    }

    /// Unify two types under the current substitution, updating it on success.
    /// On failure, record a message and return a fresh variable so inference
    /// can continue.
    pub fn unify(&mut self, a: &Ty, b: &Ty, range: Span, what: &str) -> (r: Ty)
        ensures
            (final(self)@, r@) == old(self)@.unify(a@, b@, range, what@),
    {
        match unify_with(&self.subst, a, b) {
            Ok(s) => {
                self.subst = s;
                self.resolve(a)
            },
            Err(UnifyError::Mismatch { left, right }) => {
                let l = ty_text(&left);
                let r = ty_text(&right);
                self.error_with_help(
                    ErrorCode::TypeMismatch,
                    cat5("Type mismatch: expected `", l.as_str(), "`, found `", r.as_str(), "`"),
                    range,
                    cat3("while checking `", what, "`"),
                )
            },
            Err(UnifyError::Occurs { var, ty }) => {
                let t = ty_text(&ty);
                let n = number(var.0 as usize);
                self.error_with_help(
                    ErrorCode::InfiniteType,
                    cat3("Cannot construct infinite type `", t.as_str(), "`"),
                    range,
                    cat3(
                        "the type variable `t",
                        n.as_str(),
                        "` would occur in its own definition",
                    ),
                )
            },
        }
    }

    /// Open a frame.
    pub fn push_scope(&mut self)
        ensures
            final(self)@ == old(self)@.push_scope(),
    {
        self.env.push();
        self.scope.const_scopes.push(NameSet::new());
        self.scope.type_aliases.push(NameMap::new());
        proof {
            let before = old(self)@.scope;
            assert(self@.scope.const_scopes =~= before.const_scopes.push(Set::empty()));
            assert(self@.scope.type_aliases =~= before.type_aliases.push(Map::empty()));
        }
    }

    /// Close the innermost frame.
    pub fn pop_scope(&mut self)
        ensures
            final(self)@ == old(self)@.pop_scope(),
    {
        self.env.pop();
        let _ = self.scope.const_scopes.pop();
        if self.scope.type_aliases.len() > 1 {
            let _ = self.scope.type_aliases.pop();
        } else {
            self.scope.type_aliases = Vec::new();
            self.scope.type_aliases.push(NameMap::new());
        }
        proof {
            let want = old(self)@.pop_scope().scope;
            assert(self@.scope.const_scopes =~= want.const_scopes);
            assert(self@.scope.type_aliases =~= want.type_aliases);
        }
    }

    /// Bind a name in the innermost frame.
    pub fn bind(&mut self, name: &str, scheme: Scheme)
        ensures
            final(self)@ == old(self)@.bind(name@, scheme@),
    {
        self.env.insert_top(name.to_owned(), scheme);
    }

    /// A copy of what a name is bound to.
    pub fn lookup(&self, name: &str) -> (r: Option<Scheme>)
        ensures
            match r {
                Some(s) => self@.lookup(name@) == Some(s@),
                None => self@.lookup(name@) is None,
            },
    {
        match self.env.lookup(name) {
            Some(s) => Some(s.clone()),
            None => None,
        }
    }

    /// Record the type of a variable.
    pub fn note_var(&mut self, name: &str, t: &Ty)
        ensures
            final(self)@ == old(self)@.note_var(name@, t@),
    {
        self.out.var_types.insert(name.to_owned(), t.clone());
    }

    /// Declare a name constant in the innermost frame.
    pub fn insert_const_binding(&mut self, name: &str)
        ensures
            final(self)@ == old(self)@.insert_const_binding(name@),
    {
        let mut frame = match self.scope.const_scopes.pop() {
            Some(f) => f,
            None => NameSet::new(),
        };
        let _ = frame.insert(name.to_owned());
        self.scope.const_scopes.push(frame);
        assert(self@.scope.const_scopes =~= old(self)@.insert_const_binding(
            name@,
        ).scope.const_scopes);
    }

    /// True when a name is declared constant in some frame.
    pub fn is_const_binding(&self, name: &str) -> (r: bool)
        ensures
            r == self@.is_const(name@),
    {
        let ghost scopes = self@.scope.const_scopes;
        let mut i: usize = 0;
        while i < self.scope.const_scopes.len()
            invariant
                i <= scopes.len(),
                scopes == self.scope.const_scopes.deep_view(),
                scopes == self@.scope.const_scopes,
                forall|j: int| 0 <= j < i ==> !(#[trigger] scopes[j]).contains(name@),
            decreases scopes.len() - i,
        {
            assert(scopes[i as int] == self.scope.const_scopes@[i as int]@);
            if self.scope.const_scopes[i].contains(name) {
                return true;
            }
            i += 1;
        }
        false
    }

    /// The id of the next node, while there is one.
    pub fn next_id(&mut self) -> (r: Option<NodeId>)
        ensures
            (final(self)@, r) == old(self)@.next_id(),
    {
        if self.out.next_id_idx < self.out.ids.len() {
            let id = self.out.ids.ids()[self.out.next_id_idx];
            self.out.next_id_idx = self.out.next_id_idx + 1;
            Some(id)
        } else {
            None
        }
    }

    /// Record the type of a node.
    pub fn cache_at(&mut self, id: Option<NodeId>, t: &Ty)
        ensures
            final(self)@ == old(self)@.cache_at(id, t@),
    {
        if let Some(id) = id {
            self.out.cache.insert(id, t.clone());
        }
    }
}

} // verus!
