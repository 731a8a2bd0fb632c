//! Kind language for higher-kinded type parameters.
//!
//! - [`Kind::Type`] (`*`): ordinary types (`int`, `Option<int>`, ...)
//! - [`Kind::Constraint`]: typeclass predicates.
//! - [`Kind::Arrow`]: type constructors, including `* -> * -> *`,
//!   `* -> Constraint`, and `(* -> *) -> *`.
use crate::maps::Dup;
use crate::text::cat3;
use vstd::prelude::*;

verus! {

/// A kind in the higher-kinded fragment.
#[derive(Debug, Hash, Default)]
pub enum Kind {
    /// `*`: a proper type.
    #[default]
    Type,
    /// `Constraint`: a typeclass predicate.
    Constraint,
    /// `domain -> codomain`: a type constructor kind.
    Arrow(Box<Kind>, Box<Kind>),
}

/// `n` held in a `usize`, stopping at `usize::MAX`.
pub open spec fn capped(n: nat) -> usize {
    if n <= usize::MAX {
        n as usize
    } else {
        usize::MAX
    }
}

impl Kind {
    /// Top-level argument kinds, outermost first.
    pub open spec fn args_spec(self) -> Seq<Kind>
        decreases self,
    {
        match self {
            Kind::Arrow(domain, codomain) => seq![*domain] + codomain.args_spec(),
            _ => Seq::empty(),
        }
    }

    /// What remains after every top-level argument is applied.
    pub open spec fn result_spec(self) -> Kind
        decreases self,
    {
        match self {
            Kind::Arrow(_, codomain) => codomain.result_spec(),
            _ => self,
        }
    }

    /// The curried kind that takes `args` in order and ends in `result`.
    pub open spec fn curried(args: Seq<Kind>, result: Kind) -> Kind
        decreases args.len(),
    {
        if args.len() == 0 {
            result
        } else {
            Kind::Arrow(Box::new(args[0]), Box::new(Kind::curried(args.drop_first(), result)))
        }
    }

    /// `n` arguments of kind `*`, ending in `result`.
    pub open spec fn first_order(n: nat, result: Kind) -> Kind
        decreases n,
    {
        if n == 0 {
            result
        } else {
            Kind::Arrow(
                Box::new(Kind::Type),
                Box::new(Kind::first_order((n - 1) as nat, result)),
            )
        }
    }

    /// The notation of a kind: arrows associate to the right, and an arrow in
    /// argument position is put in parentheses.
    pub open spec fn text_spec(self) -> Seq<char>
        decreases self,
    {
        match self {
            Kind::Type => "*"@,
            Kind::Constraint => "Constraint"@,
            Kind::Arrow(domain, codomain) => if *domain is Arrow {
                "("@ + domain.text_spec() + ")"@ + " -> "@ + codomain.text_spec()
            } else {
                domain.text_spec() + " -> "@ + codomain.text_spec()
            },
        }
    }

    pub fn arrow(domain: Kind, codomain: Kind) -> (r: Self)
        ensures
            r == Kind::Arrow(Box::new(domain), Box::new(codomain)),
    {
        Kind::Arrow(Box::new(domain), Box::new(codomain))
    }

    /// Build a first-order constructor kind with `arity` type arguments.
    pub fn constructor(arity: usize) -> (r: Self)
        ensures
            r == Kind::first_order(arity as nat, Kind::Type),
    {
        let mut r = Kind::Type;
        let mut i: usize = 0;
        while i < arity
            invariant
                i <= arity,
                r == Kind::first_order(i as nat, Kind::Type),
            decreases arity - i,
        {
            r = Kind::arrow(Kind::Type, r);
            i += 1;
        }
        r
    }

    /// Build a first-order constraint constructor kind with `arity` type arguments.
    pub fn constraint_constructor(arity: usize) -> (r: Self)
        ensures
            r == Kind::first_order(arity as nat, Kind::Constraint),
    {
        let mut r = Kind::Constraint;
        let mut i: usize = 0;
        while i < arity
            invariant
                i <= arity,
                r == Kind::first_order(i as nat, Kind::Constraint),
            decreases arity - i,
        {
            r = Kind::arrow(Kind::Type, r);
            i += 1;
        }
        r
    }

    /// True when this kind classifies a proper type (`*`).
    pub fn is_type(&self) -> (r: bool)
        ensures
            r == (*self is Type),
    {
        matches!(self, Kind::Type)
    }

    /// True when this kind classifies a typeclass predicate.
    pub fn is_constraint(&self) -> (r: bool)
        ensures
            r == (*self is Constraint),
    {
        matches!(self, Kind::Constraint)
    }

    /// True when this kind classifies a type constructor.
    pub fn is_arrow(&self) -> (r: bool)
        ensures
            r == (*self is Arrow),
    {
        matches!(self, Kind::Arrow(_, _))
    }

    /// Number of top-level arguments before the kind produces a proper type.
    /// A count past `usize::MAX` stays at `usize::MAX`.
    pub fn arity(&self) -> (r: usize)
        ensures
            r == capped(self.args_spec().len()),
        decreases self,
    {
        match self {
            Kind::Arrow(_, codomain) => codomain.arity().saturating_add(1),
            _ => 0,
        }
    }

    pub fn is_constructor_kind(&self) -> (r: bool)
        ensures
            r == (*self is Arrow),
    {
        self.arity() > 0
    }

    /// Result kind after applying every top-level argument.
    pub fn result_kind(&self) -> (r: &Kind)
        ensures
            *r == self.result_spec(),
        decreases self,
    {
        match self {
            Kind::Arrow(_, codomain) => codomain.result_kind(),
            _ => self,
        }
    }

    /// True when this kind is a typeclass predicate constructor, e.g. `* -> Constraint`.
    pub fn is_constraint_constructor_kind(&self) -> (r: bool)
        ensures
            r == (*self is Arrow && self.result_spec() is Constraint),
    {
        self.arity() > 0 && self.result_kind().is_constraint()
    }

    /// Top-level argument kinds in source order.
    pub fn argument_kinds(&self) -> (r: Vec<Kind>)
        ensures
            r@ == self.args_spec(),
    {
        let mut args: Vec<Kind> = Vec::new();
        let mut current = self;
        while current.is_arrow()
            invariant
                args@ + current.args_spec() == self.args_spec(),
            decreases current,
        {
            if let Kind::Arrow(domain, codomain) = current {
                let ghost before = args@;
                args.push((**domain).clone());
                assert(before + current.args_spec() =~= args@ + codomain.args_spec());
                current = &**codomain;
            }
        }
        assert(args@ + current.args_spec() =~= args@);
        args
    }

    /// The kind in source notation, e.g. `(* -> *) -> *`.
    pub fn to_string(&self) -> (r: String)
        ensures
            r@ == self.text_spec(),
        decreases self,
    {
        match self {
            Kind::Type => "*".to_owned(),
            Kind::Constraint => "Constraint".to_owned(),
            Kind::Arrow(domain, codomain) => {
                let inner = domain.to_string();
                let left = if domain.is_arrow() {
                    cat3("(", inner.as_str(), ")")
                } else {
                    inner
                };
                let right = codomain.to_string();
                cat3(left.as_str(), " -> ", right.as_str())
            },
        }
    }
}

impl Clone for Kind {
    fn clone(&self) -> (r: Self)
        ensures
            r == *self,
        decreases self,
    {
        match self {
            Kind::Type => Kind::Type,
            Kind::Constraint => Kind::Constraint,
            Kind::Arrow(domain, codomain) => {
                let d = (&**domain).clone();
                let c = (&**codomain).clone();
                Kind::Arrow(Box::new(d), Box::new(c))
            },
        }
    }
}

impl DeepView for Kind {
    type V = Kind;

    open spec fn deep_view(&self) -> Kind {
        *self
    }
}

impl Dup for Kind {
    fn dup(&self) -> (r: Self) {
        self.clone()
    }
}

/// True when both kinds have the same shape.
pub fn same_kind(a: &Kind, b: &Kind) -> (r: bool)
    ensures
        r == (*a == *b),
    decreases a,
{
    match (a, b) {
        (Kind::Type, Kind::Type) => true,
        (Kind::Constraint, Kind::Constraint) => true,
        (Kind::Arrow(d1, c1), Kind::Arrow(d2, c2)) => same_kind(d1, d2) && same_kind(c1, c2),
        _ => false,
    }
}

impl PartialEq for Kind {
    fn eq(&self, other: &Kind) -> (r: bool) {
        same_kind(self, other)
    }
}

impl vstd::std_specs::cmp::PartialEqSpecImpl for Kind {
    open spec fn obeys_eq_spec() -> bool {
        true
    }

    open spec fn eq_spec(&self, other: &Kind) -> bool {
        *self == *other
    }
}

impl Eq for Kind {

}

/// A kind is the curried arrow of its argument kinds and its result kind, and
/// that result is no arrow.
pub proof fn kind_is_curried(k: Kind)
    ensures
        k == Kind::curried(k.args_spec(), k.result_spec()),
        !(k.result_spec() is Arrow),
    decreases k,
{
    match k {
        Kind::Arrow(domain, codomain) => {
            kind_is_curried(*codomain);
            assert(k.args_spec().drop_first() =~= codomain.args_spec());
        },
        _ => {},
    }
}

/// A first-order kind built from a count has that many arguments, all of kind
/// `*`, and the result it was built with.
pub proof fn first_order_round_trip(n: nat, result: Kind)
    requires
        !(result is Arrow),
    ensures
        Kind::first_order(n, result).args_spec() == Seq::new(n, |i: int| Kind::Type),
        Kind::first_order(n, result).result_spec() == result,
    decreases n,
{
    if n > 0 {
        first_order_round_trip((n - 1) as nat, result);
    }
    assert(Kind::first_order(n, result).args_spec() =~= Seq::new(n, |i: int| Kind::Type));
}

} // verus!
