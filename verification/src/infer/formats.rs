//! Format strings: what each specifier asks of its argument.
use crate::generics::{self, GenericsV};
use crate::infer::calls::{self, existential_lookup_ty};
use crate::infer::decls;
use crate::infer::{Checker, CheckerV};
use crate::report::{ErrorCode, Message, MessageV, Span};
use crate::text::{self, cat3, cat4, cat5, number, same_text};
use crate::tree::{self, Head, Tree};
use crate::ty::{Ty, boolean, float, int_ty, string, ty_text};
use vstd::prelude::*;

verus! {

broadcast use crate::tree::group_shapes;

/// A specifier that prints an integer, in the words of a mismatch.
pub open spec fn prints_int(spec: char) -> bool {
    spec == 'i' || spec == 'b' || spec == 'x' || spec == 'u' || spec == 'p'
}

/// What a specifier expects, in words.
pub open spec fn specifier_words(spec: char) -> Seq<char> {
    if prints_int(spec) {
        "int"@
    } else if spec == 'f' {
        "float"@
    } else if spec == 's' {
        "string"@
    } else if spec == 'z' {
        "bool"@
    } else if spec == 'v' {
        "a type with a `Show` instance"@
    } else {
        "an unknown type"@
    }
}

/// Map a format specifier character to the type it expects.
pub fn format_specifier_type(spec: char) -> (r: &'static str)
    ensures
        r@ == specifier_words(spec),
{
    if spec == 'i' || spec == 'b' || spec == 'x' || spec == 'u' || spec == 'p' {
        "int"
    } else if spec == 'f' {
        "float"
    } else if spec == 's' {
        "string"
    } else if spec == 'z' {
        "bool"
    } else if spec == 'v' {
        "a type with a `Show` instance"
    } else {
        "an unknown type"
    }
}

/// Whether a resolved type is the one that a specifier expects; whether a type
/// can be shown is another question. No specifier but those of
/// [`specifier_words`] fits any type, `%d` among them.
pub open spec fn fits_specifier(t: Tree, spec: char) -> bool {
    if prints_int(spec) {
        t == Tree::con("int"@) || t == Tree::con("byte"@)
    } else if spec == 'f' {
        t == Tree::con("float"@)
    } else if spec == 's' {
        t == Tree::con("string"@)
    } else if spec == 'z' {
        t == Tree::con("bool"@)
    } else {
        spec == 'v'
    }
}

fn is_named(ty: &Ty, name: &str) -> (r: bool)
    ensures
        r == (ty@ == Tree::con(name@)),
{
    match ty {
        Ty::Con(n) => {
            assert(ty@ == Tree::con(n@));
            assert(ty@ == Tree::con(name@) ==> ty@.head() == Head::Con(name@));
            same_text(n.as_str(), name)
        },
        _ => false,
    }
}

/// True if `ty`, resolved under the substitution, is the type expected by a
/// concrete `spec`. Open types are settled before this is consulted.
pub fn type_matches_specifier(ty: &Ty, spec: char) -> (r: bool)
    ensures
        r == fits_specifier(ty@, spec),
{
    if spec == 'i' || spec == 'b' || spec == 'x' || spec == 'u' || spec == 'p' {
        is_named(ty, "int") || is_named(ty, "byte")
    } else if spec == 'f' {
        is_named(ty, "float")
    } else if spec == 's' {
        is_named(ty, "string")
    } else if spec == 'z' {
        is_named(ty, "bool")
    } else {
        spec == 'v'
    }
}

/// Normalize a runtime value type to the head used in `impl Show<T>`
/// registration: the name of the enum for a sum or one of its constructors.
pub fn show_lookup_ty(ty: &Ty) -> (r: Ty)
    ensures
        r@ == calls::packed_ty(ty@),
{
    existential_lookup_ty(ty)
}

/// What an open type becomes when it is printed by a specifier.
pub open spec fn specifier_ty(spec: char) -> Option<Tree> {
    if prints_int(spec) || spec == 'd' {
        Some(Tree::con("int"@))
    } else if spec == 'f' {
        Some(Tree::con("float"@))
    } else if spec == 's' {
        Some(Tree::con("string"@))
    } else if spec == 'z' {
        Some(Tree::con("bool"@))
    } else {
        None
    }
}

fn ty_of_specifier(spec: char) -> (r: Option<Ty>)
    ensures
        r.deep_view() == specifier_ty(spec),
{
    if spec == 'i' || spec == 'b' || spec == 'x' || spec == 'u' || spec == 'p' || spec == 'd' {
        Some(int_ty())
    } else if spec == 'f' {
        Some(float())
    } else if spec == 's' {
        Some(string())
    } else if spec == 'z' {
        Some(boolean())
    } else {
        None
    }
}

/// A resolved type can be shown: a tuple or a record when each part can, another
/// type when there is an instance of `Show` for it.
pub open spec fn showable(g: GenericsV, t: Tree) -> bool
    decreases t, 0nat,
{
    match t {
        Tree::Var(_) => false,
        Tree::Node(Head::Tuple, kids) => all_showable(g, kids),
        Tree::Node(Head::Record(_), kids) => all_showable(g, kids),
        _ => exists|i: int|
            0 <= i < g.instances.len() && generics::implements(
                #[trigger] g.instances[i],
                "Show"@,
                seq![calls::packed_ty(t)],
            ),
    }
}

/// Each of the types can be shown.
pub open spec fn all_showable(g: GenericsV, ts: Seq<Tree>) -> bool
    decreases ts, 0nat,
{
    forall|i: int| 0 <= i < ts.len() ==> showable(g, #[trigger] ts[i])
}

/// The place of an argument, counted from one.
pub open spec fn place_text(at: usize) -> Seq<char> {
    text::decimal(decls::deeper(at) as nat)
}

fn place_number(at: usize) -> (r: String)
    ensures
        r@ == place_text(at),
{
    number(at.saturating_add(1))
}

/// The complaint about an argument that a specifier does not fit.
pub open spec fn format_complaint(
    text: Seq<char>,
    advice: Seq<char>,
    ctx: Seq<char>,
    at: usize,
    range: Span,
) -> MessageV {
    MessageV::error(ErrorCode::FormatSpecifierMismatch, text, range).helped(
        advice + "while checking `"@ + ctx + "` format argument #"@ + place_text(at),
    )
}

fn format_message(text: String, advice: &str, ctx: &str, at: usize, range: Span) -> (r: Message)
    ensures
        r@ == format_complaint(text@, advice@, ctx@, at, range),
{
    let mut m = Message::error(ErrorCode::FormatSpecifierMismatch, text, range);
    let n = place_number(at);
    m.with_help(cat5(advice, "while checking `", ctx, "` format argument #", n.as_str()));
    m
}

impl CheckerV {
    /// Whether a value of a type can be shown by `%v`.
    pub open spec fn is_showable_for_format(self, t: Tree) -> bool {
        showable(self.reg.generics, self.resolve(t))
    }

    /// The argument of a `%v` is checked.
    pub open spec fn check_shown(self, t: Tree, range: Span, ctx: Seq<char>, at: usize) -> CheckerV {
        let complaint = "Format specifier `%v` requires a `Show` instance, found "@ + t.text();
        match t {
            Tree::Var(v) => {
                let c = if self.user_dict(v, "Show"@, 0) is None {
                    self.bind_matching_abstract_constraints(Some(v), "Show"@, 0)
                } else {
                    self
                };
                if c.user_dict(v, "Show"@, 0) is Some {
                    c.record_bound_display(range, v)
                } else {
                    c.report(
                        format_complaint(
                            complaint,
                            "add a `T: Show` bound, or use a concrete type; "@,
                            ctx,
                            at,
                            range,
                        ),
                    )
                }
            },
            _ => if self.is_showable_for_format(t) {
                self
            } else {
                self.report(
                    format_complaint(
                        complaint,
                        "implement `Show` for this type, or use a concrete specifier; "@,
                        ctx,
                        at,
                        range,
                    ),
                )
            },
        }
    }

    /// An open argument of a concrete specifier is checked: a type parameter is
    /// refused, another variable becomes what the specifier expects.
    pub open spec fn check_open(
        self,
        spec: char,
        t: Tree,
        range: Span,
        ctx: Seq<char>,
        at: usize,
    ) -> CheckerV {
        if self.var_in_scope(t->Var_0) {
            self.report(
                format_complaint(
                    "Format specifier `%"@ + seq![spec] + "` cannot be used with an open type `"@
                        + t.text() + "`"@,
                    "use `%v` (requires `Show`) instead of `%"@ + seq![spec] + "`; "@,
                    ctx,
                    at,
                    range,
                ),
            )
        } else {
            match specifier_ty(spec) {
                Some(want) => self.unify(
                    t,
                    want,
                    range,
                    ctx + " format argument #"@ + place_text(at),
                ).0,
                None => self.report(
                    format_complaint(
                        "Unknown format specifier `%"@ + seq![spec] + "`"@,
                        ""@,
                        ctx,
                        at,
                        range,
                    ),
                ),
            }
        }
    }

    /// A resolved argument is checked against its specifier.
    pub open spec fn check_format_arg(
        self,
        spec: char,
        t: Tree,
        range: Span,
        ctx: Seq<char>,
        at: usize,
    ) -> CheckerV {
        if spec == 'v' {
            self.check_shown(t, range, ctx, at)
        } else if t is Var {
            self.check_open(spec, t, range, ctx, at)
        } else if fits_specifier(t, spec) {
            self
        } else {
            self.report(
                format_complaint(
                    "Format specifier `%"@ + seq![spec] + "` requires "@ + specifier_words(spec)
                        + ", found "@ + t.text(),
                    ""@,
                    ctx,
                    at,
                    range,
                ),
            )
        }
    }

    /// The complaint about a specifier without an argument.
    pub open spec fn missing_argument(self, spec: char, at: usize, range: Span) -> CheckerV {
        self.report(
            MessageV::error(
                ErrorCode::GenericTypeError,
                "Format string has more specifiers than arguments (`%"@ + seq![spec]
                    + "` is argument #"@ + place_text(at) + ")"@,
                range,
            ).helped("add an argument for `%%"@ + seq![spec] + "` in the call site"@),
        )
    }
}

impl Checker {
    /// True when a value of a type can be shown by `%v`.
    pub fn is_showable_for_format(&self, ty: &Ty) -> (r: bool)
        ensures
            r == self@.is_showable_for_format(ty@),
    {
        let resolved = self.resolve(ty);
        self.showable(&resolved)
    }

    fn showable(&self, ty: &Ty) -> (r: bool)
        ensures
            r == showable(self@.reg.generics, ty@),
        decreases ty, 0nat,
    {
        match ty {
            Ty::Var(_) => false,
            Ty::Tuple(items) => self.all_showable(items),
            Ty::Record { fields } => self.fields_showable(fields),
            _ => {
                let lookup = show_lookup_ty(ty);
                self.reg.generics.has_instance("Show", &lookup)
            },
        }
    }

    fn all_showable(&self, items: &Vec<Ty>) -> (r: bool)
        ensures
            r == all_showable(self@.reg.generics, items.deep_view()),
        decreases items@, items@.len(),
    {
        let ghost all = items.deep_view();
        let mut i: usize = 0;
        while i < items.len()
            invariant
                i <= items.len(),
                all == items.deep_view(),
                forall|j: int| 0 <= j < i ==> showable(self@.reg.generics, #[trigger] all[j]),
            decreases items.len() - i,
        {
            assert(all[i as int] == items@[i as int]@);
            assert(decreases_to!(items@ => items@[i as int]));
            if !self.showable(&items[i]) {
                return false;
            }
            i += 1;
        }
        true
    }

    fn fields_showable(&self, fields: &Vec<(String, Ty)>) -> (r: bool)
        ensures
            r == all_showable(self@.reg.generics, tree::trees_of(fields.deep_view())),
        decreases fields@, fields@.len(),
    {
        let ghost all = tree::trees_of(fields.deep_view());
        let mut i: usize = 0;
        while i < fields.len()
            invariant
                i <= fields.len(),
                all == tree::trees_of(fields.deep_view()),
                forall|j: int| 0 <= j < i ==> showable(self@.reg.generics, #[trigger] all[j]),
            decreases fields.len() - i,
        {
            assert(all[i as int] == fields@[i as int].1@);
            assert(decreases_to!(fields@ => fields@[i as int]));
            assert(decreases_to!(fields@[i as int] => fields@[i as int].1));
            if !self.showable(&fields[i].1) {
                return false;
            }
            i += 1;
        }
        true
    }

    fn check_shown(&mut self, ty: &Ty, range: Span, ctx: &str, at: usize)
        ensures
            final(self)@ == old(self)@.check_shown(ty@, range, ctx@, at),
    {
        let t = ty_text(ty);
        let complaint = text::cat2(
            "Format specifier `%v` requires a `Show` instance, found ",
            t.as_str(),
        );
        match ty {
            Ty::Var(v) => {
                if self.user_dict_index_and_class(*v, "Show").is_none() {
                    self.bind_matching_abstract_constraints(Some(*v), "Show");
                }
                if self.user_dict_index_and_class(*v, "Show").is_some() {
                    self.record_bound_display(range, *v);
                } else {
                    self.report(
                        format_message(
                            complaint,
                            "add a `T: Show` bound, or use a concrete type; ",
                            ctx,
                            at,
                            range,
                        ),
                    );
                }
            },
            _ => {
                if !self.is_showable_for_format(ty) {
                    self.report(
                        format_message(
                            complaint,
                            "implement `Show` for this type, or use a concrete specifier; ",
                            ctx,
                            at,
                            range,
                        ),
                    );
                }
            },
        }
    }

    fn check_open(&mut self, spec: char, shown: &str, ty: &Ty, range: Span, ctx: &str, at: usize)
        requires
            ty@ is Var,
            shown@ == seq![spec],
        ensures
            final(self)@ == old(self)@.check_open(spec, ty@, range, ctx@, at),
    {
        let in_scope = match ty {
            Ty::Var(v) => self.var_in_scope(*v),
            _ => false,
        };
        if in_scope {
            let t = ty_text(ty);
            let advice = cat3("use `%v` (requires `Show`) instead of `%", shown, "`; ");
            self.report(
                format_message(
                    cat5(
                        "Format specifier `%",
                        shown,
                        "` cannot be used with an open type `",
                        t.as_str(),
                        "`",
                    ),
                    advice.as_str(),
                    ctx,
                    at,
                    range,
                ),
            );
            return;
        }
        match ty_of_specifier(spec) {
            Some(want) => {
                let n = place_number(at);
                let what = cat3(ctx, " format argument #", n.as_str());
                let _ = self.unify(ty, &want, range, what.as_str());
            },
            None => {
                self.report(
                    format_message(
                        cat3("Unknown format specifier `%", shown, "`"),
                        "",
                        ctx,
                        at,
                        range,
                    ),
                );
            },
        }
    }

    /// Validate one resolved format argument against its `%X` specifier;
    /// `shown` is the text of the specifier.
    pub fn check_format_arg(
        &mut self,
        spec: char,
        shown: &str,
        ty: &Ty,
        range: Span,
        ctx: &str,
        at: usize,
    )
        requires
            shown@ == seq![spec],
        ensures
            final(self)@ == old(self)@.check_format_arg(spec, ty@, range, ctx@, at),
    {
        if spec == 'v' {
            self.check_shown(ty, range, ctx, at);
            return;
        }
        if let Ty::Var(_) = ty {
            self.check_open(spec, shown, ty, range, ctx, at);
            return;
        }
        if !type_matches_specifier(ty, spec) {
            let t = ty_text(ty);
            let words = format_specifier_type(spec);
            let head = cat4("Format specifier `%", shown, "` requires ", words);
            self.report(
                format_message(
                    cat3(head.as_str(), ", found ", t.as_str()),
                    "",
                    ctx,
                    at,
                    range,
                ),
            );
        }
    }

    /// Complain about a specifier without an argument.
    pub fn missing_argument(&mut self, spec: char, shown: &str, at: usize, range: Span)
        requires
            shown@ == seq![spec],
        ensures
            final(self)@ == old(self)@.missing_argument(spec, at, range),
    {
        let n = place_number(at);
        let mut m = Message::error(
            ErrorCode::GenericTypeError,
            cat5(
                "Format string has more specifiers than arguments (`%",
                shown,
                "` is argument #",
                n.as_str(),
                ")",
            ),
            range,
        );
        m.with_help(cat3("add an argument for `%%", shown, "` in the call site"));
        self.report(m);
    }
}

} // verus!
