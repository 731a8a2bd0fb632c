//! What a checked program can be asked for: the types and recipes recorded by
//! node and by source span, and the declared enums, classes and functions.
use crate::env::Scheme;
use crate::generics::{self, Generics, InstanceDef};
use crate::id::{IdTable, NodeId};
use crate::infer::builtins::{self, is_builtin_ffi_enum};
use crate::infer::{BoundDisplayCall, BoundMethodCall, BoundOperatorCall, CStructDef, CallbackSigDef, Checker, CheckerV, ExistentialMethodCall, ExistentialPack, ForInInfo, MethodKey};
use crate::maps::KeyMap;
use crate::report::Span;
use crate::text::{self, number};
use crate::tree::{self, Head, Tree};
use crate::ty::{EnumVariantPayloadTy, Ty};
use crate::unify::payload_types;
use vstd::prelude::*;

verus! {

broadcast use crate::tree::group_shapes;

/// What a map holds for a key.
pub open spec fn entry<K, V>(m: Map<K, V>, k: K) -> Option<V> {
    if m.contains_key(k) {
        Some(m[k])
    } else {
        None
    }
}

/// The names of a payload's fields: the declared ones, or the places `0`, `1`, ..
/// of a tuple.
pub open spec fn payload_names(payload: Tree) -> Seq<Seq<char>> {
    match payload.head() {
        Head::RecordPayload(names) => names,
        _ => Seq::new(payload.kids().len(), |i: int| text::decimal(i as nat)),
    }
}

/// The fields of a payload, in declaration order.
pub open spec fn payload_pairs(payload: Tree) -> Seq<(Seq<char>, Tree)> {
    Seq::new(
        payload.kids().len(),
        |i: int| (payload_names(payload)[i], payload.kids()[i]),
    )
}

impl CheckerV {
    /// The name under which an enum is registered.
    pub open spec fn registry_enum_name(self, name: Seq<char>) -> Seq<char> {
        if builtins::is_ffi_enum(name) {
            "FFIType"@
        } else {
            name
        }
    }

    /// The tag of a variant.
    pub open spec fn tag_for(self, enum_name: Seq<char>, variant: Seq<char>) -> Option<u32> {
        self.variant_tag(self.registry_enum_name(enum_name), variant)
    }

    /// How many fields the payload of a variant has.
    pub open spec fn arity_for(self, enum_name: Seq<char>, variant: Seq<char>) -> Option<usize> {
        let key = self.registry_enum_name(enum_name);
        match self.tag_for(enum_name, variant) {
            Some(t) => if self.reg.enum_arities.contains_key(key) && t
                < self.reg.enum_arities[key].len() {
                Some(self.reg.enum_arities[key][t as int])
            } else {
                None
            },
            None => None,
        }
    }

    /// The fields of a variant's payload; none when there is no such variant.
    pub open spec fn payload_tys_for(self, enum_name: Seq<char>, variant: Seq<char>) -> Seq<
        (Seq<char>, Tree),
    > {
        match self.tag_for(enum_name, variant) {
            Some(t) => match self.registry_payload(self.registry_enum_name(enum_name), t) {
                Some(p) => payload_pairs(p),
                None => Seq::empty(),
            },
            None => Seq::empty(),
        }
    }

    /// The variant at a place of an enum: its name, its tag and its types. A
    /// variant without a registered tag has its place for one.
    pub open spec fn variant_at(self, enum_name: Seq<char>, i: int) -> (Seq<char>, u32, Seq<Tree>) {
        let name = self.reg.enums[enum_name][i];
        let payloads = self.reg.enum_payloads[enum_name];
        (
            name,
            match self.variant_tag(enum_name, name) {
                Some(t) => t,
                None => i as u32,
            },
            if i < payloads.len() {
                payloads[i].kids()
            } else {
                Seq::empty()
            },
        )
    }

    /// The variants of a registered enum, in declaration order.
    pub open spec fn enum_variants(self, enum_name: Seq<char>) -> Option<
        Seq<(Seq<char>, u32, Seq<Tree>)>,
    > {
        if self.reg.enums.contains_key(enum_name) && self.reg.enum_tags.contains_key(enum_name)
            && self.reg.enum_payloads.contains_key(enum_name) {
            Some(
                Seq::new(self.reg.enums[enum_name].len(), |i: int| self.variant_at(enum_name, i)),
            )
        } else {
            None
        }
    }

    /// The fields of a class, in declaration order.
    pub open spec fn class_fields(self, class: Seq<char>) -> Option<Seq<(Seq<char>, Tree)>> {
        if self.reg.classes.contains_key(class) {
            let fields = self.reg.classes[class];
            Some(Seq::new(fields.len(), |i: int| (fields[i].name, fields[i].ty)))
        } else {
            None
        }
    }

    /// The function that implements a method for these types.
    pub open spec fn instance_method_fqn(
        self,
        class: Seq<char>,
        args: Seq<Tree>,
        method: Seq<char>,
    ) -> Option<Seq<char>> {
        match generics::exact_instance(self.reg.generics.instances, class, args) {
            Some(inst) => entry(inst.method_fqns, method),
            None => None,
        }
    }
}

/// The class that a type names: `C`, or `C` applied to arguments.
pub open spec fn named_class(t: Tree) -> Option<Seq<char>> {
    match t {
        Tree::Node(Head::Con(n), _) => Some(n),
        Tree::Node(Head::App, kids) => if kids.len() > 0 {
            match kids[0] {
                Tree::Node(Head::Con(n), _) => Some(n),
                _ => None,
            }
        } else {
            None
        },
        _ => None,
    }
}

fn field_pairs(p: &EnumVariantPayloadTy) -> (r: Vec<(String, Ty)>)
    ensures
        r.deep_view() == payload_pairs(p@),
{
    let tys = payload_types(p);
    let mut r: Vec<(String, Ty)> = Vec::new();
    let mut i: usize = 0;
    while i < tys.len()
        invariant
            i <= tys.len(),
            tys.deep_view() == p@.kids(),
            r@.len() == i,
            forall|j: int|
                0 <= j < i ==> (#[trigger] r@[j]).deep_view() == payload_pairs(p@)[j],
        decreases tys.len() - i,
    {
        assert(tys.deep_view()[i as int] == tys@[i as int]@);
        let name = match p {
            EnumVariantPayloadTy::Record(fields) => {
                assert(p@.kids() =~= tree::trees_of(fields.deep_view()));
                assert(tree::names_of(fields.deep_view())[i as int] == fields@[i as int].0@);
                fields[i].0.clone()
            },
            _ => number(i),
        };
        r.push((name, tys[i].clone()));
        i += 1;
    }
    assert(r.deep_view() =~= payload_pairs(p@));
    r
}

impl Checker {
    /// The resolved type of a node.
    pub fn lookup_at(&self, id: NodeId) -> (r: Option<Ty>)
        ensures
            match r {
                Some(t) => self@.out.cache.contains_key(id) && t@ == self@.resolve(
                    self@.out.cache[id],
                ),
                None => !self@.out.cache.contains_key(id),
            },
    {
        match self.out.cache.get(&id) {
            Some(t) => Some(self.resolve(t)),
            None => None,
        }
    }

    /// The resolved type of the first node at a source span.
    pub fn lookup_for_codegen_span(&self, start: usize, end: usize) -> (r: Option<Ty>)
        ensures
            match r {
                Some(t) => self@.out.types_by_span.contains_key((Span { start, end })) && t@
                    == self@.resolve(self@.out.types_by_span[(Span { start, end })]),
                None => !self@.out.types_by_span.contains_key((Span { start, end })),
            },
    {
        match self.out.types_by_span.get(&Span { start, end }) {
            Some(t) => Some(self.resolve(t)),
            None => None,
        }
    }

    /// The trait instances selected for the bounds of a call.
    pub fn call_dicts_at(&self, id: NodeId) -> (r: Option<&[InstanceDef]>)
        ensures
            match r {
                Some(s) => self@.out.call_dicts.contains_key(id) && s.deep_view()
                    == self@.out.call_dicts[id],
                None => !self@.out.call_dicts.contains_key(id),
            },
    {
        match self.out.call_dicts.get(&id) {
            Some(v) => {
                let s = v.as_slice();
                assert(s.deep_view() =~= v.deep_view());
                Some(s)
            },
            None => None,
        }
    }

    /// The trait instances selected for the bounds of the calls at a span.
    pub fn call_dicts_for_span(&self, start: usize, end: usize) -> (r: Option<&[InstanceDef]>)
        ensures
            match r {
                Some(s) => self@.out.call_dicts_by_span.contains_key((Span { start, end })) && s.deep_view()
                    == self@.out.call_dicts_by_span[(Span { start, end })],
                None => !self@.out.call_dicts_by_span.contains_key((Span { start, end })),
            },
    {
        match self.out.call_dicts_by_span.get(&Span { start, end }) {
            Some(v) => {
                let s = v.as_slice();
                assert(s.deep_view() =~= v.deep_view());
                Some(s)
            },
            None => None,
        }
    }

    /// The dictionaries that a call forwards from the enclosing function.
    pub fn forwarded_dicts_at(&self, id: NodeId) -> (r: Option<&[usize]>)
        ensures
            match r {
                Some(s) => self@.out.forward_dicts.contains_key(id) && s@
                    == self@.out.forward_dicts[id],
                None => !self@.out.forward_dicts.contains_key(id),
            },
    {
        match self.out.forward_dicts.get(&id) {
            Some(v) => {
                let s = v.as_slice();
                assert(s.deep_view() =~= v.deep_view());
                assert(v.deep_view() =~= s@);
                Some(s)
            },
            None => None,
        }
    }

    /// The dictionaries that the calls at a span forward.
    pub fn forwarded_dicts_for_span(&self, start: usize, end: usize) -> (r: Option<&[usize]>)
        ensures
            match r {
                Some(s) => self@.out.forward_dicts_by_span.contains_key((Span { start, end })) && s@
                    == self@.out.forward_dicts_by_span[(Span { start, end })],
                None => !self@.out.forward_dicts_by_span.contains_key((Span { start, end })),
            },
    {
        match self.out.forward_dicts_by_span.get(&Span { start, end }) {
            Some(v) => {
                let s = v.as_slice();
                assert(s.deep_view() =~= v.deep_view());
                assert(v.deep_view() =~= s@);
                Some(s)
            },
            None => None,
        }
    }

    /// The recipe of a method call through a bound.
    pub fn bound_method_call_at(&self, id: NodeId) -> (r: Option<&BoundMethodCall>)
        ensures
            match r {
                Some(v) => self@.out.method_calls.contains_key(id) && *v
                    == self@.out.method_calls[id],
                None => !self@.out.method_calls.contains_key(id),
            },
    {
        self.out.method_calls.get(&id)
    }

    /// The recipe of the method call at a span.
    pub fn bound_method_call_for_span(&self, start: usize, end: usize) -> (r: Option<&BoundMethodCall>)
        ensures
            match r {
                Some(v) => self@.out.method_calls_by_span.contains_key((Span { start, end })) && *v
                    == self@.out.method_calls_by_span[(Span { start, end })],
                None => !self@.out.method_calls_by_span.contains_key((Span { start, end })),
            },
    {
        self.out.method_calls_by_span.get(&Span { start, end })
    }

    /// The recipe of an operator through a bound.
    pub fn bound_operator_call_at(&self, id: NodeId) -> (r: Option<&BoundOperatorCall>)
        ensures
            match r {
                Some(v) => self@.out.operator_calls.contains_key(id) && *v
                    == self@.out.operator_calls[id],
                None => !self@.out.operator_calls.contains_key(id),
            },
    {
        self.out.operator_calls.get(&id)
    }

    /// The recipe of the operator at a span.
    pub fn bound_operator_call_for_span(&self, start: usize, end: usize) -> (r: Option<&BoundOperatorCall>)
        ensures
            match r {
                Some(v) => self@.out.operator_calls_by_span.contains_key((Span { start, end })) && *v
                    == self@.out.operator_calls_by_span[(Span { start, end })],
                None => !self@.out.operator_calls_by_span.contains_key((Span { start, end })),
            },
    {
        self.out.operator_calls_by_span.get(&Span { start, end })
    }

    /// The recipe of a shown argument through a bound.
    pub fn bound_display_call_at(&self, id: NodeId) -> (r: Option<&BoundDisplayCall>)
        ensures
            match r {
                Some(v) => self@.out.display_calls.contains_key(id) && *v
                    == self@.out.display_calls[id],
                None => !self@.out.display_calls.contains_key(id),
            },
    {
        self.out.display_calls.get(&id)
    }

    /// The recipe of the shown argument at a span.
    pub fn bound_display_call_for_span(&self, start: usize, end: usize) -> (r: Option<&BoundDisplayCall>)
        ensures
            match r {
                Some(v) => self@.out.display_calls_by_span.contains_key((Span { start, end })) && *v
                    == self@.out.display_calls_by_span[(Span { start, end })],
                None => !self@.out.display_calls_by_span.contains_key((Span { start, end })),
            },
    {
        self.out.display_calls_by_span.get(&Span { start, end })
    }

    /// How the value at a span is packed.
    pub fn existential_pack_for_span(&self, start: usize, end: usize) -> (r: Option<&ExistentialPack>)
        ensures
            match r {
                Some(v) => self@.out.packs_by_span.contains_key((Span { start, end })) && v@
                    == self@.out.packs_by_span[(Span { start, end })],
                None => !self@.out.packs_by_span.contains_key((Span { start, end })),
            },
    {
        self.out.packs_by_span.get(&Span { start, end })
    }

    /// The recipe of a method call on a packed value.
    pub fn existential_method_call_at(&self, id: NodeId) -> (r: Option<&ExistentialMethodCall>)
        ensures
            match r {
                Some(v) => self@.out.existential_calls.contains_key(id) && *v
                    == self@.out.existential_calls[id],
                None => !self@.out.existential_calls.contains_key(id),
            },
    {
        self.out.existential_calls.get(&id)
    }

    /// The recipe of the method call on a packed value at a span.
    pub fn existential_method_call_for_span(&self, start: usize, end: usize) -> (r: Option<&ExistentialMethodCall>)
        ensures
            match r {
                Some(v) => self@.out.existential_calls_by_span.contains_key((Span { start, end })) && *v
                    == self@.out.existential_calls_by_span[(Span { start, end })],
                None => !self@.out.existential_calls_by_span.contains_key((Span { start, end })),
            },
    {
        self.out.existential_calls_by_span.get(&Span { start, end })
    }

    /// How a `for x in` loop is lowered.
    pub fn for_in_info_at(&self, id: NodeId) -> (r: Option<&ForInInfo>)
        ensures
            match r {
                Some(v) => self@.out.for_in.contains_key(id) && v@
                    == self@.out.for_in[id],
                None => !self@.out.for_in.contains_key(id),
            },
    {
        self.out.for_in.get(&id)
    }

    /// How the `for x in` loop at a span is lowered.
    pub fn for_in_info_for_span(&self, start: usize, end: usize) -> (r: Option<&ForInInfo>)
        ensures
            match r {
                Some(v) => self@.out.for_in_by_span.contains_key((Span { start, end })) && v@
                    == self@.out.for_in_by_span[(Span { start, end })],
                None => !self@.out.for_in_by_span.contains_key((Span { start, end })),
            },
    {
        self.out.for_in_by_span.get(&Span { start, end })
    }

    /// The signature of a trait method.
    pub fn typeclass_method_scheme(&self, class: &str, method: &str) -> (r: Option<&Scheme>)
        ensures
            match r {
                Some(s) => entry(self@.reg.method_schemes, (class@, method@)) == Some(s@),
                None => entry(self@.reg.method_schemes, (class@, method@)) is None,
            },
    {
        let key = MethodKey { class: class.to_owned(), method: method.to_owned() };
        self.reg.method_schemes.get(&key)
    }

    /// The instances selected at every call.
    pub fn all_call_site_dicts(&self) -> (r: &KeyMap<NodeId, Vec<InstanceDef>>)
        ensures
            r@ == self@.out.call_dicts,
    {
        &self.out.call_dicts
    }

    /// The ids of the nodes, in the order of the walk.
    pub fn id_table(&self) -> (r: &IdTable)
        ensures
            r@ == self@.out.ids,
    {
        &self.out.ids
    }

    /// Whether bare returns of a function are wrapped in `Ok`.
    pub fn fn_is_result_mode(&self, fn_name: &str) -> (r: bool)
        ensures
            r == self@.reg.result_mode_fns.contains(fn_name@),
    {
        self.reg.result_mode_fns.contains(fn_name)
    }

    /// Whether a function returns (or was inferred to return) `Option<_>`.
    pub fn fn_is_option_mode(&self, fn_name: &str) -> (r: bool)
        ensures
            r == self@.reg.option_mode_fns.contains(fn_name@),
    {
        self.reg.option_mode_fns.contains(fn_name)
    }

    pub fn c_structs(&self) -> (r: &[CStructDef])
        ensures
            r.deep_view() == self@.reg.c_structs,
    {
        let s = self.reg.c_structs.as_slice();
        assert(s.deep_view() =~= self.reg.c_structs.deep_view());
        s
    }

    pub fn callback_sigs(&self) -> (r: &[CallbackSigDef])
        ensures
            r@ == self@.reg.callback_sigs,
    {
        self.reg.callback_sigs.as_slice()
    }

    fn registry_enum_name<'a>(&self, enum_name: &'a str) -> (r: &'a str)
        ensures
            r@ == self@.registry_enum_name(enum_name@),
    {
        if is_builtin_ffi_enum(enum_name) {
            "FFIType"
        } else {
            enum_name
        }
    }

    /// Variant tag by enum and variant name.
    pub fn tag_for(&self, enum_name: &str, variant_name: &str) -> (r: Option<u32>)
        ensures
            r == self@.tag_for(enum_name@, variant_name@),
    {
        self.variant_tag(self.registry_enum_name(enum_name), variant_name)
    }

    /// Payload arity of a variant.
    pub fn arity_for(&self, enum_name: &str, variant_name: &str) -> (r: Option<usize>)
        ensures
            r == self@.arity_for(enum_name@, variant_name@),
    {
        let key = self.registry_enum_name(enum_name);
        match self.tag_for(enum_name, variant_name) {
            Some(t) => match self.reg.enum_arities.get(key) {
                Some(a) => {
                    assert(a.deep_view() =~= a@);
                    if (t as usize) < a.len() {
                        Some(a[t as usize])
                    } else {
                        None
                    }
                },
                None => None,
            },
            None => None,
        }
    }

    /// Variants in declaration order: name, tag and payload types.
    pub fn enum_variants(&self, enum_name: &str) -> (r: Option<Vec<(String, u32, Vec<Ty>)>>)
        ensures
            r.deep_view() == self@.enum_variants(enum_name@),
    {
        match (
            self.reg.enums.get(enum_name),
            self.reg.enum_tags.get(enum_name),
            self.reg.enum_payloads.get(enum_name),
        ) {
            (Some(names), Some(_), Some(payloads)) => {
                Some(self.variants_of(enum_name, names, payloads))
            },
            _ => None,
        }
    }

    fn variants_of(
        &self,
        enum_name: &str,
        names: &Vec<String>,
        payloads: &Vec<EnumVariantPayloadTy>,
    ) -> (r: Vec<(String, u32, Vec<Ty>)>)
        requires
            names.deep_view() == self@.reg.enums[enum_name@],
            payloads.deep_view() == self@.reg.enum_payloads[enum_name@],
        ensures
            r.deep_view() == Seq::new(names@.len(), |i: int| self@.variant_at(enum_name@, i)),
    {
        let mut r: Vec<(String, u32, Vec<Ty>)> = Vec::new();
        let mut i: usize = 0;
        while i < names.len()
            invariant
                i <= names.len(),
                names.deep_view() == self@.reg.enums[enum_name@],
                payloads.deep_view() == self@.reg.enum_payloads[enum_name@],
                r@.len() == i,
                forall|j: int|
                    0 <= j < i ==> (#[trigger] r@[j]).deep_view() == self@.variant_at(
                        enum_name@,
                        j,
                    ),
            decreases names.len() - i,
        {
            assert(names.deep_view()[i as int] == names@[i as int]@);
            let tag = match self.variant_tag(enum_name, names[i].as_str()) {
                Some(t) => t,
                None => #[verifier::truncate] (i as u32),
            };
            let tys = if i < payloads.len() {
                assert(payloads.deep_view()[i as int] == payloads@[i as int]@);
                payload_types(&payloads[i])
            } else {
                let none: Vec<Ty> = Vec::new();
                assert(none.deep_view() =~= Seq::<Tree>::empty());
                none
            };
            r.push((names[i].clone(), tag, tys));
            i += 1;
        }
        assert(r.deep_view() =~= Seq::new(
            names@.len(),
            |i: int| self@.variant_at(enum_name@, i),
        ));
        r
    }

    /// The fields of a variant's payload, in declaration order.
    pub fn payload_tys_for(&self, enum_name: &str, variant_name: &str) -> (r: Vec<(String, Ty)>)
        ensures
            r.deep_view() == self@.payload_tys_for(enum_name@, variant_name@),
    {
        if let Some(t) = self.tag_for(enum_name, variant_name) {
            if let Some(p) = self.registry_payload(self.registry_enum_name(enum_name), t) {
                return field_pairs(&p);
            }
        }
        let none: Vec<(String, Ty)> = Vec::new();
        assert(none.deep_view() =~= Seq::<(Seq<char>, Tree)>::empty());
        none
    }

    /// The type of a variable.
    pub fn codegen_var_type(&self, name: &str) -> (r: Option<&Ty>)
        ensures
            match r {
                Some(t) => entry(self@.out.var_types, name@) == Some(t@),
                None => entry(self@.out.var_types, name@) is None,
            },
    {
        self.out.var_types.get(name)
    }

    /// True if `name` is a registered class.
    pub fn is_class(&self, name: &str) -> (r: bool)
        ensures
            r == self@.reg.classes.contains_key(name@),
    {
        self.reg.classes.contains_key(name)
    }

    /// The class that a type names.
    pub fn class_name_of_ty(ty: &Ty) -> (r: Option<&str>)
        ensures
            match r {
                Some(n) => named_class(ty@) == Some(n@),
                None => named_class(ty@) is None,
            },
    {
        match ty {
            Ty::Con(n) => Some(n.as_str()),
            Ty::App(head, args) => {
                proof {
                    tree::app_shape(*head, *args);
                }
                assert(ty@.kids()[0] == head@);
                match &**head {
                    Ty::Con(n) => Some(n.as_str()),
                    _ => None,
                }
            },
            _ => None,
        }
    }

    /// True if a type is an instance of a registered class.
    pub fn ty_is_class(&self, ty: &Ty) -> (r: bool)
        ensures
            r == match named_class(ty@) {
                Some(n) => self@.reg.classes.contains_key(n),
                None => false,
            },
    {
        match Checker::class_name_of_ty(ty) {
            Some(n) => self.is_class(n),
            None => false,
        }
    }

    /// Class fields in declaration order.
    pub fn class_fields(&self, class: &str) -> (r: Option<Vec<(String, Ty)>>)
        ensures
            r.deep_view() == self@.class_fields(class@),
    {
        match self.reg.classes.get(class) {
            Some(fields) => {
                let ghost all = fields.deep_view();
                let mut r: Vec<(String, Ty)> = Vec::new();
                let mut i: usize = 0;
                while i < fields.len()
                    invariant
                        i <= fields.len(),
                        all == fields.deep_view(),
                        r@.len() == i,
                        forall|j: int|
                            0 <= j < i ==> (#[trigger] r@[j]).deep_view() == (all[j].name, all[j].ty),
                    decreases fields.len() - i,
                {
                    assert(all[i as int] == fields@[i as int]@);
                    r.push((fields[i].name.clone(), fields[i].ty.clone()));
                    i += 1;
                }
                assert(r.deep_view() =~= Seq::new(all.len(), |i: int| (all[i].name, all[i].ty)));
                Some(r)
            },
            None => None,
        }
    }

    /// Whether a class has a method.
    pub fn has_method(&self, owner: &str, method: &str) -> (r: bool)
        ensures
            r == (self@.reg.methods.contains_key(owner@)
                && self@.reg.methods[owner@].contains_key(method@)),
    {
        match self.reg.methods.get(owner) {
            Some(m) => m.contains_key(method),
            None => false,
        }
    }

    /// True if `name` was declared as `async fn`.
    pub fn is_async_function(&self, name: &str) -> (r: bool)
        ensures
            r == self@.reg.async_functions.contains(name@),
    {
        self.reg.async_functions.contains(name)
    }

    /// Whether `name` is a function with type parameters.
    pub fn is_generic_fn(&self, name: &str) -> (r: bool)
        ensures
            r == self@.reg.generics.generic_fns.contains(name@),
    {
        self.reg.generics.generic_fns.contains(name)
    }

    /// Number of *user-defined* trait dict slots expected by a generic function.
    /// Returns 0 for non-generic functions or functions whose constraints are all
    /// built-in classes (Num / Ord / Eq / Show and the operator classes).
    pub fn dict_arity_for(&self, fn_name: &str) -> (r: usize)
        ensures
            r == match entry(self@.fn_dict_arity, fn_name@) {
                Some(n) => n,
                None => 0,
            },
    {
        match self.fn_dict_arity.get(fn_name) {
            Some(n) => *n,
            None => 0,
        }
    }

    /// The function that implements a method for these types, if one is
    /// registered.
    pub fn instance_method_fqn(&self, class: &str, args: &[Ty], method: &str) -> (r: Option<&str>)
        ensures
            match r {
                Some(f) => self@.instance_method_fqn(class@, args.deep_view(), method@) == Some(f@),
                None => self@.instance_method_fqn(class@, args.deep_view(), method@) is None,
            },
    {
        match self.reg.generics.find_instance(class, args) {
            Some(inst) => match inst.method_fqns.get(method) {
                Some(f) => Some(f.as_str()),
                None => None,
            },
            None => None,
        }
    }

    /// The registry of traits and instances.
    pub fn generics(&self) -> (r: &Generics)
        ensures
            r@ == self@.reg.generics,
    {
        &self.reg.generics
    }
}

} // verus!
