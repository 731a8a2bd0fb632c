//! What the compiler declares: enums, module exports, natives and foreign types.
use crate::ast::{Expression, Output};
use crate::env::{Scheme, SchemeV};
use crate::infer::{CStructDef, CStructV, Checker, CheckerV, RegistryV, ScopesV};
use crate::maps::{self, Dup, NameMap};
use crate::report::{ErrorCode, Label, Message, MessageV};
use crate::text::{self, is_lowered, same_text};
use crate::tree::{ArrayLength, Head, Tree};
use crate::ty::{self, EnumVariantPayloadTy, Ty, array, boolean, byte, con, float, fun, int_ty, option_app_ty, payload1, result_app_ty, stream_ty, string, unit};
use crate::virtual_modules::{self, BuiltinEnum, BuiltinExport, FfiBuiltin, IoBuiltin, PreludeFn, VirtualModules};
use vstd::prelude::*;

verus! {

broadcast use crate::tree::group_shapes;

/// The first `n` variants, each with its place as tag.
pub open spec fn tag_map(names: Seq<Seq<char>>, n: nat) -> Map<Seq<char>, u32>
    decreases n,
{
    if n == 0 {
        Map::empty()
    } else {
        tag_map(names, (n - 1) as nat).insert(names[n - 1], (n - 1) as u32)
    }
}

/// Variants, each with its place as tag.
pub fn tags_of(names: &Vec<String>) -> (r: NameMap<u32>)
    ensures
        r@ == tag_map(names.deep_view(), names.deep_view().len()),
{
    let ghost all = names.deep_view();
    let mut m: NameMap<u32> = NameMap::new();
    let mut i: usize = 0;
    while i < names.len()
        invariant
            i <= names.len(),
            all == names.deep_view(),
            m@ == tag_map(all, i as nat),
        decreases names.len() - i,
    {
        assert(all[i as int] == names@[i as int]@);
        m.insert(names[i].clone(), i as u32);
        i += 1;
    }
    m
}

/// The variants of `FFIType`; a variant's place is its tag.
pub open spec fn ffi_variants() -> Seq<Seq<char>> {
    seq![
        "Void"@,
        "Int"@,
        "Float"@,
        "String"@,
        "Bool"@,
        "Ptr"@,
        "Int8"@,
        "Int16"@,
        "Int32"@,
        "Int64"@,
        "Callback"@,
        "Struct"@,
    ]
}

/// The variants of `FFIType`.
pub fn ffi_variant_names() -> (r: Vec<String>)
    ensures
        r.deep_view() == ffi_variants(),
{
    let mut r: Vec<String> = Vec::new();
    r.push("Void".to_owned());
    r.push("Int".to_owned());
    r.push("Float".to_owned());
    r.push("String".to_owned());
    r.push("Bool".to_owned());
    r.push("Ptr".to_owned());
    r.push("Int8".to_owned());
    r.push("Int16".to_owned());
    r.push("Int32".to_owned());
    r.push("Int64".to_owned());
    r.push("Callback".to_owned());
    r.push("Struct".to_owned());
    assert(r.deep_view() =~= ffi_variants());
    r
}

/// Tag of `FFIType::Void`.
pub const VOID: u32 = 0;

/// Tag of `FFIType::Float`.
pub const FLOAT: u32 = 2;

/// Tag of `FFIType::String`.
pub const STRING: u32 = 3;

/// Tag of `FFIType::Bool`.
pub const BOOL: u32 = 4;

/// Tag of `FFIType::Ptr`.
pub const PTR: u32 = 5;

/// Tag of `FFIType::Struct`, the greatest one.
pub const STRUCT: u32 = 11;

/// The place of a variant of `FFIType`, from place `at` on.
pub open spec fn variant_place(names: Seq<Seq<char>>, name: Seq<char>, at: nat) -> Option<u32>
    decreases names.len() - at,
{
    if at >= names.len() {
        None
    } else if names[at as int] == name {
        Some(at as u32)
    } else {
        variant_place(names, name, at + 1)
    }
}

/// The tag of a variant of `FFIType`.
pub fn tag_from_variant_name(name: &str) -> (r: Option<u32>)
    ensures
        r == variant_place(ffi_variants(), name@, 0),
{
    let names = ffi_variant_names();
    let ghost all = names.deep_view();
    let mut i: usize = 0;
    while i < names.len()
        invariant
            i <= names.len(),
            all == names.deep_view(),
            all == ffi_variants(),
            variant_place(all, name@, 0) == variant_place(all, name@, i as nat),
        decreases names.len() - i,
    {
        assert(all[i as int] == names@[i as int]@);
        if same_text(names[i].as_str(), name) {
            return Some(i as u32);
        }
        i += 1;
    }
    None
}

/// The tag of a scalar type by its name in lower case, as in `int32`.
pub open spec fn scalar_place(names: Seq<Seq<char>>, name: Seq<char>, at: nat) -> Option<u32>
    decreases 10 - at,
{
    if at >= 10 || at >= names.len() {
        None
    } else if text::lowered(names[at as int]) == name {
        Some(at as u32)
    } else {
        scalar_place(names, name, at + 1)
    }
}

/// The tag of a scalar type by its name in lower case.
pub fn tag_from_type_name(name: &str) -> (r: Option<u32>)
    ensures
        r == scalar_place(ffi_variants(), name@, 0),
{
    let names = ffi_variant_names();
    let ghost all = names.deep_view();
    let mut i: usize = 0;
    while i < 10 && i < names.len()
        invariant
            i <= 10,
            i <= names.len(),
            all == names.deep_view(),
            all == ffi_variants(),
            scalar_place(all, name@, 0) == scalar_place(all, name@, i as nat),
        decreases names.len() - i,
    {
        assert(all[i as int] == names@[i as int]@);
        if is_lowered(names[i].as_str(), name) {
            return Some(i as u32);
        }
        i += 1;
    }
    None
}

/// A tag and an auxiliary id in one operand: the id in the upper half.
pub open spec fn packed_tag(tag: u32, aux: u32) -> u32 {
    tag | (aux << 16u32)
}

/// A tag and an auxiliary id in one operand.
pub fn encode_tag_operand(tag: u32, aux: u32) -> (r: u32)
    ensures
        r == packed_tag(tag, aux),
{
    tag | (aux << 16u32)
}

/// The tag in an operand.
pub open spec fn operand_tag(enc: u32) -> u32 {
    if enc <= STRUCT {
        enc
    } else {
        enc & 0xFFFFu32
    }
}

/// Whether a name is spelled in lower case letters and digits only.
pub open spec fn plain_lower(name: Seq<char>) -> bool {
    forall|i: int|
        0 <= i < name.len() ==> ('a' <= (#[trigger] name[i]) && name[i] <= 'z') || ('0' <= name[i]
            && name[i] <= '9')
}

/// True when a name is spelled in lower case letters and digits only.
pub fn is_plain_lower(name: &str) -> (r: bool)
    ensures
        r == plain_lower(name@),
{
    let n = name.unicode_len();
    let mut i: usize = 0;
    while i < n
        invariant
            i <= n,
            n == name@.len(),
            forall|j: int|
                0 <= j < i ==> ('a' <= (#[trigger] name@[j]) && name@[j] <= 'z') || ('0' <= name@[j]
                    && name@[j] <= '9'),
        decreases n - i,
    {
        let c = name.get_char(i);
        assert(c == name@[i as int]);
        if !(('a' <= c && c <= 'z') || ('0' <= c && c <= '9')) {
            return false;
        }
        i += 1;
    }
    true
}

/// Whether an enum is the compiler's list of foreign types.
pub open spec fn is_ffi_enum(name: Seq<char>) -> bool {
    name == "FFIType"@ || name == "ffi::types"@
}

/// True when an enum is the compiler's list of foreign types.
pub fn is_builtin_ffi_enum(name: &str) -> (r: bool)
    ensures
        r == is_ffi_enum(name@),
{
    same_text(name, "FFIType") || same_text(name, "ffi::types")
}

/// The type of a scalar foreign type.
pub open spec fn scalar_ty(tag: u32) -> Tree {
    if tag == VOID {
        Tree::con("unit"@)
    } else if tag == FLOAT {
        Tree::con("float"@)
    } else if tag == STRING {
        Tree::con("string"@)
    } else if tag == BOOL {
        Tree::con("bool"@)
    } else {
        Tree::con("int"@)
    }
}

/// The type of a scalar foreign type. Narrow widths and pointers are `int` in
/// the language.
pub fn ty_of_scalar(tag: u32) -> (r: Ty)
    ensures
        r@ == scalar_ty(tag),
{
    if tag == VOID {
        unit()
    } else if tag == FLOAT {
        float()
    } else if tag == STRING {
        string()
    } else if tag == BOOL {
        boolean()
    } else {
        int_ty()
    }
}

/// The names of the fields of a foreign struct.
pub open spec fn c_field_names(def: CStructV) -> Seq<Seq<char>> {
    Seq::new(def.fields.len(), |i: int| def.fields[i].0)
}

/// The types of the fields of a foreign struct.
pub open spec fn c_field_tys(def: CStructV) -> Seq<Tree> {
    Seq::new(def.fields.len(), |i: int| scalar_ty(operand_tag(def.fields[i].1)))
}

/// A foreign struct as a record.
pub open spec fn c_record(def: CStructV) -> Tree {
    Tree::Node(Head::Record(c_field_names(def)), c_field_tys(def))
}

/// A foreign struct as a record.
pub fn record_of_c_struct(def: &CStructDef) -> (r: Ty)
    ensures
        r@ == c_record(def@),
{
    let mut fields: Vec<(String, Ty)> = Vec::new();
    let ghost dv = def@;
    let mut i: usize = 0;
    while i < def.fields.len()
        invariant
            i <= def.fields.len(),
            dv == def@,
            fields@.len() == i,
            forall|j: int|
                0 <= j < i ==> (#[trigger] fields.deep_view()[j]) == (
                    dv.fields[j].0,
                    scalar_ty(operand_tag(dv.fields[j].1)),
                ),
        decreases def.fields.len() - i,
    {
        let enc = def.fields[i].1;
        let tag = if enc <= STRUCT {
            enc
        } else {
            enc & 0xFFFFu32
        };
        let pair = (def.fields[i].0.clone(), ty_of_scalar(tag));
        let ghost before = fields.deep_view();
        fields.push(pair);
        assert(fields.deep_view() =~= before.push((pair.0@, pair.1@)));
        assert(dv.fields[i as int] == (def.fields@[i as int].0@, def.fields@[i as int].1));
        i += 1;
    }
    proof {
        assert(crate::tree::names_of(fields.deep_view()) =~= c_field_names(dv));
        assert(crate::tree::trees_of(fields.deep_view()) =~= c_field_tys(dv));
    }
    Ty::Record { fields }
}

/// A function of these parameters, curried.
pub open spec fn curried(params: Seq<Tree>, ret: Tree) -> Tree
    decreases params.len(),
{
    if params.len() == 0 {
        ret
    } else {
        curried(params.drop_last(), Tree::fun(params.last(), ret))
    }
}

/// A function of these parameters, curried.
pub fn curry(params: &Vec<Ty>, ret: Ty) -> (r: Ty)
    ensures
        r@ == curried(params.deep_view(), ret@),
{
    let ghost all = params.deep_view();
    let mut t = ret;
    let mut i: usize = params.len();
    assert(all.take(i as int) =~= all);
    while i > 0
        invariant
            i <= params.len(),
            all == params.deep_view(),
            curried(all, ret@) == curried(all.take(i as int), t@),
        decreases i,
    {
        assert(all.take(i as int).drop_last() =~= all.take(i - 1));
        assert(all.take(i as int).last() == params@[i - 1]@);
        i -= 1;
        t = fun(params[i].clone(), t);
    }
    t
}

/// `Result` with the errors of stream operations.
pub open spec fn io_result(t: Tree) -> Tree {
    Tree::result_app(t, Tree::con("IoError"@))
}

/// `Result` with the errors of stream operations.
pub fn io_result_ty(t: Ty) -> (r: Ty)
    ensures
        r@ == io_result(t@),
{
    result_app_ty(t, con("IoError"))
}

/// The type of a stream operation.
pub open spec fn io_fn_ty(kind: IoBuiltin) -> Tree {
    let stream = Tree::con("Stream"@);
    let bytes = Tree::array(Tree::con("byte"@), ArrayLength::Dynamic);
    let string = Tree::con("string"@);
    let int_t = Tree::con("int"@);
    let unit_t = Tree::con("unit"@);
    match kind {
        IoBuiltin::Stdin => stream,
        IoBuiltin::Stdout => stream,
        IoBuiltin::Stderr => stream,
        IoBuiltin::Open => Tree::fun(string, Tree::fun(string, io_result(stream))),
        IoBuiltin::Close => Tree::fun(stream, io_result(unit_t)),
        IoBuiltin::Read => Tree::fun(
            stream,
            Tree::fun(bytes, io_result(Tree::option_app(int_t))),
        ),
        IoBuiltin::ReadExact => Tree::fun(
            stream,
            Tree::fun(bytes, io_result(Tree::option_app(int_t))),
        ),
        IoBuiltin::Write => Tree::fun(stream, Tree::fun(bytes, io_result(int_t))),
        IoBuiltin::ReadToEnd => Tree::fun(stream, io_result(bytes)),
        IoBuiltin::WriteAll => Tree::fun(stream, Tree::fun(bytes, io_result(unit_t))),
        IoBuiltin::FromBytes => Tree::fun(bytes, io_result(string)),
        IoBuiltin::ToBytes => Tree::fun(string, bytes),
        IoBuiltin::TcpConnect => Tree::fun(string, Tree::fun(int_t, io_result(stream))),
        IoBuiltin::TcpListen => Tree::fun(string, Tree::fun(int_t, io_result(stream))),
        IoBuiltin::TcpAccept => Tree::fun(stream, io_result(stream)),
        IoBuiltin::TcpAcceptWait => Tree::fun(stream, io_result(stream)),
        IoBuiltin::UdpBind => Tree::fun(string, Tree::fun(int_t, io_result(stream))),
        IoBuiltin::UdpConnect => Tree::fun(string, Tree::fun(int_t, io_result(stream))),
        IoBuiltin::UdpSendTo => Tree::fun(
            stream,
            Tree::fun(bytes, Tree::fun(string, Tree::fun(int_t, io_result(int_t)))),
        ),
        IoBuiltin::UdpRecvFrom => Tree::fun(
            stream,
            Tree::fun(bytes, io_result(Tree::tuple(seq![int_t, string, int_t]))),
        ),
        IoBuiltin::UdpRecvFromWait => Tree::fun(
            stream,
            Tree::fun(bytes, io_result(Tree::tuple(seq![int_t, string, int_t]))),
        ),
        IoBuiltin::UdpLocalPort => Tree::fun(stream, io_result(int_t)),
    }
}

/// `n` unit payloads.
pub open spec fn unit_payloads(n: nat) -> Seq<Tree> {
    Seq::new(n, |i: int| Tree::unit_payload())
}

/// `n` zeros.
pub open spec fn zero_arities(n: nat) -> Seq<usize> {
    Seq::new(n, |i: int| 0usize)
}

fn units(n: usize) -> (r: (Vec<EnumVariantPayloadTy>, Vec<usize>))
    ensures
        r.0.deep_view() == unit_payloads(n as nat),
        r.1@ == zero_arities(n as nat),
{
    let mut payloads: Vec<EnumVariantPayloadTy> = Vec::new();
    let mut arities: Vec<usize> = Vec::new();
    let mut i: usize = 0;
    assert(payloads.deep_view() =~= unit_payloads(0));
    assert(arities@ =~= zero_arities(0));
    while i < n
        invariant
            i <= n,
            payloads.deep_view() == unit_payloads(i as nat),
            arities@ == zero_arities(i as nat),
        decreases n - i,
    {
        let ghost before = payloads.deep_view();
        payloads.push(EnumVariantPayloadTy::Unit);
        arities.push(0);
        assert(payloads.deep_view() =~= before.push(Tree::unit_payload()));
        i += 1;
        assert(payloads.deep_view() =~= unit_payloads(i as nat));
        assert(arities@ =~= zero_arities(i as nat));
    }
    (payloads, arities)
}

/// The payloads of `Option`.
pub open spec fn option_payloads() -> Seq<Tree> {
    seq![Tree::unit_payload(), Tree::payload(seq![Tree::con("T"@)])]
}

/// The payloads of `Result`.
pub open spec fn result_payloads() -> Seq<Tree> {
    seq![Tree::payload(seq![Tree::con("T"@)]), Tree::payload(seq![Tree::con("E"@)])]
}

fn payloads2(a: EnumVariantPayloadTy, b: EnumVariantPayloadTy) -> (r: Vec<EnumVariantPayloadTy>)
    ensures
        r.deep_view() == seq![a@, b@],
{
    let mut r: Vec<EnumVariantPayloadTy> = Vec::new();
    r.push(a);
    r.push(b);
    assert(r.deep_view() =~= seq![a@, b@]);
    r
}

fn arities2(a: usize, b: usize) -> (r: Vec<usize>)
    ensures
        r@ == seq![a, b],
{
    let mut r: Vec<usize> = Vec::new();
    r.push(a);
    r.push(b);
    assert(r@ =~= seq![a, b]);
    r
}

impl CheckerV {
    /// An enum is entered in the registry; a variant's place is its tag.
    pub open spec fn register_enum(
        self,
        name: Seq<char>,
        variants: Seq<Seq<char>>,
        payloads: Seq<Tree>,
        arities: Seq<usize>,
    ) -> CheckerV {
        CheckerV {
            reg: RegistryV {
                enums: self.reg.enums.insert(name, variants),
                enum_tags: self.reg.enum_tags.insert(name, tag_map(variants, variants.len())),
                enum_payloads: self.reg.enum_payloads.insert(name, payloads),
                enum_arities: self.reg.enum_arities.insert(name, arities),
                ..self.reg
            },
            ..self
        }
    }

    /// `FFIType` is entered in the registry.
    pub open spec fn register_builtin_ffi_type(self) -> CheckerV {
        self.register_enum(
            "FFIType"@,
            ffi_variants(),
            unit_payloads(ffi_variants().len()),
            zero_arities(ffi_variants().len()),
        )
    }

    /// `Option` and `Result` are entered in the registry.
    pub open spec fn register_builtin_option_result(self) -> CheckerV {
        self.register_enum(
            "Option"@,
            seq!["None"@, "Some"@],
            option_payloads(),
            seq![0usize, 1usize],
        ).register_enum(
            "Result"@,
            seq!["Ok"@, "Err"@],
            result_payloads(),
            seq![1usize, 1usize],
        )
    }

    /// `IoError` is entered in the registry.
    pub open spec fn register_builtin_io_error(self) -> CheckerV {
        let names = self.reg.io_error_variants;
        self.register_enum(
            "IoError"@,
            names,
            unit_payloads(names.len()),
            zero_arities(names.len()),
        )
    }

    /// A short name is bound to an export.
    pub open spec fn set_binding(self, name: Seq<char>, export: BuiltinExport) -> CheckerV {
        CheckerV {
            scope: ScopesV {
                bindings: self.scope.bindings.insert(name, export),
                binding_order: maps::order_with(
                    self.scope.bindings,
                    self.scope.binding_order,
                    name,
                ),
                ..self.scope
            },
            ..self
        }
    }

    /// Exports are bound under their own names, from place `at` on.
    pub open spec fn bind_exports(self, exports: Seq<BuiltinExport>, at: nat) -> CheckerV
        decreases exports.len() - at,
    {
        if at >= exports.len() {
            self
        } else {
            self.set_binding(exports[at as int].spelled(), exports[at as int]).bind_exports(
                exports,
                at + 1,
            )
        }
    }

    /// Only what every program has in scope is bound.
    pub open spec fn inject_prelude_scope(self) -> CheckerV {
        CheckerV {
            scope: ScopesV {
                bindings: Map::empty(),
                binding_order: Seq::empty(),
                ..self.scope
            },
            ..self
        }.bind_exports(virtual_modules::auto_imports(), 0)
    }

    /// Whether an export needs `IoError`.
    pub open spec fn needs_io_error(export: BuiltinExport) -> bool {
        export is IoFn || export == (BuiltinExport::Enum { of: BuiltinEnum::IoError })
    }

    /// An export is bound under `local`; another local name frees the export's
    /// own short name.
    pub open spec fn bind_virtual_export(self, local: Seq<char>, export: BuiltinExport) -> CheckerV {
        let c = if CheckerV::needs_io_error(export) && !self.reg.enums.contains_key("IoError"@) {
            self.register_builtin_io_error()
        } else {
            self
        };
        let canonical = export.spelled();
        let b = c.scope.bindings;
        let freed = if local != canonical && b.contains_key(canonical) && b[canonical] == export {
            CheckerV {
                scope: ScopesV {
                    bindings: b.remove(canonical),
                    binding_order: maps::without(c.scope.binding_order, canonical),
                    ..c.scope
                },
                ..c
            }
        } else {
            c
        };
        freed.set_binding(local, export)
    }

    /// The exports of a module are brought into scope, from place `at` on.
    pub open spec fn bind_glob(self, exports: Seq<BuiltinExport>, at: nat) -> CheckerV
        decreases exports.len() - at,
    {
        if at >= exports.len() {
            self
        } else {
            self.bind_virtual_export(exports[at as int].spelled(), exports[at as int]).bind_glob(
                exports,
                at + 1,
            )
        }
    }

    /// A `use` of a compiler-provided module; false when it is none.
    pub open spec fn apply_virtual_use(
        self,
        path: Seq<Seq<char>>,
        name: Seq<char>,
        alias: Option<Seq<char>>,
    ) -> (CheckerV, bool) {
        match virtual_modules::exports_of(path) {
            None => (self, false),
            Some(exports) => if name == "*"@ {
                (self.bind_glob(exports, 0), true)
            } else {
                match virtual_modules::named_export(exports, name) {
                    Some(export) => (
                        self.bind_virtual_export(
                            match alias {
                                Some(a) => a,
                                None => name,
                            },
                            export,
                        ),
                        true,
                    ),
                    None => (self, false),
                }
            },
        }
    }

    /// What a short name is bound to.
    pub open spec fn scope_binding(self, name: Seq<char>) -> Option<BuiltinExport> {
        if self.scope.bindings.contains_key(name) {
            Some(self.scope.bindings[name])
        } else {
            None
        }
    }

    /// Whether a name is a foreign type tag in scope.
    pub open spec fn ffi_tag_in_scope(self, name: Seq<char>) -> bool {
        match self.scope_binding(name) {
            Some(BuiltinExport::FfiTag { .. }) => true,
            _ => false,
        }
    }

    /// The foreign function operation that a name means.
    pub open spec fn ffi_fn_in_scope(self, name: Seq<char>) -> Option<FfiBuiltin> {
        match self.scope_binding(name) {
            Some(BuiltinExport::FfiFn { kind }) => Some(kind),
            _ => None,
        }
    }

    /// The prelude function that a name means.
    pub open spec fn prelude_fn_in_scope(self, name: Seq<char>) -> Option<PreludeFn> {
        match self.scope_binding(name) {
            Some(BuiltinExport::Fn { kind }) => Some(kind),
            _ => None,
        }
    }

    /// The stream operation that a name means.
    pub open spec fn io_fn_in_scope(self, name: Seq<char>) -> Option<IoBuiltin> {
        match self.scope_binding(name) {
            Some(BuiltinExport::IoFn { kind }) => Some(kind),
            _ => None,
        }
    }

    /// The place of a foreign struct, from place `at` on.
    pub open spec fn c_struct_place(structs: Seq<CStructV>, name: Seq<char>, at: nat) -> Option<u32>
        decreases structs.len() - at,
    {
        if at >= structs.len() {
            None
        } else if structs[at as int].name == name {
            Some(at as u32)
        } else {
            CheckerV::c_struct_place(structs, name, at + 1)
        }
    }

    /// The place of a foreign struct.
    pub open spec fn c_struct_id(self, name: Seq<char>) -> Option<u32> {
        CheckerV::c_struct_place(self.reg.c_structs, name, 0)
    }

    /// The tag and the auxiliary id that a name stands for as a foreign type.
    pub open spec fn ffi_type_of_name(self, name: Seq<char>) -> Option<(u32, u32)> {
        match self.c_struct_id(name) {
            Some(id) => Some((STRUCT, id)),
            None => {
                let tag = if self.ffi_tag_in_scope(name) {
                    variant_place(ffi_variants(), name, 0)
                } else if plain_lower(name) {
                    scalar_place(ffi_variants(), name, 0)
                } else {
                    None
                };
                match tag {
                    Some(t) => Some((t, 0u32)),
                    None => None,
                }
            },
        }
    }

    /// The tag and the auxiliary id that an expression stands for as a foreign type.
    pub open spec fn ffi_type_tag_from_output(self, e: Output) -> Option<(u32, u32)> {
        match *e.expr {
            Expression::Construct { enum_name, variant_name, fields: _ } => if !is_ffi_enum(
                enum_name@,
            ) || (enum_name@ == "FFIType"@ && !self.scope.bindings.contains_key("FFIType"@)
                && !self.ffi_tag_in_scope(variant_name@)) {
                None
            } else {
                match variant_place(ffi_variants(), variant_name@, 0) {
                    Some(t) => Some((t, 0u32)),
                    None => None,
                }
            },
            Expression::Type(name) => self.ffi_type_of_name(name@),
            Expression::Identifier(name) => self.ffi_type_of_name(name@),
            Expression::Array(items) => if items@.len() == 1 {
                Some((PTR, 0u32))
            } else {
                None
            },
            Expression::Tuple(_) => Some((PTR, 0u32)),
            _ => None,
        }
    }

    /// The type that a foreign type has in the language.
    pub open spec fn ty_from_ffi_type_expr(self, e: Output) -> Tree {
        match self.ffi_type_tag_from_output(e) {
            Some((tag, id)) => if tag == STRUCT {
                if id < self.reg.c_structs.len() {
                    c_record(self.reg.c_structs[id as int])
                } else {
                    Tree::con("int"@)
                }
            } else {
                scalar_ty(tag)
            },
            None => Tree::con("int"@),
        }
    }

    /// An expression that is no foreign type is reported.
    pub open spec fn require_ffi_type_expr(self, e: Output) -> CheckerV {
        if self.ffi_type_tag_from_output(e) is Some {
            self
        } else {
            self.report(
                MessageV::error(
                    ErrorCode::InvalidFfiType,
                    "Expected an FFI type tag"@,
                    e.span,
                ).labelled(ffi_type_hint(), e.span),
            )
        }
    }

    /// A native function is bound.
    pub open spec fn register_native(self, name: Seq<char>, params: Seq<Tree>, ret: Tree) -> CheckerV {
        self.bind(name, SchemeV::mono(curried(params, ret)))
    }
}

/// What can be written as a foreign type.
pub open spec fn ffi_type_hint() -> Seq<char> {
    "use `Int`/`Ptr` after `use ffi::types::*;`, a bare type name (int, void, …), [T], (T, U), or a declared extern struct"@
}

impl Checker {
    /// Enter an enum in the registry; a variant's place is its tag.
    pub fn register_enum(
        &mut self,
        name: &str,
        variants: Vec<String>,
        payloads: Vec<EnumVariantPayloadTy>,
        arities: Vec<usize>,
    )
        ensures
            final(self)@ == old(self)@.register_enum(
                name@,
                variants.deep_view(),
                payloads.deep_view(),
                arities@,
            ),
    {
        let tags = tags_of(&variants);
        assert(arities.deep_view() =~= arities@);
        self.reg.enums.insert(name.to_owned(), variants);
        self.reg.enum_tags.insert(name.to_owned(), tags);
        self.reg.enum_payloads.insert(name.to_owned(), payloads);
        self.reg.enum_arities.insert(name.to_owned(), arities);
    }

    /// Pre-register the compiler-built-in `FFIType` enum with fixed tags.
    pub fn register_builtin_ffi_type(&mut self)
        ensures
            final(self)@ == old(self)@.register_builtin_ffi_type(),
    {
        let names = ffi_variant_names();
        let (payloads, arities) = units(names.len());
        self.register_enum("FFIType", names, payloads, arities);
    }

    /// Pre-register polymorphic `Option` / `Result` tags and payload shapes.
    /// Type annotations use applied types; these entries remain for constructor
    /// tags and payload arities.
    pub fn register_builtin_option_result(&mut self)
        ensures
            final(self)@ == old(self)@.register_builtin_option_result(),
    {
        self.register_enum(
            "Option",
            crate::generics::names2("None", "Some"),
            payloads2(EnumVariantPayloadTy::Unit, payload1(con("T"))),
            arities2(0, 1),
        );
        self.register_enum(
            "Result",
            crate::generics::names2("Ok", "Err"),
            payloads2(payload1(con("T")), payload1(con("E"))),
            arities2(1, 1),
        );
    }

    /// Register the `IoError` unit variants for stream IO.
    pub fn register_builtin_io_error(&mut self)
        ensures
            final(self)@ == old(self)@.register_builtin_io_error(),
    {
        let names = self.reg.io_error_variants.dup();
        let (payloads, arities) = units(names.len());
        self.register_enum("IoError", names, payloads, arities);
    }

    /// Reset scope bindings and inject the auto-prelude.
    pub fn inject_prelude_scope(&mut self)
        ensures
            final(self)@ == old(self)@.inject_prelude_scope(),
    {
        let exports = self.virtual_modules.prelude_exports();
        self.scope.bindings.clear();
        let ghost whole = self@.bind_exports(exports@, 0);
        let mut i: usize = 0;
        while i < exports.len()
            invariant
                i <= exports.len(),
                whole == self@.bind_exports(exports@, i as nat),
            decreases exports.len() - i,
        {
            self.scope.bindings.insert(exports[i].short_name().to_owned(), exports[i]);
            i += 1;
        }
    }

    /// Bind a virtual export under `local` (and drop the previous binding of
    /// the export's own short name when `local` differs). `IoError` tags are
    /// registered lazily, when the `io` module is brought into scope.
    pub fn bind_virtual_export(&mut self, local: &str, export: BuiltinExport)
        ensures
            final(self)@ == old(self)@.bind_virtual_export(local@, export),
    {
        let needs = match export {
            BuiltinExport::IoFn { .. } => true,
            BuiltinExport::Enum { of } => of == BuiltinEnum::IoError,
            _ => false,
        };
        if needs && !self.reg.enums.contains_key("IoError") {
            self.register_builtin_io_error();
        }
        let canonical = export.short_name();
        if !same_text(local, canonical) {
            let same = match self.scope.bindings.get(canonical) {
                Some(e) => *e == export,
                None => false,
            };
            if same {
                self.scope.bindings.remove(canonical);
            }
        }
        self.scope.bindings.insert(local.to_owned(), export);
    }

    /// Apply a `use` against virtual modules. Returns `true` when handled (the
    /// caller should not treat it as a function import from a file).
    pub fn apply_virtual_use(&mut self, path: &Vec<String>, name: &str, alias: Option<&str>) -> (r: bool)
        ensures
            (final(self)@, r) == old(self)@.apply_virtual_use(
                path.deep_view(),
                name@,
                crate::infer::calls::opt_name(alias),
            ),
    {
        if same_text(name, "*") {
            match self.virtual_modules.resolve_glob(path) {
                Some(exports) => {
                    let ghost whole = self@.bind_glob(exports@, 0);
                    let mut i: usize = 0;
                    while i < exports.len()
                        invariant
                            i <= exports.len(),
                            whole == self@.bind_glob(exports@, i as nat),
                        decreases exports.len() - i,
                    {
                        self.bind_virtual_export(exports[i].short_name(), exports[i]);
                        i += 1;
                    }
                    true
                },
                None => false,
            }
        } else {
            match self.virtual_modules.resolve_item(path, name) {
                Some(export) => {
                    let local = match alias {
                        Some(a) => a,
                        None => name,
                    };
                    self.bind_virtual_export(local, export);
                    true
                },
                None => false,
            }
        }
    }

    /// Look up a short name in the virtual-module scope.
    pub fn scope_binding(&self, name: &str) -> (r: Option<&BuiltinExport>)
        ensures
            match r {
                Some(e) => self@.scope_binding(name@) == Some(*e),
                None => self@.scope_binding(name@) is None,
            },
    {
        self.scope.bindings.get(name)
    }

    /// True when `name` is an in-scope FFI tag constructor (`Int`, ..).
    pub fn ffi_tag_in_scope(&self, name: &str) -> (r: bool)
        ensures
            r == self@.ffi_tag_in_scope(name@),
    {
        match self.scope_binding(name) {
            Some(BuiltinExport::FfiTag { .. }) => true,
            _ => false,
        }
    }

    /// Resolve an in-scope name to a userland FFI builtin, if any.
    pub fn ffi_fn_in_scope(&self, name: &str) -> (r: Option<FfiBuiltin>)
        ensures
            r == self@.ffi_fn_in_scope(name@),
    {
        match self.scope_binding(name) {
            Some(BuiltinExport::FfiFn { kind }) => Some(*kind),
            _ => None,
        }
    }

    /// Resolve an in-scope name to a prelude/test callable (`assert`), if any.
    pub fn prelude_fn_in_scope(&self, name: &str) -> (r: Option<PreludeFn>)
        ensures
            r == self@.prelude_fn_in_scope(name@),
    {
        match self.scope_binding(name) {
            Some(BuiltinExport::Fn { kind }) => Some(*kind),
            _ => None,
        }
    }

    /// Resolve an in-scope name to an IO host native (`open`, `read`, ..).
    pub fn io_fn_in_scope(&self, name: &str) -> (r: Option<IoBuiltin>)
        ensures
            r == self@.io_fn_in_scope(name@),
    {
        match self.scope_binding(name) {
            Some(BuiltinExport::IoFn { kind }) => Some(*kind),
            _ => None,
        }
    }

    /// True when a bare enum/trait name is allowed (prelude or explicit use).
    pub fn builtin_name_in_scope(&self, name: &str) -> (r: bool)
        ensures
            r == self@.scope.bindings.contains_key(name@),
    {
        self.scope.bindings.contains_key(name)
    }

    pub fn virtual_modules(&self) -> (r: &VirtualModules)
        ensures
            *r == self.virtual_modules,
    {
        &self.virtual_modules
    }

    /// Scheme for a virtual `io` host native (inserted on `use io::*`).
    pub fn io_fn_scheme(kind: IoBuiltin) -> (r: Scheme)
        ensures
            r@ == SchemeV::mono(io_fn_ty(kind)),
    {
        let t = match kind {
            IoBuiltin::Stdin => stream_ty(),
            IoBuiltin::Stdout => stream_ty(),
            IoBuiltin::Stderr => stream_ty(),
            IoBuiltin::Open => fun(string(), fun(string(), io_result_ty(stream_ty()))),
            IoBuiltin::Close => fun(stream_ty(), io_result_ty(unit())),
            IoBuiltin::Read => read_fn_ty(),
            IoBuiltin::ReadExact => read_fn_ty(),
            IoBuiltin::Write => fun(stream_ty(), fun(array(byte()), io_result_ty(int_ty()))),
            IoBuiltin::ReadToEnd => fun(stream_ty(), io_result_ty(array(byte()))),
            IoBuiltin::WriteAll => fun(stream_ty(), fun(array(byte()), io_result_ty(unit()))),
            IoBuiltin::FromBytes => fun(array(byte()), io_result_ty(string())),
            IoBuiltin::ToBytes => fun(string(), array(byte())),
            IoBuiltin::TcpConnect => address_fn_ty(),
            IoBuiltin::TcpListen => address_fn_ty(),
            IoBuiltin::TcpAccept => fun(stream_ty(), io_result_ty(stream_ty())),
            IoBuiltin::TcpAcceptWait => fun(stream_ty(), io_result_ty(stream_ty())),
            IoBuiltin::UdpBind => address_fn_ty(),
            IoBuiltin::UdpConnect => address_fn_ty(),
            IoBuiltin::UdpSendTo => fun(
                stream_ty(),
                fun(array(byte()), fun(string(), fun(int_ty(), io_result_ty(int_ty())))),
            ),
            IoBuiltin::UdpRecvFrom => recv_from_ty(),
            IoBuiltin::UdpRecvFromWait => recv_from_ty(),
            IoBuiltin::UdpLocalPort => fun(stream_ty(), io_result_ty(int_ty())),
        };
        Scheme::mono(t)
    }

    pub fn c_struct_id(&self, name: &str) -> (r: Option<u32>)
        ensures
            r == self@.c_struct_id(name@),
    {
        let ghost all = self@.reg.c_structs;
        let mut i: usize = 0;
        while i < self.reg.c_structs.len()
            invariant
                i <= self.reg.c_structs.len(),
                all == self.reg.c_structs.deep_view(),
                CheckerV::c_struct_place(all, name@, 0) == CheckerV::c_struct_place(
                    all,
                    name@,
                    i as nat,
                ),
            decreases self.reg.c_structs.len() - i,
        {
            assert(all[i as int] == self.reg.c_structs@[i as int]@);
            if same_text(self.reg.c_structs[i].name.as_str(), name) {
                return Some(i as u32);
            }
            i += 1;
        }
        None
    }

    fn ffi_type_of_name(&self, name: &str) -> (r: Option<(u32, u32)>)
        ensures
            r == self@.ffi_type_of_name(name@),
    {
        if let Some(id) = self.c_struct_id(name) {
            return Some((STRUCT, id));
        }
        let tag = if self.ffi_tag_in_scope(name) {
            tag_from_variant_name(name)
        } else if is_plain_lower(name) {
            tag_from_type_name(name)
        } else {
            None
        };
        match tag {
            Some(t) => Some((t, 0)),
            None => None,
        }
    }

    /// Resolve an FFI type expression to `(tag, aux)` for code generation:
    /// `FFIType::X`, a bare primitive name, `[T]` / `(T, U)` (a pointer), or a
    /// registered struct with its id. Qualified `ffi::types::Int` is always
    /// allowed, `FFIType::Int` needs an import.
    pub fn ffi_type_tag_from_output(&self, expr: &Output) -> (r: Option<(u32, u32)>)
        ensures
            r == self@.ffi_type_tag_from_output(*expr),
    {
        match &*expr.expr {
            Expression::Construct { enum_name, variant_name, fields: _ } => {
                if !is_builtin_ffi_enum(enum_name.as_str()) {
                    return None;
                }
                if same_text(enum_name.as_str(), "FFIType") && !self.builtin_name_in_scope(
                    "FFIType",
                ) && !self.ffi_tag_in_scope(variant_name.as_str()) {
                    return None;
                }
                match tag_from_variant_name(variant_name.as_str()) {
                    Some(t) => Some((t, 0)),
                    None => None,
                }
            },
            Expression::Type(name) => self.ffi_type_of_name(name.as_str()),
            Expression::Identifier(name) => self.ffi_type_of_name(name.as_str()),
            Expression::Array(items) => if items.len() == 1 {
                Some((PTR, 0))
            } else {
                None
            },
            Expression::Tuple(_) => Some((PTR, 0)),
            _ => None,
        }
    }

    /// Map an FFI type tag expression to the language type used for `invoke`
    /// results (void is unit, structs are structural records).
    pub fn ty_from_ffi_type_expr(&self, expr: &Output) -> (r: Ty)
        ensures
            r@ == self@.ty_from_ffi_type_expr(*expr),
    {
        match self.ffi_type_tag_from_output(expr) {
            Some((tag, id)) => if tag == STRUCT {
                if (id as usize) < self.reg.c_structs.len() {
                    assert(self@.reg.c_structs[id as int] == self.reg.c_structs@[id as int]@);
                    record_of_c_struct(&self.reg.c_structs[id as usize])
                } else {
                    int_ty()
                }
            } else {
                ty_of_scalar(tag)
            },
            None => int_ty(),
        }
    }

    /// Emit a diagnostic when `expr` is not a valid FFI type tag.
    pub fn require_ffi_type_expr(&mut self, expr: &Output)
        ensures
            final(self)@ == old(self)@.require_ffi_type_expr(*expr),
    {
        if self.ffi_type_tag_from_output(expr).is_some() {
            return;
        }
        let mut m = Message::error(
            ErrorCode::InvalidFfiType,
            "Expected an FFI type tag".to_owned(),
            expr.span,
        );
        m.push(
            Label::new(
                "use `Int`/`Ptr` after `use ffi::types::*;`, a bare type name (int, void, …), [T], (T, U), or a declared extern struct".to_owned(),
                expr.span,
            ),
        );
        self.report(m);
    }

    /// Register a native (built-in) function with the type system. The
    /// signature is curried into a function type; the binding goes to the
    /// innermost frame.
    pub fn register_native(&mut self, name: &str, params: &Vec<Ty>, ret: &Ty)
        ensures
            final(self)@ == old(self)@.register_native(name@, params.deep_view(), ret@),
    {
        let t = curry(params, ret.clone());
        self.bind(name, Scheme::mono(t));
    }
}

fn read_fn_ty() -> (r: Ty)
    ensures
        r@ == io_fn_ty(IoBuiltin::Read),
{
    fun(stream_ty(), fun(array(byte()), io_result_ty(option_app_ty(int_ty()))))
}

fn address_fn_ty() -> (r: Ty)
    ensures
        r@ == io_fn_ty(IoBuiltin::TcpConnect),
{
    fun(string(), fun(int_ty(), io_result_ty(stream_ty())))
}

fn recv_from_ty() -> (r: Ty)
    ensures
        r@ == io_fn_ty(IoBuiltin::UdpRecvFrom),
{
    let mut items: Vec<Ty> = Vec::new();
    items.push(int_ty());
    items.push(string());
    items.push(int_ty());
    assert(items.deep_view() =~= seq![
        Tree::con("int"@),
        Tree::con("string"@),
        Tree::con("int"@),
    ]);
    fun(stream_ty(), fun(array(byte()), io_result_ty(ty::tuple(items))))
}

} // verus!
