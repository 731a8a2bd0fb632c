//! Compiler-provided modules (`prelude`, `ffi`, `io`) and what they export.
use crate::maps::Dup;
use crate::text::same_text;
use vstd::prelude::*;

verus! {

/// An enum that the compiler declares.
#[derive(Debug, Clone, Copy, PartialEq, Eq, Structural)]
pub enum BuiltinEnum {
    Option,
    Result,
    FfiType,
    IoError,
}

impl BuiltinEnum {
    /// The name in source text.
    pub open spec fn spelled(self) -> Seq<char> {
        match self {
            BuiltinEnum::Option => "Option"@,
            BuiltinEnum::Result => "Result"@,
            BuiltinEnum::FfiType => "FFIType"@,
            BuiltinEnum::IoError => "IoError"@,
        }
    }

    /// The name in source text.
    pub fn name(self) -> (r: &'static str)
        ensures
            r@ == self.spelled(),
    {
        match self {
            BuiltinEnum::Option => "Option",
            BuiltinEnum::Result => "Result",
            BuiltinEnum::FfiType => "FFIType",
            BuiltinEnum::IoError => "IoError",
        }
    }
}

/// A trait that the compiler declares.
#[derive(Debug, Clone, Copy, PartialEq, Eq, Structural)]
pub enum BuiltinTrait {
    Add,
    Sub,
    Mul,
    Div,
    Num,
    Lt,
    Le,
    Gt,
    Ge,
    Ord,
    Eq,
    Show,
    Into,
    Iterator,
    IntoIterator,
}

impl BuiltinTrait {
    /// The name in source text.
    pub open spec fn spelled(self) -> Seq<char> {
        match self {
            BuiltinTrait::Add => "Add"@,
            BuiltinTrait::Sub => "Sub"@,
            BuiltinTrait::Mul => "Mul"@,
            BuiltinTrait::Div => "Div"@,
            BuiltinTrait::Num => "Num"@,
            BuiltinTrait::Lt => "Lt"@,
            BuiltinTrait::Le => "Le"@,
            BuiltinTrait::Gt => "Gt"@,
            BuiltinTrait::Ge => "Ge"@,
            BuiltinTrait::Ord => "Ord"@,
            BuiltinTrait::Eq => "Eq"@,
            BuiltinTrait::Show => "Show"@,
            BuiltinTrait::Into => "Into"@,
            BuiltinTrait::Iterator => "Iterator"@,
            BuiltinTrait::IntoIterator => "IntoIterator"@,
        }
    }

    /// The name in source text.
    pub fn name(self) -> (r: &'static str)
        ensures
            r@ == self.spelled(),
    {
        match self {
            BuiltinTrait::Add => "Add",
            BuiltinTrait::Sub => "Sub",
            BuiltinTrait::Mul => "Mul",
            BuiltinTrait::Div => "Div",
            BuiltinTrait::Num => "Num",
            BuiltinTrait::Lt => "Lt",
            BuiltinTrait::Le => "Le",
            BuiltinTrait::Gt => "Gt",
            BuiltinTrait::Ge => "Ge",
            BuiltinTrait::Ord => "Ord",
            BuiltinTrait::Eq => "Eq",
            BuiltinTrait::Show => "Show",
            BuiltinTrait::Into => "Into",
            BuiltinTrait::Iterator => "Iterator",
            BuiltinTrait::IntoIterator => "IntoIterator",
        }
    }
}

/// A type tag of the foreign function interface.
#[derive(Debug, Clone, Copy, PartialEq, Eq, Structural)]
pub enum FfiTag {
    Void,
    Int,
    Float,
    String,
    Bool,
    Ptr,
    Int8,
    Int16,
    Int32,
    Int64,
    Callback,
    Struct,
}

impl FfiTag {
    /// The name in source text.
    pub open spec fn spelled(self) -> Seq<char> {
        match self {
            FfiTag::Void => "Void"@,
            FfiTag::Int => "Int"@,
            FfiTag::Float => "Float"@,
            FfiTag::String => "String"@,
            FfiTag::Bool => "Bool"@,
            FfiTag::Ptr => "Ptr"@,
            FfiTag::Int8 => "Int8"@,
            FfiTag::Int16 => "Int16"@,
            FfiTag::Int32 => "Int32"@,
            FfiTag::Int64 => "Int64"@,
            FfiTag::Callback => "Callback"@,
            FfiTag::Struct => "Struct"@,
        }
    }

    /// The name in source text.
    pub fn name(self) -> (r: &'static str)
        ensures
            r@ == self.spelled(),
    {
        match self {
            FfiTag::Void => "Void",
            FfiTag::Int => "Int",
            FfiTag::Float => "Float",
            FfiTag::String => "String",
            FfiTag::Bool => "Bool",
            FfiTag::Ptr => "Ptr",
            FfiTag::Int8 => "Int8",
            FfiTag::Int16 => "Int16",
            FfiTag::Int32 => "Int32",
            FfiTag::Int64 => "Int64",
            FfiTag::Callback => "Callback",
            FfiTag::Struct => "Struct",
        }
    }
}

/// A userland function of the foreign function interface.
#[derive(Debug, Clone, Copy, PartialEq, Eq, Structural)]
pub enum FfiBuiltin {
    Dload,
    Declare,
    Invoke,
}

impl FfiBuiltin {
    /// The name in source text.
    pub open spec fn spelled(self) -> Seq<char> {
        match self {
            FfiBuiltin::Dload => "dload"@,
            FfiBuiltin::Declare => "declare"@,
            FfiBuiltin::Invoke => "invoke"@,
        }
    }

    /// The name in source text.
    pub fn name(self) -> (r: &'static str)
        ensures
            r@ == self.spelled(),
    {
        match self {
            FfiBuiltin::Dload => "dload",
            FfiBuiltin::Declare => "declare",
            FfiBuiltin::Invoke => "invoke",
        }
    }
}

/// A callable of the prelude.
#[derive(Debug, Clone, Copy, PartialEq, Eq, Structural)]
pub enum PreludeFn {
    Assert,
}

impl PreludeFn {
    /// The name in source text.
    pub open spec fn spelled(self) -> Seq<char> {
        match self {
            PreludeFn::Assert => "assert"@,
        }
    }

    /// The name in source text.
    pub fn name(self) -> (r: &'static str)
        ensures
            r@ == self.spelled(),
    {
        match self {
            PreludeFn::Assert => "assert",
        }
    }
}

/// A host function for stream input and output.
#[derive(Debug, Clone, Copy, PartialEq, Eq, Structural)]
pub enum IoBuiltin {
    Stdin,
    Stdout,
    Stderr,
    Open,
    Close,
    Read,
    ReadExact,
    Write,
    ReadToEnd,
    WriteAll,
    FromBytes,
    ToBytes,
    TcpConnect,
    TcpListen,
    TcpAccept,
    TcpAcceptWait,
    UdpBind,
    UdpConnect,
    UdpSendTo,
    UdpRecvFrom,
    UdpRecvFromWait,
    UdpLocalPort,
}

impl IoBuiltin {
    /// The name in source text.
    pub open spec fn spelled(self) -> Seq<char> {
        match self {
            IoBuiltin::Stdin => "stdin"@,
            IoBuiltin::Stdout => "stdout"@,
            IoBuiltin::Stderr => "stderr"@,
            IoBuiltin::Open => "open"@,
            IoBuiltin::Close => "close"@,
            IoBuiltin::Read => "read"@,
            IoBuiltin::ReadExact => "read_exact"@,
            IoBuiltin::Write => "write"@,
            IoBuiltin::ReadToEnd => "read_to_end"@,
            IoBuiltin::WriteAll => "write_all"@,
            IoBuiltin::FromBytes => "from_bytes"@,
            IoBuiltin::ToBytes => "to_bytes"@,
            IoBuiltin::TcpConnect => "connect"@,
            IoBuiltin::TcpListen => "listen"@,
            IoBuiltin::TcpAccept => "accept"@,
            IoBuiltin::TcpAcceptWait => "accept_wait"@,
            IoBuiltin::UdpBind => "bind"@,
            IoBuiltin::UdpConnect => "connect"@,
            IoBuiltin::UdpSendTo => "send_to"@,
            IoBuiltin::UdpRecvFrom => "recv_from"@,
            IoBuiltin::UdpRecvFromWait => "recv_from_wait"@,
            IoBuiltin::UdpLocalPort => "local_port"@,
        }
    }

    /// The name in source text.
    pub fn name(self) -> (r: &'static str)
        ensures
            r@ == self.spelled(),
    {
        match self {
            IoBuiltin::Stdin => "stdin",
            IoBuiltin::Stdout => "stdout",
            IoBuiltin::Stderr => "stderr",
            IoBuiltin::Open => "open",
            IoBuiltin::Close => "close",
            IoBuiltin::Read => "read",
            IoBuiltin::ReadExact => "read_exact",
            IoBuiltin::Write => "write",
            IoBuiltin::ReadToEnd => "read_to_end",
            IoBuiltin::WriteAll => "write_all",
            IoBuiltin::FromBytes => "from_bytes",
            IoBuiltin::ToBytes => "to_bytes",
            IoBuiltin::TcpConnect => "connect",
            IoBuiltin::TcpListen => "listen",
            IoBuiltin::TcpAccept => "accept",
            IoBuiltin::TcpAcceptWait => "accept_wait",
            IoBuiltin::UdpBind => "bind",
            IoBuiltin::UdpConnect => "connect",
            IoBuiltin::UdpSendTo => "send_to",
            IoBuiltin::UdpRecvFrom => "recv_from",
            IoBuiltin::UdpRecvFromWait => "recv_from_wait",
            IoBuiltin::UdpLocalPort => "local_port",
        }
    }
}

/// One export of a compiler-provided module.
#[allow(inconsistent_fields)]
#[derive(Debug, Clone, Copy, PartialEq, Eq, Structural)]
pub enum BuiltinExport {
    Enum { of: BuiltinEnum },
    Trait { of: BuiltinTrait },
    FfiTag { tag: FfiTag },
    FfiFn { kind: FfiBuiltin },
    Fn { kind: PreludeFn },
    IoFn { kind: IoBuiltin },
}

impl DeepView for BuiltinExport {
    type V = BuiltinExport;

    open spec fn deep_view(&self) -> BuiltinExport {
        *self
    }
}

impl Dup for BuiltinExport {
    fn dup(&self) -> (r: Self) {
        *self
    }
}

impl BuiltinExport {
    /// The name under which the export is bound by default.
    pub open spec fn spelled(self) -> Seq<char> {
        match self {
            BuiltinExport::Enum { of } => of.spelled(),
            BuiltinExport::Trait { of } => of.spelled(),
            BuiltinExport::FfiTag { tag } => tag.spelled(),
            BuiltinExport::FfiFn { kind } => kind.spelled(),
            BuiltinExport::Fn { kind } => kind.spelled(),
            BuiltinExport::IoFn { kind } => kind.spelled(),
        }
    }

    /// The name under which the export is bound by default.
    pub fn short_name(self) -> (r: &'static str)
        ensures
            r@ == self.spelled(),
    {
        match self {
            BuiltinExport::Enum { of } => of.name(),
            BuiltinExport::Trait { of } => of.name(),
            BuiltinExport::FfiTag { tag } => tag.name(),
            BuiltinExport::FfiFn { kind } => kind.name(),
            BuiltinExport::Fn { kind } => kind.name(),
            BuiltinExport::IoFn { kind } => kind.name(),
        }
    }
}

/// What `prelude` exports.
pub open spec fn prelude_items() -> Seq<BuiltinExport> {
    seq![
        BuiltinExport::Enum { of: BuiltinEnum::Option },
        BuiltinExport::Enum { of: BuiltinEnum::Result },
    ]
}

fn prelude_items_list() -> (r: Vec<BuiltinExport>)
    ensures
        r@ == prelude_items(),
{
    let mut r: Vec<BuiltinExport> = Vec::new();
    r.push(BuiltinExport::Enum { of: BuiltinEnum::Option });
    r.push(BuiltinExport::Enum { of: BuiltinEnum::Result });
    assert(r@ =~= prelude_items());
    r
}

/// What `prelude::ops` exports.
pub open spec fn ops_items() -> Seq<BuiltinExport> {
    seq![
        BuiltinExport::Trait { of: BuiltinTrait::Add },
        BuiltinExport::Trait { of: BuiltinTrait::Sub },
        BuiltinExport::Trait { of: BuiltinTrait::Mul },
        BuiltinExport::Trait { of: BuiltinTrait::Div },
        BuiltinExport::Trait { of: BuiltinTrait::Num },
        BuiltinExport::Trait { of: BuiltinTrait::Lt },
        BuiltinExport::Trait { of: BuiltinTrait::Le },
        BuiltinExport::Trait { of: BuiltinTrait::Gt },
        BuiltinExport::Trait { of: BuiltinTrait::Ge },
        BuiltinExport::Trait { of: BuiltinTrait::Ord },
        BuiltinExport::Trait { of: BuiltinTrait::Eq },
        BuiltinExport::Trait { of: BuiltinTrait::Show },
        BuiltinExport::Trait { of: BuiltinTrait::Into },
        BuiltinExport::Trait { of: BuiltinTrait::Iterator },
        BuiltinExport::Trait { of: BuiltinTrait::IntoIterator },
    ]
}

fn ops_items_list() -> (r: Vec<BuiltinExport>)
    ensures
        r@ == ops_items(),
{
    let mut r: Vec<BuiltinExport> = Vec::new();
    r.push(BuiltinExport::Trait { of: BuiltinTrait::Add });
    r.push(BuiltinExport::Trait { of: BuiltinTrait::Sub });
    r.push(BuiltinExport::Trait { of: BuiltinTrait::Mul });
    r.push(BuiltinExport::Trait { of: BuiltinTrait::Div });
    r.push(BuiltinExport::Trait { of: BuiltinTrait::Num });
    r.push(BuiltinExport::Trait { of: BuiltinTrait::Lt });
    r.push(BuiltinExport::Trait { of: BuiltinTrait::Le });
    r.push(BuiltinExport::Trait { of: BuiltinTrait::Gt });
    r.push(BuiltinExport::Trait { of: BuiltinTrait::Ge });
    r.push(BuiltinExport::Trait { of: BuiltinTrait::Ord });
    r.push(BuiltinExport::Trait { of: BuiltinTrait::Eq });
    r.push(BuiltinExport::Trait { of: BuiltinTrait::Show });
    r.push(BuiltinExport::Trait { of: BuiltinTrait::Into });
    r.push(BuiltinExport::Trait { of: BuiltinTrait::Iterator });
    r.push(BuiltinExport::Trait { of: BuiltinTrait::IntoIterator });
    assert(r@ =~= ops_items());
    r
}

/// What `prelude::test` exports.
pub open spec fn test_items() -> Seq<BuiltinExport> {
    seq![
        BuiltinExport::Fn { kind: PreludeFn::Assert },
    ]
}

fn test_items_list() -> (r: Vec<BuiltinExport>)
    ensures
        r@ == test_items(),
{
    let mut r: Vec<BuiltinExport> = Vec::new();
    r.push(BuiltinExport::Fn { kind: PreludeFn::Assert });
    assert(r@ =~= test_items());
    r
}

/// What `ffi` exports.
pub open spec fn ffi_items() -> Seq<BuiltinExport> {
    seq![
        BuiltinExport::Enum { of: BuiltinEnum::FfiType },
        BuiltinExport::FfiFn { kind: FfiBuiltin::Dload },
        BuiltinExport::FfiFn { kind: FfiBuiltin::Declare },
        BuiltinExport::FfiFn { kind: FfiBuiltin::Invoke },
    ]
}

fn ffi_items_list() -> (r: Vec<BuiltinExport>)
    ensures
        r@ == ffi_items(),
{
    let mut r: Vec<BuiltinExport> = Vec::new();
    r.push(BuiltinExport::Enum { of: BuiltinEnum::FfiType });
    r.push(BuiltinExport::FfiFn { kind: FfiBuiltin::Dload });
    r.push(BuiltinExport::FfiFn { kind: FfiBuiltin::Declare });
    r.push(BuiltinExport::FfiFn { kind: FfiBuiltin::Invoke });
    assert(r@ =~= ffi_items());
    r
}

/// What `ffi::types` exports.
pub open spec fn ffi_type_items() -> Seq<BuiltinExport> {
    seq![
        BuiltinExport::FfiTag { tag: FfiTag::Void },
        BuiltinExport::FfiTag { tag: FfiTag::Int },
        BuiltinExport::FfiTag { tag: FfiTag::Float },
        BuiltinExport::FfiTag { tag: FfiTag::String },
        BuiltinExport::FfiTag { tag: FfiTag::Bool },
        BuiltinExport::FfiTag { tag: FfiTag::Ptr },
        BuiltinExport::FfiTag { tag: FfiTag::Int8 },
        BuiltinExport::FfiTag { tag: FfiTag::Int16 },
        BuiltinExport::FfiTag { tag: FfiTag::Int32 },
        BuiltinExport::FfiTag { tag: FfiTag::Int64 },
        BuiltinExport::FfiTag { tag: FfiTag::Callback },
        BuiltinExport::FfiTag { tag: FfiTag::Struct },
    ]
}

fn ffi_type_items_list() -> (r: Vec<BuiltinExport>)
    ensures
        r@ == ffi_type_items(),
{
    let mut r: Vec<BuiltinExport> = Vec::new();
    r.push(BuiltinExport::FfiTag { tag: FfiTag::Void });
    r.push(BuiltinExport::FfiTag { tag: FfiTag::Int });
    r.push(BuiltinExport::FfiTag { tag: FfiTag::Float });
    r.push(BuiltinExport::FfiTag { tag: FfiTag::String });
    r.push(BuiltinExport::FfiTag { tag: FfiTag::Bool });
    r.push(BuiltinExport::FfiTag { tag: FfiTag::Ptr });
    r.push(BuiltinExport::FfiTag { tag: FfiTag::Int8 });
    r.push(BuiltinExport::FfiTag { tag: FfiTag::Int16 });
    r.push(BuiltinExport::FfiTag { tag: FfiTag::Int32 });
    r.push(BuiltinExport::FfiTag { tag: FfiTag::Int64 });
    r.push(BuiltinExport::FfiTag { tag: FfiTag::Callback });
    r.push(BuiltinExport::FfiTag { tag: FfiTag::Struct });
    assert(r@ =~= ffi_type_items());
    r
}

/// What `io` exports.
pub open spec fn io_items() -> Seq<BuiltinExport> {
    seq![
        BuiltinExport::Enum { of: BuiltinEnum::IoError },
        BuiltinExport::IoFn { kind: IoBuiltin::Stdin },
        BuiltinExport::IoFn { kind: IoBuiltin::Stdout },
        BuiltinExport::IoFn { kind: IoBuiltin::Stderr },
        BuiltinExport::IoFn { kind: IoBuiltin::Open },
        BuiltinExport::IoFn { kind: IoBuiltin::Close },
        BuiltinExport::IoFn { kind: IoBuiltin::Read },
        BuiltinExport::IoFn { kind: IoBuiltin::ReadExact },
        BuiltinExport::IoFn { kind: IoBuiltin::Write },
        BuiltinExport::IoFn { kind: IoBuiltin::ReadToEnd },
        BuiltinExport::IoFn { kind: IoBuiltin::WriteAll },
        BuiltinExport::IoFn { kind: IoBuiltin::FromBytes },
        BuiltinExport::IoFn { kind: IoBuiltin::ToBytes },
    ]
}

fn io_items_list() -> (r: Vec<BuiltinExport>)
    ensures
        r@ == io_items(),
{
    let mut r: Vec<BuiltinExport> = Vec::new();
    r.push(BuiltinExport::Enum { of: BuiltinEnum::IoError });
    r.push(BuiltinExport::IoFn { kind: IoBuiltin::Stdin });
    r.push(BuiltinExport::IoFn { kind: IoBuiltin::Stdout });
    r.push(BuiltinExport::IoFn { kind: IoBuiltin::Stderr });
    r.push(BuiltinExport::IoFn { kind: IoBuiltin::Open });
    r.push(BuiltinExport::IoFn { kind: IoBuiltin::Close });
    r.push(BuiltinExport::IoFn { kind: IoBuiltin::Read });
    r.push(BuiltinExport::IoFn { kind: IoBuiltin::ReadExact });
    r.push(BuiltinExport::IoFn { kind: IoBuiltin::Write });
    r.push(BuiltinExport::IoFn { kind: IoBuiltin::ReadToEnd });
    r.push(BuiltinExport::IoFn { kind: IoBuiltin::WriteAll });
    r.push(BuiltinExport::IoFn { kind: IoBuiltin::FromBytes });
    r.push(BuiltinExport::IoFn { kind: IoBuiltin::ToBytes });
    assert(r@ =~= io_items());
    r
}

/// What `io::net::tcp` exports.
pub open spec fn tcp_items() -> Seq<BuiltinExport> {
    seq![
        BuiltinExport::IoFn { kind: IoBuiltin::TcpConnect },
        BuiltinExport::IoFn { kind: IoBuiltin::TcpListen },
        BuiltinExport::IoFn { kind: IoBuiltin::TcpAccept },
        BuiltinExport::IoFn { kind: IoBuiltin::TcpAcceptWait },
    ]
}

fn tcp_items_list() -> (r: Vec<BuiltinExport>)
    ensures
        r@ == tcp_items(),
{
    let mut r: Vec<BuiltinExport> = Vec::new();
    r.push(BuiltinExport::IoFn { kind: IoBuiltin::TcpConnect });
    r.push(BuiltinExport::IoFn { kind: IoBuiltin::TcpListen });
    r.push(BuiltinExport::IoFn { kind: IoBuiltin::TcpAccept });
    r.push(BuiltinExport::IoFn { kind: IoBuiltin::TcpAcceptWait });
    assert(r@ =~= tcp_items());
    r
}

/// What `io::net::udp` exports.
pub open spec fn udp_items() -> Seq<BuiltinExport> {
    seq![
        BuiltinExport::IoFn { kind: IoBuiltin::UdpBind },
        BuiltinExport::IoFn { kind: IoBuiltin::UdpConnect },
        BuiltinExport::IoFn { kind: IoBuiltin::UdpSendTo },
        BuiltinExport::IoFn { kind: IoBuiltin::UdpRecvFrom },
        BuiltinExport::IoFn { kind: IoBuiltin::UdpRecvFromWait },
        BuiltinExport::IoFn { kind: IoBuiltin::UdpLocalPort },
    ]
}

fn udp_items_list() -> (r: Vec<BuiltinExport>)
    ensures
        r@ == udp_items(),
{
    let mut r: Vec<BuiltinExport> = Vec::new();
    r.push(BuiltinExport::IoFn { kind: IoBuiltin::UdpBind });
    r.push(BuiltinExport::IoFn { kind: IoBuiltin::UdpConnect });
    r.push(BuiltinExport::IoFn { kind: IoBuiltin::UdpSendTo });
    r.push(BuiltinExport::IoFn { kind: IoBuiltin::UdpRecvFrom });
    r.push(BuiltinExport::IoFn { kind: IoBuiltin::UdpRecvFromWait });
    r.push(BuiltinExport::IoFn { kind: IoBuiltin::UdpLocalPort });
    assert(r@ =~= udp_items());
    r
}

/// What the module at `path` exports, when it is a compiler-provided one.
pub open spec fn exports_of(path: Seq<Seq<char>>) -> Option<Seq<BuiltinExport>> {
    if path == seq!["prelude"@] {
        Some(prelude_items())
    } else if path == seq!["prelude"@, "ops"@] {
        Some(ops_items())
    } else if path == seq!["prelude"@, "test"@] {
        Some(test_items())
    } else if path == seq!["ffi"@] {
        Some(ffi_items())
    } else if path == seq!["ffi"@, "types"@] {
        Some(ffi_type_items())
    } else if path == seq!["io"@] {
        Some(io_items())
    } else if path == seq!["io"@, "net"@, "tcp"@] {
        Some(tcp_items())
    } else if path == seq!["io"@, "net"@, "udp"@] {
        Some(udp_items())
    } else {
        None
    }
}

/// The first export named `name`.
pub open spec fn named_export(exports: Seq<BuiltinExport>, name: Seq<char>) -> Option<BuiltinExport>
    decreases exports.len(),
{
    if exports.len() == 0 {
        None
    } else if exports[0].spelled() == name {
        Some(exports[0])
    } else {
        named_export(exports.drop_first(), name)
    }
}

/// What every program has in scope without a `use`.
pub open spec fn auto_imports() -> Seq<BuiltinExport> {
    prelude_items() + ops_items() + test_items()
}

fn path_is(path: &Vec<String>, a: &str, b: Option<&str>, c: Option<&str>) -> (r: bool)
    requires
        c is Some ==> b is Some,
    ensures
        r == (path.deep_view() == (match (b, c) {
            (Some(x), Some(y)) => seq![a@, x@, y@],
            (Some(x), None) => seq![a@, x@],
            _ => seq![a@],
        })),
{
    let ghost want = match (b, c) {
        (Some(x), Some(y)) => seq![a@, x@, y@],
        (Some(x), None) => seq![a@, x@],
        _ => seq![a@],
    };
    let ghost p = path.deep_view();
    let n: usize = if c.is_some() {
        3
    } else if b.is_some() {
        2
    } else {
        1
    };
    if path.len() != n {
        assert(p.len() != want.len());
        return false;
    }
    if !same_text(path[0].as_str(), a) {
        assert(p[0] != want[0]);
        return false;
    }
    if let Some(x) = b {
        if !same_text(path[1].as_str(), x) {
            assert(p[1] != want[1]);
            return false;
        }
        if let Some(y) = c {
            if !same_text(path[2].as_str(), y) {
                assert(p[2] != want[2]);
                return false;
            }
        }
    }
    assert(p =~= want);
    true
}

/// The compiler-provided modules.
#[derive(Debug, Clone, Copy, PartialEq, Eq, Structural)]
pub struct VirtualModules;

impl VirtualModules {
    pub fn new() -> Self {
        VirtualModules
    }

    /// What every program has in scope without a `use`.
    pub fn prelude_exports(&self) -> (r: Vec<BuiltinExport>)
        ensures
            r@ == auto_imports(),
    {
        let mut r = prelude_items_list();
        let mut ops = ops_items_list();
        let mut test = test_items_list();
        r.append(&mut ops);
        r.append(&mut test);
        r
    }

    /// The exports of a module, for `use path::*`.
    pub fn resolve_glob(&self, path: &Vec<String>) -> (r: Option<Vec<BuiltinExport>>)
        ensures
            match r {
                Some(v) => exports_of(path.deep_view()) == Some(v@),
                None => exports_of(path.deep_view()) is None,
            },
    {
        if path_is(path, "prelude", None, None) {
            Some(prelude_items_list())
        } else if path_is(path, "prelude", Some("ops"), None) {
            Some(ops_items_list())
        } else if path_is(path, "prelude", Some("test"), None) {
            Some(test_items_list())
        } else if path_is(path, "ffi", None, None) {
            Some(ffi_items_list())
        } else if path_is(path, "ffi", Some("types"), None) {
            Some(ffi_type_items_list())
        } else if path_is(path, "io", None, None) {
            Some(io_items_list())
        } else if path_is(path, "io", Some("net"), Some("tcp")) {
            Some(tcp_items_list())
        } else if path_is(path, "io", Some("net"), Some("udp")) {
            Some(udp_items_list())
        } else {
            None
        }
    }

    /// One export of a module, for `use path::name`.
    pub fn resolve_item(&self, path: &Vec<String>, name: &str) -> (r: Option<BuiltinExport>)
        ensures
            r == (match exports_of(path.deep_view()) {
                Some(v) => named_export(v, name@),
                None => None,
            }),
    {
        match self.resolve_glob(path) {
            Some(v) => {
                let ghost all = v@;
                let mut i: usize = 0;
                assert(all.skip(0) =~= all);
                while i < v.len()
                    invariant
                        i <= v.len(),
                        all == v@,
                        exports_of(path.deep_view()) == Some(all),
                        named_export(all, name@) == named_export(all.skip(i as int), name@),
                    decreases v.len() - i,
                {
                    let ghost rest = all.skip(i as int);
                    assert(rest[0] == v@[i as int]);
                    assert(rest.drop_first() =~= all.skip(i + 1));
                    if same_text(v[i].short_name(), name) {
                        return Some(v[i]);
                    }
                    i += 1;
                }
                None
            },
            None => None,
        }
    }
}

} // verus!
