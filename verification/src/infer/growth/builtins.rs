//! The steps of [`builtins`](crate::infer::builtins) only add.
use crate::ast::Output;
use crate::infer::CheckerV;
use crate::infer::growth::{self, steps};
use crate::virtual_modules::BuiltinExport;
use vstd::prelude::*;

verus! {

impl CheckerV {
    pub broadcast proof fn register_builtin_ffi_type_grows(self)
        ensures
            steps(self.ledger(), (#[trigger] self.register_builtin_ffi_type()).ledger()),
    {
        broadcast use {growth::chained};

        growth::starts(self.ledger());
        growth::arrives(self.ledger(), self.register_builtin_ffi_type().ledger());
    }

    pub broadcast proof fn register_builtin_option_result_grows(self)
        ensures
            steps(self.ledger(), (#[trigger] self.register_builtin_option_result()).ledger()),
    {
        broadcast use {growth::chained};

        growth::starts(self.ledger());
        growth::arrives(self.ledger(), self.register_builtin_option_result().ledger());
    }

    pub broadcast proof fn register_builtin_io_error_grows(self)
        ensures
            steps(self.ledger(), (#[trigger] self.register_builtin_io_error()).ledger()),
    {
        broadcast use {growth::chained};

        growth::starts(self.ledger());
        growth::arrives(self.ledger(), self.register_builtin_io_error().ledger());
    }

    pub broadcast proof fn bind_exports_grows(self, exports: Seq<BuiltinExport>, at: nat)
        ensures
            steps(self.ledger(), (#[trigger] self.bind_exports(exports, at)).ledger()),
        decreases exports.len() - at,
    {
        broadcast use {growth::chained};

        if at < exports.len() {
            self.set_binding(
                exports[at as int].spelled(),
                exports[at as int],
            ).bind_exports_grows(exports, at + 1);
        }
        growth::starts(self.ledger());
        growth::arrives(self.ledger(), self.bind_exports(exports, at).ledger());
    }

    pub broadcast proof fn inject_prelude_scope_grows(self)
        ensures
            steps(self.ledger(), (#[trigger] self.inject_prelude_scope()).ledger()),
    {
        broadcast use {growth::chained, CheckerV::bind_exports_grows};

        growth::starts(self.ledger());
        growth::arrives(self.ledger(), self.inject_prelude_scope().ledger());
    }

    pub broadcast proof fn bind_virtual_export_grows(self, local: Seq<char>, export: BuiltinExport)
        ensures
            steps(self.ledger(), (#[trigger] self.bind_virtual_export(local, export)).ledger()),
    {
        broadcast use {growth::chained, CheckerV::register_builtin_io_error_grows};

        growth::starts(self.ledger());
        growth::arrives(self.ledger(), self.bind_virtual_export(local, export).ledger());
    }

    pub broadcast proof fn bind_glob_grows(self, exports: Seq<BuiltinExport>, at: nat)
        ensures
            steps(self.ledger(), (#[trigger] self.bind_glob(exports, at)).ledger()),
        decreases exports.len() - at,
    {
        broadcast use {growth::chained, CheckerV::bind_virtual_export_grows};

        if at < exports.len() {
            self.bind_virtual_export(
                exports[at as int].spelled(),
                exports[at as int],
            ).bind_glob_grows(exports, at + 1);
        }
        growth::starts(self.ledger());
        growth::arrives(self.ledger(), self.bind_glob(exports, at).ledger());
    }

    pub broadcast proof fn apply_virtual_use_grows(
        self,
        path: Seq<Seq<char>>,
        name: Seq<char>,
        alias: Option<Seq<char>>,
    )
        ensures
            steps(self.ledger(), (#[trigger] self.apply_virtual_use(path, name, alias)).0.ledger()),
    {
        broadcast use {
            growth::chained,
            CheckerV::bind_glob_grows,
            CheckerV::bind_virtual_export_grows,
        };

        growth::starts(self.ledger());
        growth::arrives(self.ledger(), self.apply_virtual_use(path, name, alias).0.ledger());
    }

    pub broadcast proof fn require_ffi_type_expr_grows(self, e: Output)
        ensures
            steps(self.ledger(), (#[trigger] self.require_ffi_type_expr(e)).ledger()),
    {
        broadcast use {growth::chained, CheckerV::report_grows};

        growth::starts(self.ledger());
        growth::arrives(self.ledger(), self.require_ffi_type_expr(e).ledger());
    }
}

} // verus!
