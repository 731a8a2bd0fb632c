//! The steps of [`kinds`](crate::infer::kinds) only add.
use crate::generics::ClassV;
use crate::infer::CheckerV;
use crate::infer::growth::{self, steps};
use crate::kind::Kind;
use crate::report::{ErrorCode, Span};
use crate::text;
use crate::tree::Tree;
use vstd::prelude::*;

verus! {

impl CheckerV {
    pub broadcast proof fn constraint_from_bound_grows(
        self,
        bound: Seq<char>,
        arg: Tree,
        range: Span,
    )
        ensures
            steps(
                self.ledger(),
                (#[trigger] self.constraint_from_bound(bound, arg, range)).0.ledger(),
            ),
    {
        broadcast use {growth::chained, CheckerV::report_grows};

        growth::starts(self.ledger());
        growth::arrives(self.ledger(), self.constraint_from_bound(bound, arg, range).0.ledger());
    }

    pub broadcast proof fn check_arg_kinds_grows(
        self,
        name: Seq<char>,
        expected: Seq<Kind>,
        args: Seq<Tree>,
        range: Span,
        at: nat,
    )
        ensures
            steps(
                self.ledger(),
                (#[trigger] self.check_arg_kinds(name, expected, args, range, at)).ledger(),
            ),
        decreases args.len() - at,
    {
        broadcast use {growth::chained, CheckerV::report_grows};

        if at < args.len() {
            let actual = self.kind_of_type_argument(args[at as int]);
            let want = expected[at as int];
            let c = if actual != want {
                self.say(
                    ErrorCode::GenericTypeError,
                    "Type argument "@ + text::decimal(at + 1) + " to `"@ + name + "` has kind `"@
                        + actual.text_spec() + "`, expected `"@ + want.text_spec() + "`"@,
                    range,
                )
            } else {
                self
            };
            c.check_arg_kinds_grows(name, expected, args, range, at + 1);
        }
        growth::starts(self.ledger());
        growth::arrives(
            self.ledger(),
            self.check_arg_kinds(name, expected, args, range, at).ledger(),
        );
    }

    pub broadcast proof fn check_type_app_kind_grows(
        self,
        name: Seq<char>,
        head: Kind,
        args: Seq<Tree>,
        range: Span,
    )
        ensures
            steps(
                self.ledger(),
                (#[trigger] self.check_type_app_kind(name, head, args, range)).ledger(),
            ),
    {
        broadcast use {growth::chained, CheckerV::report_grows, CheckerV::check_arg_kinds_grows};

        growth::starts(self.ledger());
        growth::arrives(self.ledger(), self.check_type_app_kind(name, head, args, range).ledger());
    }

    pub broadcast proof fn validate_instance_head_kinds_grows(
        self,
        def: ClassV,
        args: Seq<Tree>,
        range: Span,
        at: nat,
    )
        ensures
            steps(
                self.ledger(),
                (#[trigger] self.validate_instance_head_kinds(def, args, range, at)).ledger(),
            ),
        decreases args.len() - at,
    {
        broadcast use {growth::chained, CheckerV::report_grows};

        if at < args.len() {
            let want = def.kind_at(at as int);
            let t = args[at as int];
            let actual = self.kind_of_type_argument(t);
            let c = if !(want is Arrow) {
                self
            } else if t is Node && t.head() is App {
                self.say(
                    ErrorCode::GenericTypeError,
                    "Instance of constructor-kinded class `"@ + def.name
                        + "` expects a type constructor (kind `"@ + want.text_spec()
                        + "`) as argument "@ + text::decimal(at + 1) + ", found applied type `"@
                        + t.text() + "`"@,
                    range,
                )
            } else if actual != want {
                self.say(
                    ErrorCode::GenericTypeError,
                    "Instance of constructor-kinded class `"@ + def.name + "` expects argument "@
                        + text::decimal(at + 1) + " to have kind `"@ + want.text_spec()
                        + "`, found kind `"@ + actual.text_spec() + "`"@,
                    range,
                )
            } else {
                self
            };
            c.validate_instance_head_kinds_grows(def, args, range, at + 1);
        }
        growth::starts(self.ledger());
        growth::arrives(
            self.ledger(),
            self.validate_instance_head_kinds(def, args, range, at).ledger(),
        );
    }
}

} // verus!
