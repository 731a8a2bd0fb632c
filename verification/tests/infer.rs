//! Programs in source form, checked end to end. The reader at the top turns the
//! text of a program into the tree that the checker takes.
use coil_typecheck::ast::{
    EnumConstructPayload, EnumVariantPayload, Expression, FieldInit, ForeignStruct, MatchArm,
    Output, Pattern, PatternField, PatternPayload, TypeParam, Visibility, WhereConstraint,
};
use coil_typecheck::generics::InstanceDef;
use coil_typecheck::id::{pre_walk, IdTable, NodeId};
use coil_typecheck::infer::enums::{is_option_ty, option_inner};
use coil_typecheck::infer::Checker;
use coil_typecheck::kind::Kind;
use coil_typecheck::maps::NameMap;
use coil_typecheck::report::{ErrorCode, Message, Span};
use coil_typecheck::subst::apply_ty;
use coil_typecheck::ty::{
    array_fixed, boolean, byte, float, int_ty, string, tuple, ty_text, unit, Constraint,
    EnumVariantPayloadTy, Ty, TyVarId,
};

#[derive(Clone, Debug, PartialEq)]
enum Lexeme {
    Word(String),
    Whole(i64),
    Real(f64),
    Text(String),
    Sign(&'static str),
    End,
}

#[derive(Clone, Debug)]
struct Token {
    lexeme: Lexeme,
    start: usize,
    end: usize,
}

const SIGNS: &[&str] = &[
    "**", "<<", "==", "!=", "<=", "&&", "||", "??", "?.", "->", "=>", "::", "++", "--", "+=", "-=",
    "*=", "/=", "%=", "+", "-", "*", "/", "%", "^", "&", "|", "<", ">", "=", "!", "~", "(", ")",
    "[", "]", "{", "}", ",", ";", ":", ".",
];

fn tokens(src: &str) -> Vec<Token> {
    let bytes = src.as_bytes();
    let mut out: Vec<Token> = Vec::new();
    let mut i = 0usize;
    while i < bytes.len() {
        let c = bytes[i] as char;
        if c.is_whitespace() {
            i += 1;
            continue;
        }
        if src[i..].starts_with("//") {
            while i < bytes.len() && bytes[i] != b'\n' {
                i += 1;
            }
            continue;
        }
        let start = i;
        if c.is_ascii_alphabetic() || c == '_' {
            while i < bytes.len() && ((bytes[i] as char).is_ascii_alphanumeric() || bytes[i] == b'_') {
                i += 1;
            }
            out.push(Token { lexeme: Lexeme::Word(src[start..i].to_string()), start, end: i });
            continue;
        }
        if c.is_ascii_digit() {
            while i < bytes.len() && (bytes[i] as char).is_ascii_digit() {
                i += 1;
            }
            let fraction = i + 1 < bytes.len()
                && bytes[i] == b'.'
                && (bytes[i + 1] as char).is_ascii_digit();
            if fraction {
                i += 1;
                while i < bytes.len() && (bytes[i] as char).is_ascii_digit() {
                    i += 1;
                }
                let f: f64 = src[start..i].parse().unwrap();
                out.push(Token { lexeme: Lexeme::Real(f), start, end: i });
            } else {
                let n: i64 = src[start..i].parse().unwrap();
                out.push(Token { lexeme: Lexeme::Whole(n), start, end: i });
            }
            continue;
        }
        if c == '"' {
            i += 1;
            while bytes[i] != b'"' {
                i += 1;
            }
            i += 1;
            let text = src[start + 1..i - 1].to_string();
            out.push(Token { lexeme: Lexeme::Text(text), start, end: i });
            continue;
        }
        if src[i..].starts_with(">=") {
            i += 2;
            out.push(Token { lexeme: Lexeme::Sign(">="), start, end: i });
            continue;
        }
        match SIGNS.iter().find(|s| src[i..].starts_with(**s)) {
            Some(s) => {
                i += s.len();
                out.push(Token { lexeme: Lexeme::Sign(*s), start, end: i });
            }
            None => {
                assert!(c == '?', "unexpected character {:?}", c);
                i += 1;
                out.push(Token { lexeme: Lexeme::Sign("?"), start, end: i });
            }
        }
    }
    out.push(Token { lexeme: Lexeme::End, start: bytes.len(), end: bytes.len() });
    out
}

struct Reader {
    tokens: Vec<Token>,
    at: usize,
    /// Names of the declared classes, whose `impl` blocks are no trait instances.
    classes: Vec<String>,
    /// Set while a condition is read: a brace after a path opens a block.
    guarded: bool,
}

impl Reader {
    fn peek(&self) -> &Lexeme {
        &self.tokens[self.at].lexeme
    }

    fn peek_at(&self, n: usize) -> &Lexeme {
        let i = (self.at + n).min(self.tokens.len() - 1);
        &self.tokens[i].lexeme
    }

    fn start(&self) -> usize {
        self.tokens[self.at].start
    }

    fn node(&self, start: usize, expr: Expression) -> Output {
        let end = if self.at == 0 { 0 } else { self.tokens[self.at - 1].end };
        Output { span: Span { start, end: end.max(start) }, expr: Box::new(expr) }
    }

    fn sees(&self, sign: &str) -> bool {
        matches!(self.peek(), Lexeme::Sign(s) if *s == sign)
    }

    fn sees_at(&self, n: usize, sign: &str) -> bool {
        matches!(self.peek_at(n), Lexeme::Sign(s) if *s == sign)
    }

    fn sees_word(&self, word: &str) -> bool {
        matches!(self.peek(), Lexeme::Word(w) if w == word)
    }

    fn take(&mut self, sign: &str) -> bool {
        if self.sees(sign) {
            self.at += 1;
            true
        } else {
            false
        }
    }

    fn take_word(&mut self, word: &str) -> bool {
        if self.sees_word(word) {
            self.at += 1;
            true
        } else {
            false
        }
    }

    fn need(&mut self, sign: &str) {
        assert!(self.take(sign), "expected `{}`, found {:?}", sign, self.tokens[self.at]);
    }

    fn name(&mut self) -> String {
        match self.peek().clone() {
            Lexeme::Word(w) => {
                self.at += 1;
                w
            }
            other => panic!("expected a name, found {:?}", other),
        }
    }

    fn program(&mut self) -> Output {
        let start = self.start();
        let mut items = Vec::new();
        while *self.peek() != Lexeme::End {
            items.push(self.item());
        }
        self.node(start, Expression::Program(items))
    }

    fn item(&mut self) -> Output {
        let start = self.start();
        if self.sees("{") {
            return self.block();
        }
        let word = match self.peek().clone() {
            Lexeme::Word(w) => w,
            _ => String::new(),
        };
        match word.as_str() {
            "fn" | "async" => self.function(),
            "class" => self.class(),
            "impl" => self.implementation(),
            "enum" => self.enumeration(),
            "trait" => self.type_class(),
            "type" => self.alias(),
            "use" => self.import(),
            "extern" => self.foreign_struct(),
            "let" => {
                self.at += 1;
                let inner = self.start();
                let name = self.name();
                let ann = if self.take(":") { Some(self.ty()) } else { None };
                let mut parts = vec![self.node(inner, Expression::Variable(name, ann))];
                if self.take("=") {
                    parts.push(self.expr());
                }
                let fragment = self.node(start, Expression::Fragment(parts));
                self.need(";");
                self.node(start, Expression::Statement(fragment))
            }
            "const" => {
                self.at += 1;
                let inner = self.start();
                let name = self.name();
                let name = self.node(inner, Expression::Identifier(name));
                let ann = if self.take(":") { Some(self.ty()) } else { None };
                let mut parts = vec![self.node(inner, Expression::Constant(name, ann))];
                if self.take("=") {
                    parts.push(self.expr());
                }
                let fragment = self.node(start, Expression::Fragment(parts));
                self.need(";");
                self.node(start, Expression::Statement(fragment))
            }
            "if" => {
                let e = self.branches();
                self.take(";");
                e
            }
            "while" | "for" => {
                let e = self.looping();
                self.take(";");
                e
            }
            "return" => {
                self.at += 1;
                let e = self.expr();
                let e = self.node(start, Expression::Return(e));
                self.need(";");
                self.node(start, Expression::Statement(e))
            }
            "defer" => {
                self.at += 1;
                let e = self.block();
                self.take(";");
                self.node(start, Expression::Defer(e))
            }
            _ => {
                let e = self.expr();
                let open = matches!(*e.expr, Expression::Match { .. });
                let e = self.node(start, Expression::Expr(e));
                let e = self.node(start, Expression::ExprStatement(e));
                if !self.take(";") {
                    assert!(open, "expected `;`, found {:?}", self.tokens[self.at]);
                }
                self.node(start, Expression::Statement(e))
            }
        }
    }

    fn block(&mut self) -> Output {
        let start = self.start();
        self.need("{");
        let outer = self.guarded;
        self.guarded = false;
        let mut items = Vec::new();
        while !self.sees("}") {
            items.push(self.item());
        }
        self.need("}");
        self.guarded = outer;
        self.node(start, Expression::Block(items))
    }

    fn condition(&mut self) -> Output {
        let outer = self.guarded;
        self.guarded = true;
        let e = self.expr();
        self.guarded = outer;
        e
    }

    fn branches(&mut self) -> Output {
        let start = self.start();
        let mut parts = Vec::new();
        loop {
            let from = self.start();
            self.at += 1;
            let cond = self.condition();
            let body = self.block();
            parts.push(self.node(from, Expression::Branch(Some(cond), body)));
            if !self.take_word("else") {
                return self.node(start, Expression::If(parts));
            }
            if !self.sees_word("if") {
                let from = self.start();
                let body = self.block();
                parts.push(self.node(from, Expression::Branch(None, body)));
                return self.node(start, Expression::If(parts));
            }
        }
    }

    fn looping(&mut self) -> Output {
        let start = self.start();
        let identifier = if self.take_word("for") {
            let from = self.start();
            let n = self.name();
            let n = self.node(from, Expression::Identifier(n));
            assert!(self.take_word("in"));
            Some(n)
        } else {
            self.at += 1;
            None
        };
        let iterable = self.condition();
        let body = self.block();
        self.node(start, Expression::Loop { identifier, iterable, body })
    }

    fn kind(&mut self) -> Kind {
        let first = if self.take("*") {
            Kind::Type
        } else if self.take("(") {
            let k = self.kind();
            self.need(")");
            k
        } else {
            assert!(self.take_word("Constraint"));
            Kind::Constraint
        };
        if self.take("->") {
            let rest = self.kind();
            Kind::arrow(first, rest)
        } else {
            first
        }
    }

    fn type_params(&mut self, close: &str) -> Vec<TypeParam> {
        let mut params: Vec<TypeParam> = Vec::new();
        let mut kinded = false;
        while !self.take(close) {
            let name = self.name();
            if kinded && name.len() > 1 && !self.sees(":") {
                params.last_mut().unwrap().bounds.push(name);
                self.take(",");
                continue;
            }
            let mut param = TypeParam { name, kind: Kind::Type, bounds: Vec::new() };
            kinded = false;
            if self.take(":") {
                if self.sees("*") || self.sees("(") {
                    param.kind = self.kind();
                    kinded = true;
                } else {
                    param.bounds.push(self.name());
                    while self.take("+") {
                        param.bounds.push(self.name());
                    }
                }
            }
            params.push(param);
            self.take(",");
        }
        params
    }

    fn opt_type_params(&mut self) -> Vec<TypeParam> {
        if self.take("<") {
            self.type_params(">")
        } else {
            Vec::new()
        }
    }

    fn types(&mut self, close: &str) -> Vec<Output> {
        let mut out = Vec::new();
        while !self.take(close) {
            out.push(self.ty());
            self.take(",");
        }
        out
    }

    fn ty(&mut self) -> Output {
        let start = self.start();
        if self.take_word("forall") {
            let params = self.type_params(".");
            let ty = self.ty();
            return self.node(start, Expression::Forall { params, ty });
        }
        let first = self.base_ty();
        if self.take("->") {
            let rest = self.ty();
            return self.node(start, Expression::TypeFun(first, rest));
        }
        first
    }

    fn base_ty(&mut self) -> Output {
        let start = self.start();
        if self.take("[") {
            let mut items = vec![self.ty()];
            if self.take(";") {
                items.push(self.primary());
            }
            self.need("]");
            return self.node(start, Expression::Array(items));
        }
        if self.take("(") {
            let items = self.types(")");
            return self.node(start, Expression::Tuple(items));
        }
        let name = self.name();
        if self.take("::") {
            let member = self.name();
            let args = if self.take("<") { self.types(">") } else { Vec::new() };
            return self.node(
                start,
                Expression::TypeProjection { owner: name, name: member, args },
            );
        }
        if self.take("<") {
            let args = self.types(">");
            return self.node(start, Expression::TypeApp { name, args });
        }
        self.node(start, Expression::Type(name))
    }

    fn function(&mut self) -> Output {
        let start = self.start();
        let is_coro = self.take_word("async");
        assert!(self.take_word("fn"));
        let name = self.name();
        let type_params = self.opt_type_params();
        let from = self.start();
        self.need("(");
        let mut args = Vec::new();
        while !self.take(")") {
            let at = self.start();
            let ty = self.ty();
            let arg = self.name();
            args.push(self.node(at, Expression::Argument(ty, arg)));
            self.take(",");
        }
        let args = self.node(from, Expression::Fragment(args));
        let returns = if self.take("->") { Some(self.ty()) } else { None };
        let mut where_constraints = Vec::new();
        if self.take_word("where") {
            loop {
                let class = self.name();
                self.need("<");
                let args = self.types(">");
                where_constraints.push(WhereConstraint { class, args });
                if !self.take(",") {
                    break;
                }
            }
        }
        let body = if self.sees(";") {
            let at = self.start();
            self.need(";");
            self.node(at, Expression::Block(Vec::new()))
        } else {
            self.block()
        };
        self.node(
            start,
            Expression::Function {
                name,
                is_coro,
                type_params,
                args,
                returns,
                where_constraints,
                body,
            },
        )
    }

    fn class(&mut self) -> Output {
        let start = self.start();
        self.at += 1;
        let name = self.name();
        self.classes.push(name.clone());
        let type_params = self.opt_type_params();
        self.need("{");
        let mut fields = Vec::new();
        while !self.take("}") {
            let from = self.start();
            let vis = self.visibility();
            let at = self.start();
            let field = self.name();
            let field = self.node(at, Expression::Identifier(field));
            self.need(":");
            let ty = self.ty();
            fields.push(self.node(from, Expression::Field(vis, field, ty)));
            self.take(",");
        }
        self.node(start, Expression::Class { name, type_params, fields })
    }

    fn visibility(&mut self) -> Visibility {
        if self.take_word("pub") {
            Visibility::Public
        } else {
            Visibility::Private
        }
    }

    fn implementation(&mut self) -> Output {
        let start = self.start();
        self.at += 1;
        let name = self.name();
        let mut args = if self.take("<") { self.types(">") } else { Vec::new() };
        if self.take_word("for") {
            args.insert(0, self.ty());
        }
        self.need("{");
        if args.is_empty() || self.classes.contains(&name) {
            let mut type_params = Vec::new();
            for a in &args {
                if let Expression::Type(n) = &*a.expr {
                    type_params.push(TypeParam {
                        name: n.clone(),
                        kind: Kind::Type,
                        bounds: Vec::new(),
                    });
                }
            }
            let mut methods = Vec::new();
            while !self.take("}") {
                let from = self.start();
                let vis = self.visibility();
                let f = self.function();
                methods.push(self.node(from, Expression::Method(vis, f)));
            }
            return self.node(
                start,
                Expression::Implementation { owner: name, type_params, methods },
            );
        }
        let mut methods = Vec::new();
        while !self.take("}") {
            let from = self.start();
            if self.take_word("type") {
                let name = self.name();
                let type_params = self.opt_type_params();
                self.need("=");
                let ty = self.ty();
                self.need(";");
                methods.push(self.node(from, Expression::AssocTypeDef { name, type_params, ty }));
            } else {
                methods.push(self.function());
            }
        }
        self.node(start, Expression::TypeClassImpl { class: name, args, methods })
    }

    fn type_class(&mut self) -> Output {
        let start = self.start();
        self.at += 1;
        let name = self.name();
        let type_params = self.opt_type_params();
        self.need("{");
        let mut methods = Vec::new();
        while !self.take("}") {
            let from = self.start();
            if self.take_word("type") {
                let name = self.name();
                let type_params = self.opt_type_params();
                self.need(";");
                methods.push(self.node(from, Expression::AssocTypeDecl { name, type_params }));
            } else {
                methods.push(self.function());
            }
        }
        self.node(start, Expression::TypeClass { name, type_params, methods })
    }

    fn named_types(&mut self) -> Vec<FieldInit> {
        let mut fields = Vec::new();
        while !self.take("}") {
            let name = self.name();
            self.need(":");
            let value = self.ty();
            fields.push(FieldInit { name, value });
            self.take(",");
        }
        fields
    }

    fn enumeration(&mut self) -> Output {
        let start = self.start();
        self.at += 1;
        let name = self.name();
        let type_params = self.opt_type_params();
        self.need("{");
        let mut variants = Vec::new();
        while !self.take("}") {
            let from = self.start();
            let name = self.name();
            let payload = if self.take("(") {
                EnumVariantPayload::Tuple(self.types(")"))
            } else if self.take("{") {
                EnumVariantPayload::Record(self.named_types())
            } else {
                EnumVariantPayload::Unit
            };
            variants.push(self.node(from, Expression::EnumVariant { name, payload }));
            self.take(",");
        }
        self.node(start, Expression::EnumDecl { name, type_params, variants })
    }

    fn alias(&mut self) -> Output {
        let start = self.start();
        self.at += 1;
        let name = self.name();
        let type_params = self.opt_type_params();
        self.need("=");
        let ty = self.ty();
        self.need(";");
        self.node(start, Expression::TypeAlias { name, type_params, ty })
    }

    fn import(&mut self) -> Output {
        let start = self.start();
        self.at += 1;
        let mut path = Vec::new();
        let mut name = self.name();
        while self.take("::") {
            path.push(name);
            name = if self.take("*") { "*".to_string() } else { self.name() };
        }
        let alias = if self.take_word("as") { Some(self.name()) } else { None };
        self.need(";");
        self.node(start, Expression::Use { path, name, alias })
    }

    fn foreign_struct(&mut self) -> Output {
        let start = self.start();
        self.at += 2;
        let name = self.name();
        self.need("{");
        let fields = self.named_types();
        self.take(";");
        self.node(start, Expression::ForeignStruct(ForeignStruct { name, fields }))
    }

    fn expr(&mut self) -> Output {
        let start = self.start();
        let left = self.binary(0);
        if self.take("=") {
            let right = self.expr();
            return self.node(start, Expression::Assignment(left, right));
        }
        left
    }

    fn level(&self) -> Option<(usize, &'static str)> {
        match self.peek() {
            Lexeme::Sign(s) => match *s {
                "??" => Some((1, "??")),
                "||" => Some((2, "||")),
                "&&" => Some((3, "&&")),
                "|" => Some((4, "|")),
                "^" => Some((5, "^")),
                "&" => Some((6, "&")),
                "==" => Some((7, "==")),
                "!=" => Some((7, "!=")),
                "<" => Some((8, "<")),
                ">" => Some((8, ">")),
                "<=" => Some((8, "<=")),
                ">=" => Some((8, ">=")),
                "<<" => Some((9, "<<")),
                "+" => Some((10, "+")),
                "-" => Some((10, "-")),
                "*" => Some((11, "*")),
                "/" => Some((11, "/")),
                "%" => Some((11, "%")),
                "**" => Some((12, "**")),
                _ => None,
            },
            _ => None,
        }
    }

    fn binary(&mut self, floor: usize) -> Output {
        let start = self.start();
        let mut left = self.unary();
        while let Some((level, op)) = self.level() {
            if level <= floor {
                break;
            }
            self.at += 1;
            let r = self.binary(level);
            let l = left;
            let e = match op {
                "??" => Expression::Coalesce(l, r),
                "||" => Expression::Or(l, r),
                "&&" => Expression::And(l, r),
                "|" => Expression::BitOr(l, r),
                "^" => Expression::Xor(l, r),
                "&" => Expression::BitAnd(l, r),
                "==" => Expression::Eq(l, r),
                "!=" => Expression::Neq(l, r),
                "<" => Expression::Le(l, r),
                ">" => Expression::Gt(l, r),
                "<=" => Expression::Leq(l, r),
                ">=" => Expression::Geq(l, r),
                "<<" => Expression::Shl(l, r),
                "+" => Expression::Add(l, r),
                "-" => Expression::Sub(l, r),
                "*" => Expression::Mul(l, r),
                "/" => Expression::Div(l, r),
                "%" => Expression::Mod(l, r),
                _ => Expression::Pow(l, r),
            };
            left = self.node(start, e);
        }
        left
    }

    fn unary(&mut self) -> Output {
        let start = self.start();
        if self.take("-") {
            let e = self.unary();
            return self.node(start, Expression::Negate(e));
        }
        if self.take("+") {
            let e = self.unary();
            return self.node(start, Expression::Positive(e));
        }
        if self.take("~") {
            let e = self.unary();
            return self.node(start, Expression::Not(e));
        }
        if self.take("!") {
            let e = self.unary();
            return self.node(start, Expression::LogicalNot(e));
        }
        let mut e = self.primary();
        loop {
            if self.take("?.") {
                let field = self.name();
                e = self.node(start, Expression::OptionalAccess(e, field));
            } else if self.take(".") {
                let field = self.name();
                e = self.node(start, Expression::Access(e, field));
            } else if self.take("(") {
                let args = self.exprs(")");
                e = self.node(start, Expression::Call { name: e, args: Some(args) });
            } else if self.take("[") {
                let index = self.expr();
                self.need("]");
                e = self.node(start, Expression::Index(e, index));
            } else if self.take("?") {
                e = self.node(start, Expression::Try(e));
            } else if self.take("++") {
                e = self.node(
                    start,
                    Expression::Adjust { target: e, increment: true, prefix: false },
                );
            } else {
                return e;
            }
        }
    }

    fn exprs(&mut self, close: &str) -> Vec<Output> {
        let outer = self.guarded;
        self.guarded = false;
        let mut out = Vec::new();
        while !self.take(close) {
            out.push(self.expr());
            self.take(",");
        }
        self.guarded = outer;
        out
    }

    fn named_values(&mut self) -> Vec<FieldInit> {
        let outer = self.guarded;
        self.guarded = false;
        let mut fields = Vec::new();
        while !self.take("}") {
            let name = self.name();
            self.need(":");
            let value = self.expr();
            fields.push(FieldInit { name, value });
            self.take(",");
        }
        self.guarded = outer;
        fields
    }

    fn primary(&mut self) -> Output {
        let start = self.start();
        match self.peek().clone() {
            Lexeme::Whole(n) => {
                self.at += 1;
                self.node(start, Expression::Integer(n))
            }
            Lexeme::Real(f) => {
                self.at += 1;
                self.node(start, Expression::Float(f.to_bits()))
            }
            Lexeme::Text(s) => {
                self.at += 1;
                self.node(start, Expression::String(s))
            }
            Lexeme::Sign("(") => {
                self.at += 1;
                let outer = self.guarded;
                self.guarded = false;
                let mut items = Vec::new();
                let mut commas = 0usize;
                while !self.take(")") {
                    items.push(self.expr());
                    if self.take(",") {
                        commas += 1;
                    }
                }
                self.guarded = outer;
                if items.len() == 1 && commas == 0 {
                    let e = items.pop().unwrap();
                    return self.node(start, Expression::Group(e));
                }
                self.node(start, Expression::Tuple(items))
            }
            Lexeme::Sign("[") => {
                self.at += 1;
                let items = self.exprs("]");
                self.node(start, Expression::Array(items))
            }
            Lexeme::Sign("{") => {
                if matches!(self.peek_at(1), Lexeme::Word(_)) && self.sees_at(2, ":") {
                    self.at += 1;
                    let fields = self.named_values();
                    return self.node(start, Expression::Dict(fields));
                }
                self.block()
            }
            Lexeme::Word(w) => self.worded(start, &w),
            other => panic!("unexpected {:?} at {}", other, start),
        }
    }

    fn worded(&mut self, start: usize, word: &str) -> Output {
        match word {
            "true" | "false" => {
                self.at += 1;
                self.node(start, Expression::Bool(word == "true"))
            }
            "match" => self.matching(),
            "if" => self.branches(),
            "new" => {
                self.at += 1;
                let from = self.start();
                let name = self.name();
                let class = self.node(from, Expression::Type(name));
                self.need("(");
                let args = self.exprs(")");
                self.node(start, Expression::Instantiate(class, Some(args)))
            }
            "print" | "format" => {
                self.at += 1;
                let fmt = self.binary(0);
                let mut params = Vec::new();
                while self.take(",") {
                    params.push(self.binary(0));
                }
                let params = if params.is_empty() { None } else { Some(params) };
                if word == "print" {
                    self.node(start, Expression::Print(fmt, params))
                } else {
                    self.node(start, Expression::Format(fmt, params))
                }
            }
            "return" => {
                self.at += 1;
                let e = self.expr();
                self.node(start, Expression::Return(e))
            }
            "raise" => {
                self.at += 1;
                let e = self.expr();
                self.node(start, Expression::Raise(e))
            }
            "panic" => {
                self.at += 1;
                let e = self.expr();
                self.node(start, Expression::Panic(e))
            }
            "yield" => {
                self.at += 1;
                if self.take_word("from") {
                    let e = self.expr();
                    return self.node(start, Expression::YieldFrom(e));
                }
                let e = self.expr();
                self.node(start, Expression::Yield(e))
            }
            "resume" => {
                self.at += 1;
                let target = self.unary();
                let sent = if self.take_word("with") { Some(self.expr()) } else { None };
                self.node(start, Expression::Resume(target, sent))
            }
            "done" => {
                self.at += 1;
                self.need("(");
                let e = self.expr();
                self.need(")");
                self.node(start, Expression::Done(e))
            }
            _ => self.path(start),
        }
    }

    fn path(&mut self, start: usize) -> Output {
        let mut owner = self.name();
        if !self.take("::") {
            return self.node(start, Expression::Identifier(owner));
        }
        let mut variant = self.name();
        while self.take("::") {
            owner = format!("{}::{}", owner, variant);
            variant = self.name();
        }
        let fields = if self.take("(") {
            let args = self.exprs(")");
            if args.is_empty() {
                EnumConstructPayload::Unit
            } else {
                EnumConstructPayload::Tuple(args)
            }
        } else if self.sees("{") && !self.guarded {
            self.at += 1;
            EnumConstructPayload::Record(self.named_values())
        } else {
            EnumConstructPayload::Unit
        };
        self.node(
            start,
            Expression::Construct { enum_name: owner, variant_name: variant, fields },
        )
    }

    fn matching(&mut self) -> Output {
        let start = self.start();
        self.at += 1;
        let scrutinee = self.condition();
        self.need("{");
        let outer = self.guarded;
        self.guarded = false;
        let mut arms = Vec::new();
        while !self.take("}") {
            let pattern = self.pattern();
            self.need("=>");
            let body = self.expr();
            arms.push(MatchArm { pattern, body });
            self.take(",");
        }
        self.guarded = outer;
        self.node(start, Expression::Match { scrutinee, arms })
    }

    fn pattern(&mut self) -> Pattern {
        let name = self.name();
        if name == "_" {
            return Pattern::Wildcard;
        }
        if !self.take("::") {
            return Pattern::Binding { name };
        }
        let variant_name = self.name();
        let payload = if self.take("(") {
            let mut parts = Vec::new();
            while !self.take(")") {
                parts.push(self.pattern());
                self.take(",");
            }
            if parts.is_empty() {
                PatternPayload::Unit
            } else {
                PatternPayload::Tuple(parts)
            }
        } else if self.take("{") {
            let mut fields = Vec::new();
            while !self.take("}") {
                let name = self.name();
                let pattern = if self.take(":") {
                    self.pattern()
                } else {
                    Pattern::Binding { name: name.clone() }
                };
                fields.push(PatternField { name, pattern });
                self.take(",");
            }
            PatternPayload::Record(fields)
        } else {
            PatternPayload::Unit
        };
        Pattern::Constructor { enum_name: name, variant_name, payload }
    }
}

fn parse(src: &str) -> Output {
    let mut reader =
        Reader { tokens: tokens(src), at: 0, classes: Vec::new(), guarded: false };
    reader.program()
}

/// Read and check `src`, with a `;` added where it is missing.
fn check(src: &str) -> (Checker, Ty) {
    let mut c = Checker::new();
    let trimmed = src.trim();
    let needs_semi = !trimmed.ends_with(';') && !trimmed.ends_with('}');
    let owned: String = if needs_semi {
        format!("{};", trimmed)
    } else {
        trimmed.to_string()
    };
    let ast = parse(owned.as_str());
    let ty = c.check_program(&ast);
    (c, ty)
}

fn check_warn(src: &str) -> (Checker, Vec<Message>) {
    let (mut c, _ty) = check(src);
    let msgs = c.take_messages();
    (c, msgs)
}

fn assert_ok(src: &str, expected: Ty) {
    let (mut c, ty) = check(src);
    let msgs = c.take_messages();
    assert!(msgs.is_empty(), "expected no messages for `{}`, got: {:?}", src, msgs);
    assert_eq!(ty, expected, "type mismatch for `{}`", src);
}

fn assert_messages(src: &str) -> Vec<Message> {
    let (mut c, _) = check(src);
    c.take_messages()
}

/// The instances selected at each call.
fn dict_lists(c: &Checker) -> Vec<&[InstanceDef]> {
    c.id_table().ids().iter().filter_map(|id| c.call_dicts_at(*id)).collect()
}

fn cache_len(c: &Checker) -> usize {
    c.out.cache.len()
}

#[test]
fn integer_literal() {
    assert_ok("42", int_ty());
}

#[test]
fn float_literal() {
    assert_ok("3.14", float());
}

#[test]
fn string_literal() {
    assert_ok("\"hello\"", string());
}

#[test]
fn bool_literal() {
    assert_ok("true", boolean());
    assert_ok("false", boolean());
}

#[test]
fn unknown_identifier_errors() {
    let msgs = assert_messages("x;");
    assert_eq!(msgs.len(), 1);
}

#[test]
fn identifier_from_let_annotation() {
    let (mut c, _) = check("let x: int = 42;");
    assert!(c.take_messages().is_empty());
    let scheme = c.env().lookup("x").unwrap();
    let ty = apply_ty(c.subst(), &scheme.ty);
    assert_eq!(ty, int_ty());
}

#[test]
fn let_with_annotation() {
    assert_ok("let x: int = 42;", unit());
}

#[test]
fn let_without_annotation_infers_from_value() {
    let (mut c, _) = check("let x = 42;");
    assert!(c.take_messages().is_empty());
    let scheme = c.env().lookup("x").unwrap();
    let ty = apply_ty(c.subst(), &scheme.ty);
    assert_eq!(ty, int_ty());
}

#[test]
fn let_without_annotation_or_value_uses_fresh_var() {
    let (mut c, _) = check("let x;");
    assert!(c.take_messages().is_empty());
    let scheme = c.env().lookup("x").unwrap();
    assert!(
        matches!(scheme.ty, Ty::Var(_)),
        "expected a fresh type variable, got {:?}",
        scheme.ty
    );
}

#[test]
fn assignment_updates_existing_var() {
    let (mut c, _) = check("let x; x = 42;");
    assert!(c.take_messages().is_empty());
    let scheme = c.env().lookup("x").unwrap();
    let ty = apply_ty(c.subst(), &scheme.ty);
    assert_eq!(ty, int_ty());
}

#[test]
fn assignment_to_undeclared_var_errors() {
    let msgs = assert_messages("x = 42;");
    assert!(!msgs.is_empty());
}

#[test]
fn assignment_mismatch_errors_but_continues() {
    let msgs = assert_messages("let x: int; x = \"hello\";");
    assert!(!msgs.is_empty());
}

#[test]
fn addition_of_ints_is_int() {
    assert_ok("1 + 2", int_ty());
}

#[test]
fn addition_of_floats_is_float() {
    assert_ok("1.0 + 2.0", float());
}

#[test]
fn mixed_int_float_arithmetic_mismatches() {
    let msgs = assert_messages("1 + 2.0;");
    assert!(!msgs.is_empty());
}

#[test]
fn subtraction() {
    assert_ok("5 - 3", int_ty());
}

#[test]
fn multiplication() {
    assert_ok("4 * 5", int_ty());
}

#[test]
fn division() {
    assert_ok("10 / 2", int_ty());
}

#[test]
fn modulo() {
    assert_ok("10 % 3", int_ty());
}

#[test]
fn power() {
    assert_ok("2 ** 3", int_ty());
}

#[test]
fn shift_left() {
    assert_ok("1 << 2", int_ty());
}

#[test]
fn xor() {
    assert_ok("5 ^ 3", int_ty());
}

#[test]
fn bitand() {
    assert_ok("5 & 3", int_ty());
}

#[test]
fn bitor() {
    assert_ok("5 | 3", int_ty());
}

#[test]
fn equality_returns_bool() {
    assert_ok("1 == 1", boolean());
}

#[test]
fn inequality_returns_bool() {
    assert_ok("1 != 2", boolean());
}

#[test]
fn less_than() {
    assert_ok("1 < 2", boolean());
}

#[test]
fn greater_than() {
    assert_ok("2 > 1", boolean());
}

#[test]
fn less_equal() {
    assert_ok("1 <= 1", boolean());
}

#[test]
fn greater_equal() {
    assert_ok("2 >= 2", boolean());
}

#[test]
fn logical_and_of_bools_is_bool() {
    assert_ok("true && false", boolean());
}

#[test]
fn logical_or_of_bools_is_bool() {
    assert_ok("true || false", boolean());
}

#[test]
fn logical_and_requires_bool() {
    let msgs = assert_messages("1 && 2;");
    assert!(!msgs.is_empty());
}

#[test]
fn negate_int() {
    assert_ok("-42", int_ty());
}

#[test]
fn positive_int() {
    assert_ok("+42", int_ty());
}

#[test]
fn bitwise_not_int() {
    assert_ok("~7", int_ty());
}

#[test]
fn logical_not_bool() {
    assert_ok("!true", boolean());
    assert_ok("!false", boolean());
}

#[test]
fn logical_not_int() {
    assert_ok("!0", boolean());
    assert_ok("!42", boolean());
}

#[test]
fn logical_not_rejects_float() {
    let msgs = assert_messages("!1.0;");
    assert!(!msgs.is_empty());
}

#[test]
fn inc_dec() {
    let (mut c, _) = check("let x: int = 0; x++;");
    assert!(c.take_messages().is_empty());
}

#[test]
fn call_unknown_function_errors() {
    let msgs = assert_messages("foo();");
    assert!(!msgs.is_empty());
}

#[test]
fn call_to_unregistered_print_does_not_error() {
    let (mut c, ty) = check("print \"hello\";");
    assert!(c.take_messages().is_empty());
    assert_eq!(ty, unit());
}

#[test]
fn if_single_branch() {
    assert_ok("if true { 42; }", int_ty());
}

#[test]
fn if_with_non_bool_condition_errors() {
    let msgs = assert_messages("if 42 { 1; }");
    assert!(!msgs.is_empty());
}

#[test]
fn while_loop_returns_unit() {
    assert_ok("while false { 42; }", unit());
}

#[test]
fn while_with_non_bool_condition_errors() {
    let msgs = assert_messages("while 42 { 1; }");
    assert!(!msgs.is_empty());
}

#[test]
fn return_inside_expression() {
    assert_ok("return 42", int_ty());
}

#[test]
fn empty_block() {
    assert_ok("{}", unit());
}

#[test]
fn block_last_value_is_block_type() {
    assert_ok("{ 1; 2; 3; }", int_ty());
}

#[test]
fn print_with_string_format_ok() {
    assert_ok("print \"hello\";", unit());
}

#[test]
fn defer_returns_unit() {
    assert_ok("defer { 42; }", unit());
}

#[test]
fn nested_arithmetic() {
    assert_ok("(1 + 2) * 3", int_ty());
}

#[test]
fn block_with_multiple_lets() {
    let src = "let x: int = 10; let y: int = 20; x + y";
    assert_ok(src, int_ty());
}

#[test]
fn function_declaration_with_typed_args_and_return() {
    let (mut c, _) = check("fn add(int a, int b) -> int { return a + b; }");
    assert!(c.take_messages().is_empty());
    let scheme = c.env().lookup("add").unwrap();
    let ty = apply_ty(c.subst(), &scheme.ty);
    assert_eq!(
        ty,
        Ty::Fun(
            Box::new(int_ty()),
            Box::new(Ty::Fun(Box::new(int_ty()), Box::new(int_ty())))
        )
    );
}

#[test]
fn function_declaration_with_inferred_return() {
    let (mut c, _) = check("fn add(int a, int b) { return a + b; }");
    assert!(c.take_messages().is_empty());
    let scheme = c.env().lookup("add").unwrap();
    let ty = apply_ty(c.subst(), &scheme.ty);
    assert!(matches!(ty, Ty::Fun(_, _)));
}

#[test]
fn forall_annotation_pretty_or_ty_forall() {
    let (mut c, _) = check("fn app(forall T: Num. T -> T f, int x) -> int { return x; }");
    assert!(c.take_messages().is_empty());
    let scheme = c.env().lookup("app").expect("app should be registered");
    let ty = apply_ty(c.subst(), &scheme.ty);
    let Ty::Fun(param, _) = ty else {
        panic!("expected function type, got {:?}", ty);
    };
    let Ty::Forall {
        bounds,
        constraints,
        body,
    } = param.as_ref()
    else {
        panic!("expected forall parameter, got {:?}", param);
    };
    assert_eq!(bounds.len(), 1);
    assert_eq!(constraints.len(), 1);
    assert_eq!(constraints[0].class, "Num");
    assert!(constraints[0].is_unary_on(bounds[0]));
    assert!(matches!(body.as_ref(), Ty::Fun(_, _)));
    assert!(ty_text(&param).starts_with("forall t"));
}

#[test]
fn rank_n_param_accepts_polymorphic_id() {
    let src = r#"
        fn id<T>(T x) -> T { return x; }
        fn app(forall T. T -> T f, int x) -> int { return f(x); }
        fn main() { print "%i", app(id, 1); }
    "#;
    let (mut c, _) = check(src);
    let msgs = c.take_messages();
    assert!(msgs.is_empty(), "expected no messages, got: {msgs:?}");
}

#[test]
fn rank_n_rejects_escaping_skolem() {
    let src = r#"
        fn inc(int x) -> int { return x; }
        fn app(forall T. T -> T f, int x) -> int { return f(x); }
        fn main() { print "%i", app(inc, 1); }
    "#;
    let msgs = assert_messages(src);
    assert!(
        msgs.iter()
            .any(|m| m.code() == ErrorCode::TypeMismatch),
        "expected rank-n type mismatch, got: {msgs:?}"
    );
}

#[test]
fn function_arity_mismatch_errors() {
    let msgs = assert_messages("fn fib(int n) -> int { return n; } fib(1, 2);");
    assert!(!msgs.is_empty());
}

#[test]
fn function_return_mismatch_errors() {
    let msgs = assert_messages("fn broken() -> int { return \"oops\"; }");
    assert!(!msgs.is_empty());
}

#[test]
fn function_undefined_errors() {
    let msgs = assert_messages("fn main() { nope(); }");
    assert!(!msgs.is_empty());
}

#[test]
fn recursive_fib() {
    let src = "fn fib(int n) -> int { if n == 1 { return 1; } if n == 2 { return 1; } return fib(n - 1) + fib(n - 2); }";
    let (mut c, _) = check(src);
    assert!(
        c.take_messages().is_empty(),
        "expected no messages, got: {:?}",
        c.messages()
    );
    let scheme = c.env().lookup("fib").unwrap();
    let ty = apply_ty(c.subst(), &scheme.ty);
    assert_eq!(ty, Ty::Fun(Box::new(int_ty()), Box::new(int_ty())));
}

#[test]
fn class_registers_nominal_constructor() {
    let (mut c, _) = check("class Foo { name: String, }");
    let msgs = c.take_messages();
    assert!(msgs.is_empty(), "{:?}", msgs);
    let class = c.reg.classes.get("Foo").expect("class not registered");
    assert_eq!(class.len(), 1);
    assert_eq!(class[0].vis, Visibility::Private);
    assert_eq!(class[0].name, "name");
    assert_eq!(class[0].ty, string());
}

#[test]
fn class_with_pub_field_marks_visibility() {
    let (mut c, _) = check("class Foo { pub age: int, name: String, }");
    let msgs = c.take_messages();
    assert!(msgs.is_empty(), "{:?}", msgs);
    let class = c.reg.classes.get("Foo").unwrap();
    assert_eq!(class[0].vis, Visibility::Public);
    assert_eq!(class[0].name, "age");
    assert_eq!(class[1].vis, Visibility::Private);
    assert_eq!(class[1].name, "name");
}

#[test]
fn class_with_all_private_fields() {
    let (mut c, _) = check("class Foo { x: int, y: int, }");
    let msgs = c.take_messages();
    assert!(msgs.is_empty(), "{:?}", msgs);
    let class = c.reg.classes.get("Foo").unwrap();
    assert!(class.iter().all(|f| f.vis == Visibility::Private));
}

#[test]
fn class_visibility_is_per_field() {
    let (mut c, _) = check("class Foo { pub a: int, b: int, pub c: int, }");
    let msgs = c.take_messages();
    assert!(msgs.is_empty(), "{:?}", msgs);
    let fields = &c.reg.classes.get("Foo").unwrap();
    assert_eq!(fields[0].vis, Visibility::Public);
    assert_eq!(fields[1].vis, Visibility::Private);
    assert_eq!(fields[2].vis, Visibility::Public);
}

#[test]
fn class_visibility_recorded_for_future_member_access() {
    let (mut c, _) = check("class Foo { pub age: int, name: String, }");
    let msgs = c.take_messages();
    assert!(msgs.is_empty(), "{:?}", msgs);
    let foo = c.reg.classes.get("Foo").unwrap();
    assert_eq!(foo[0].vis, Visibility::Public);
    assert_eq!(foo[1].vis, Visibility::Private);
}

#[test]
fn impl_binds_self_to_owner() {
    let src = "class Foo { } impl Foo { fn id() -> Foo { return new Foo(); } }";
    let (mut c, _) = check(src);
    let msgs = c.take_messages();
    assert!(msgs.is_empty(), "{:?}", msgs);
    let methods = c.reg.methods.get("Foo").expect("methods not registered");
    let scheme = &methods.get("id").unwrap().scheme;
    let ty = apply_ty(c.subst(), &scheme.ty);
    assert_eq!(
        ty,
        Ty::Fun(
            Box::new(Ty::Con("Foo".into())),
            Box::new(Ty::Con("Foo".into()))
        )
    );
}

#[test]
fn impl_method_with_args_prepends_self() {
    let src = "impl Foo { fn method(int x) -> int { return x; } }";
    let (mut c, _) = check(src);
    let msgs = c.take_messages();
    assert!(msgs.is_empty(), "{:?}", msgs);
    let methods = c.reg.methods.get("Foo").unwrap();
    let scheme = &methods.get("method").unwrap().scheme;
    let ty = apply_ty(c.subst(), &scheme.ty);
    assert_eq!(
        ty,
        Ty::Fun(
            Box::new(Ty::Con("Foo".into())),
            Box::new(Ty::Fun(Box::new(int_ty()), Box::new(int_ty())))
        )
    );
}

#[test]
fn impl_method_visibility_default_is_private() {
    let src = "impl Foo { fn hidden() -> int { return 0; } }";
    let (mut c, _) = check(src);
    let msgs = c.take_messages();
    assert!(msgs.is_empty(), "{:?}", msgs);
    let methods = c.reg.methods.get("Foo").unwrap();
    let vis = &methods.get("hidden").unwrap().vis;
    assert_eq!(*vis, Visibility::Private);
}

#[test]
fn impl_pub_method_marks_visibility() {
    let src = "impl Foo { pub fn visible() -> int { return 0; } }";
    let (mut c, _) = check(src);
    let msgs = c.take_messages();
    assert!(msgs.is_empty(), "{:?}", msgs);
    let methods = c.reg.methods.get("Foo").unwrap();
    let vis = &methods.get("visible").unwrap().vis;
    assert_eq!(*vis, Visibility::Public);
}

#[test]
fn instantiate_returns_class_type() {
    let src = r#"class Foo { name: string, } let x = new Foo("hi"); x"#;
    let (mut c, ty) = check(src);
    let msgs = c.take_messages();
    assert!(msgs.is_empty(), "{:?}", msgs);
    assert_eq!(ty, Ty::Con("Foo".into()));
}

#[test]
fn class_impl_and_instantiate_combined() {
    let src = r#"
        class Foo { name: string, }
        impl Foo { fn sadge() -> int { return 42; } }
        fn main() { let x = new Foo("hi"); }
    "#;
    let (mut c, _) = check(src);
    let msgs = c.take_messages();
    assert!(msgs.is_empty(), "{:?}", msgs);
    assert!(c.reg.classes.contains_key("Foo"));
    assert!(c.reg.methods.get("Foo").unwrap().contains_key("sadge"));
}

#[test]
fn class_method_call_typechecks() {
    let src = "\
        class Point { x: int, y: int, } \
        impl Point { fn sum() -> int { return self.x + self.y; } } \
        fn main() { let p = new Point(1, 3); p.sum(); }";
    let (mut c, _) = check(src);
    let msgs = c.take_messages();
    assert!(msgs.is_empty(), "{:?}", msgs);
}

#[test]
fn generic_class_new_infers_cell_int() {
    let src = "\
        class Cell<T> { value: T }
        fn main() { let c = new Cell(42); }";
    let (mut c, _) = check(src);
    let msgs = c.take_messages();
    assert!(msgs.is_empty(), "{:?}", msgs);
    let c_ty = c.codegen_var_type("c").expect("c should be recorded");
    assert_eq!(
        apply_ty(c.subst(), c_ty),
        Ty::App(Box::new(Ty::Con("Cell".into())), vec![int_ty()])
    );
}

#[test]
fn generic_class_method_get_returns_int() {
    let src = "\
        class Cell<T> { value: T }
        impl Cell<T> {
            fn get() -> T { return self.value; }
        }
        fn main() {
            let c = new Cell(42);
            let v = c.get();
        }";
    let (mut c, _) = check(src);
    let msgs = c.take_messages();
    assert!(msgs.is_empty(), "{:?}", msgs);
    assert_eq!(
        c.codegen_var_type("v")
            .map(|t| apply_ty(c.subst(), t)),
        Some(int_ty())
    );
}

#[test]
fn generic_class_fields_stored_as_param_placeholders() {
    let (mut c, _) = check("class Cell<T> { value: T }");
    let msgs = c.take_messages();
    assert!(msgs.is_empty(), "{:?}", msgs);
    let fields = c.reg.classes.get("Cell").expect("Cell registered");
    assert_eq!(fields.len(), 1);
    assert_eq!(fields[0].name, "value");
    assert_eq!(fields[0].ty, Ty::Con("T".into()));
}

#[test]
fn class_unknown_field_errors() {
    let src = "\
        class Point { x: int, } \
        fn main() { let p = new Point(1); p.z; }";
    let (mut c, _) = check(src);
    let msgs = c.take_messages();
    assert!(
        msgs.iter().any(|m| m.message().contains("field")),
        "expected unknown-field diagnostic, got {:?}",
        msgs.iter().map(|m| m.message()).collect::<Vec<_>>()
    );
}

#[test]
fn class_ctor_arity_mismatch_errors() {
    let src = "\
        class Point { x: int, y: int, } \
        fn main() { let p = new Point(1); }";
    let (mut c, _) = check(src);
    let msgs = c.take_messages();
    assert!(!msgs.is_empty(), "expected ctor arity diagnostic");
}

#[test]
fn recursive_method_via_self_binding() {
    let src = "impl Counter { fn tick(int n) -> int { if n == 0 { return 0; } return tick(n - 1) + 1; } }";
    let (mut c, _) = check(src);
    let _ = c.take_messages();
    assert!(c.reg.methods.get("Counter").unwrap().contains_key("tick"));
}

#[test]
fn nested_blocks_return_inner() {
    assert_ok("{ { 42; } }", int_ty());
}

#[test]
fn register_native_adds_function_to_env() {
    let mut c = Checker::new();
    c.register_native("add", &vec![int_ty(), int_ty()], &int_ty());
    let scheme = c.env().lookup("add").expect("add not registered");
    let ty = apply_ty(c.subst(), &scheme.ty);
    assert_eq!(
        ty,
        Ty::Fun(
            Box::new(int_ty()),
            Box::new(Ty::Fun(Box::new(int_ty()), Box::new(int_ty())))
        )
    );
}

#[test]
fn register_native_no_args() {
    let mut c = Checker::new();
    c.register_native("now", &vec![], &int_ty());
    let scheme = c.env().lookup("now").expect("now not registered");
    let ty = apply_ty(c.subst(), &scheme.ty);
    assert_eq!(ty, int_ty());
}

#[test]
fn register_native_void_return() {
    let mut c = Checker::new();
    c.register_native("print", &vec![string()], &unit());
    let scheme = c.env().lookup("print").expect("print not registered");
    let ty = apply_ty(c.subst(), &scheme.ty);
    assert_eq!(ty, Ty::Fun(Box::new(string()), Box::new(unit())));
}

#[test]
fn register_native_object_type() {
    let mut c = Checker::new();
    c.register_native("make_foo", &vec![], &Ty::Con("Foo".into()));
    let scheme = c.env().lookup("make_foo").expect("make_foo not registered");
    let ty = apply_ty(c.subst(), &scheme.ty);
    assert_eq!(ty, Ty::Con("Foo".into()));
}

#[test]
fn native_function_call_infers_correctly() {
    let mut c = Checker::new();
    c.register_native("print", &vec![string()], &unit());
    let ast = parse("print \"hi\";");
    let ty = c.check_program(&ast);
    let msgs = c.take_messages();
    assert!(msgs.is_empty(), "{:?}", msgs);
    assert_eq!(ty, unit());
}

#[test]
fn native_function_arity_mismatch_errors() {
    let mut c = Checker::new();
    c.register_native("print", &vec![string()], &unit());
    let ast = parse("print(\"a\", \"b\");");
    let _ = c.check_program(&ast);
    let msgs = c.take_messages();
    assert!(!msgs.is_empty(), "expected arity-mismatch error");
}

#[test]
fn native_function_call_with_correct_arity_succeeds() {
    let mut c = Checker::new();
    c.register_native("add", &vec![int_ty(), int_ty()], &int_ty());
    let ast = parse("add(1, 2);");
    let _ = c.check_program(&ast);
    let msgs = c.take_messages();
    assert!(msgs.is_empty(), "{:?}", msgs);
}

#[test]
fn native_visible_inside_nested_block() {
    let mut c = Checker::new();
    c.register_native("print", &vec![string()], &unit());
    let ast = parse("{ print \"a\"; }");
    let _ = c.check_program(&ast);
    let msgs = c.take_messages();
    assert!(msgs.is_empty(), "{:?}", msgs);
}

#[test]
fn unknown_identifier_message_uses_can_not_find_format() {
    let (mut c, _) = check("unknown_var;");
    let msgs = c.take_messages();
    assert_eq!(msgs.len(), 1);
    let msg = &msgs[0];
    assert!(
        msg.message().contains("Cannot find value"),
        "got: {:?}",
        msg.message()
    );
    assert!(
        msg.message().contains("unknown_var"),
        "got: {:?}",
        msg.message()
    );
    let r = msg.range();
    assert!(r.start <= r.end, "bad range {:?}", r);
    assert!(r.end > 0, "expected non-empty range");
}

#[test]
fn type_mismatch_message_uses_expected_actual_format() {
    let (mut c, _) = check("let x: int = \"hello\";");
    let msgs = c.take_messages();
    assert!(!msgs.is_empty(), "expected at least one message");
    let msg = msgs.iter().find(|m| m.message().contains("Type mismatch"));
    assert!(
        msg.is_some(),
        "no type-mismatch message found in {:?}",
        msgs
    );
    let msg = msg.unwrap();
    assert!(
        msg.message().contains("expected"),
        "got: {:?}",
        msg.message()
    );
    assert!(msg.message().contains("found"), "got: {:?}", msg.message());
    assert!(msg.message().contains("int"), "got: {:?}", msg.message());
    assert!(msg.message().contains("string"), "got: {:?}", msg.message());
    assert!(msg.help().is_some(), "missing help");
    let help = msg.help().unwrap();
    assert!(help.contains("let binding"), "got help: {:?}", help);
}

#[test]
fn infinite_type_message_uses_clear_format() {
    let (mut c, _) = check("fn bad() { return bad; }");
    let msgs = c.take_messages();
    if let Some(infinite) = msgs
        .iter()
        .find(|m| m.message().contains("Cannot construct infinite type"))
    {
        assert!(
            infinite.help().is_some(),
            "missing help on occurs-check message"
        );
    }
}

#[test]
fn not_a_function_message_uses_cannot_call_format() {
    let (mut c, _) = check("let x = 5; x(2);");
    let msgs = c.take_messages();
    assert!(!msgs.is_empty(), "expected a message");
    let msg = msgs.iter().find(|m| {
        m.message().contains("Cannot call value") || m.message().contains("too many arguments")
    });
    assert!(msg.is_some(), "got: {:?}", msgs);
}

#[test]
fn unknown_function_message_uses_can_not_find_format() {
    let (mut c, _) = check("missing_fn();");
    let msgs = c.take_messages();
    assert!(!msgs.is_empty(), "expected a message");
    let msg = msgs
        .iter()
        .find(|m| m.message().contains("Cannot find function"));
    assert!(msg.is_some(), "got: {:?}", msgs);
    let msg = msg.unwrap();
    assert!(
        msg.message().contains("`missing_fn`"),
        "got: {:?}",
        msg.message()
    );
}

#[test]
fn assignment_to_undeclared_message_includes_help_hint() {
    let (mut c, _) = check("undeclared = 1;");
    let msgs = c.take_messages();
    assert!(!msgs.is_empty(), "expected a message");
    let msg = msgs
        .iter()
        .find(|m| m.message().contains("Cannot assign to undeclared"));
    assert!(msg.is_some(), "got: {:?}", msgs);
    let msg = msg.unwrap();
    let help = msg.help().expect("missing help");
    assert!(
        help.contains("let undeclared"),
        "help should suggest `let undeclared;`, got: {:?}",
        help
    );
}

#[test]
fn assignment_to_const_emits_immutability_diagnostic() {
    let (mut c, _) = check("const x = 1; x = 2;");
    let msgs = c.take_messages();
    let msg = msgs
        .iter()
        .find(|m| m.message().contains("Cannot assign to constant `x`"));
    assert!(msg.is_some(), "got: {:?}", msgs);
    assert!(msg.unwrap().help().is_some(), "missing help");
}

#[test]
fn arity_mismatch_message_mentions_function_name() {
    let mut c = Checker::new();
    c.register_native("foo", &vec![int_ty()], &int_ty());
    let ast = parse("foo(1, 2);");
    let _ = c.check_program(&ast);
    let msgs = c.take_messages();
    assert!(!msgs.is_empty(), "expected a message");
    let msg = msgs
        .iter()
        .find(|m| m.message().contains("too many arguments"));
    assert!(msg.is_some(), "got: {:?}", msgs);
    let msg = msg.unwrap();
    assert!(msg.message().contains("`foo`"), "got: {:?}", msg.message());
}

#[test]
fn diagnostic_messages_have_valid_ranges() {
    for src in &["x;", "1 + true", "let y: int = 1; y = \"z\";"] {
        let (mut c, _) = check(src);
        let src_len = src.len();
        for msg in c.take_messages() {
            let r = msg.range();
            assert!(
                r.start <= r.end && r.end <= src_len,
                "bad range {:?} for source len {} (msg: {})",
                r,
                src_len,
                msg.message()
            );
        }
    }
}

#[test]
fn pattern_error_span_points_at_arm_body() {
    let src = "let x = Option::Some(1); match x { Option::Some(a, b) => 0 };";
    let (mut c, _) = check(src);
    let src_len = src.len();
    let msgs = c.take_messages();
    assert!(
        !msgs.is_empty(),
        "expected at least one diagnostic for `{}`",
        src
    );
    let arity_msg = msgs
        .iter()
        .find(|m| m.message().contains("expects"))
        .expect("expected a wrong-arity pattern diagnostic");
    let r = arity_msg.range();
    assert!(
        r.start > 0,
        "pattern diagnostic anchored at byte 0 -- `0..0` regression: \
         range={:?} msg={:?} src={:?}",
        r,
        arity_msg.message(),
        src
    );
    assert!(
        r.end <= src_len,
        "pattern diagnostic range {:?} exceeds source length {}",
        r,
        src_len
    );
}

#[test]
fn multiple_natives_coexist() {
    let mut c = Checker::new();
    c.register_native("print", &vec![string()], &unit());
    c.register_native("add", &vec![int_ty(), int_ty()], &int_ty());
    c.register_native("now", &vec![], &string());

    let print_ty = apply_ty(c.subst(), &c.env().lookup("print").unwrap().ty);
    let add_ty = apply_ty(c.subst(), &c.env().lookup("add").unwrap().ty);
    let now_ty = apply_ty(c.subst(), &c.env().lookup("now").unwrap().ty);

    assert_eq!(print_ty, Ty::Fun(Box::new(string()), Box::new(unit())));
    assert_eq!(
        add_ty,
        Ty::Fun(
            Box::new(int_ty()),
            Box::new(Ty::Fun(Box::new(int_ty()), Box::new(int_ty())))
        )
    );
    assert_eq!(now_ty, string());
}

#[test]
fn cache_is_populated_after_check_program() {
    let (mut c, _) = check("1 + 2;");
    let msgs = c.take_messages();
    assert!(msgs.is_empty(), "{:?}", msgs);
    let total = c.id_table().len();
    assert!(total > 0);
    assert_eq!(cache_len(&c), total);
}

#[test]
fn cache_lookup_returns_inferred_type() {
    let (c, _) = check("1 + 2;");
    let ids = c.id_table().ids();
    for id in ids {
        let ty = c
            .lookup_at(*id)
            .unwrap_or_else(|| panic!("no cache entry for {:?}", id));
        assert_eq!(ty, int_ty(), "node {:?} had type {:?}", id, ty);
    }
}

#[test]
fn cache_lookup_applies_substitution() {
    let (mut c, _) = check("let x = 42; x");
    let msgs = c.take_messages();
    assert!(msgs.is_empty(), "{:?}", msgs);
    let scheme = c.env().lookup("x").expect("x not bound").clone();
    let resolved = apply_ty(c.subst(), &scheme.ty);
    assert_eq!(resolved, int_ty());
}

#[test]
fn cache_lookup_returns_none_for_unknown_id() {
    let (c, _) = check("42;");
    assert!(c.lookup_at(NodeId(9999)).is_none());
}

#[test]
fn pre_walk_mints_distinct_ids_for_nodes_sharing_a_span() {
    let (mut c, _) = check("42;");
    let msgs = c.take_messages();
    assert!(msgs.is_empty(), "{:?}", msgs);
    let ids = c.id_table().ids();
    let unique: std::collections::HashSet<_> = ids.iter().copied().collect();
    assert_eq!(unique.len(), ids.len(), "IDs must be unique per AST node");
    assert!(ids.len() >= 3);
}

#[test]
fn pre_walk_is_deterministic() {
    let (mut c1, _) = check("let a = 1; let b = 2; a + b");
    let (mut c2, _) = check("let a = 1; let b = 2; a + b");
    let msgs1 = c1.take_messages();
    let msgs2 = c2.take_messages();
    assert!(msgs1.is_empty(), "{:?}", msgs1);
    assert!(msgs2.is_empty(), "{:?}", msgs2);
    assert_eq!(c1.id_table().len(), c2.id_table().len());
    assert_eq!(c1.id_table().ids(), c2.id_table().ids());
}

#[test]
fn cache_has_entries_for_value_producing_nodes() {
    for src in &["42;", "1 + 2;", "let x = 1; x", "if true { 42; }"] {
        let (mut c, _) = check(src);
        let msgs = c.take_messages();
        assert!(msgs.is_empty(), "{:?} for `{}`", msgs, src);
        assert!(
            cache_len(&c) <= c.id_table().len(),
            "cache ({}) larger than pre-walk ({}) for `{}`",
            cache_len(&c),
            c.id_table().len(),
            src
        );
        assert!(cache_len(&c) > 0, "empty cache for `{}`", src);
    }
}

#[test]
fn unknown_call_argument_types_dont_crash() {
    let msgs = assert_messages("foo(1, 2, 3);");
    assert!(!msgs.is_empty());
}

#[test]
fn enum_decl_registers_sum_type() {
    let (mut c, _) = check("enum E { A, B }");
    let msgs = c.take_messages();
    assert!(msgs.is_empty(), "{:?}", msgs);
    assert!(c.reg.enums.contains_key("E"));
    let variants = c.reg.enums.get("E").unwrap();
    assert_eq!(variants, &vec!["A".to_string(), "B".to_string()]);
}

#[test]
fn enum_with_payload_registers_constructor() {
    let (mut c, _) = check("enum Box { Empty, Full(int) }");
    let msgs = c.take_messages();
    assert!(msgs.is_empty(), "{:?}", msgs);
    let scheme = c.env().lookup("Box::Full").expect("not bound");
    let ty = apply_ty(c.subst(), &scheme.ty);
    assert_eq!(
        ty,
        Ty::Fun(
            Box::new(int_ty()),
            Box::new(Ty::Constructor {
                owner: Box::new(Ty::Sum {
                    name: "Box".into(),
                    variants: vec![
                        ("Empty".into(), EnumVariantPayloadTy::Unit),
                        ("Full".into(), EnumVariantPayloadTy::Tuple(vec![int_ty()])),
                    ],
                }),
                tag: 1,
                arity: 1,
            }),
        )
    );
}

#[test]
fn enum_tags_assigned_in_declaration_order() {
    let (mut c, _) = check("enum E { Z, A, M, B }");
    let msgs = c.take_messages();
    assert!(msgs.is_empty(), "{:?}", msgs);
    assert_eq!(c.tag_for("E", "Z"), Some(0));
    assert_eq!(c.tag_for("E", "A"), Some(1));
    assert_eq!(c.tag_for("E", "M"), Some(2));
    assert_eq!(c.tag_for("E", "B"), Some(3));
}

#[test]
fn recursive_enum_typechecks() {
    let (mut c, _) = check("enum Tree { Leaf, Node(int, Tree, Tree) }");
    let msgs = c.take_messages();
    assert!(msgs.is_empty(), "{:?}", msgs);
    let variants = c.enum_variants("Tree").expect("Tree not registered");
    let node_payload = variants
        .iter()
        .find(|(n, _, _)| n == "Node")
        .unwrap()
        .2
        .clone();
    assert_eq!(
        node_payload,
        vec![int_ty(), Ty::Con("Tree".into()), Ty::Con("Tree".into())]
    );
}

#[test]
fn duplicate_enum_is_error() {
    let msgs = assert_messages("enum A { X } enum A { Y }");
    assert!(
        msgs.iter().any(|m| m.message().contains("Duplicate enum")),
        "expected duplicate-enum error, got: {:?}",
        msgs
    );
}

#[test]
fn duplicate_constructor_is_error() {
    let msgs = assert_messages("enum A { Foo } enum B { Foo }");
    assert!(
        msgs.iter()
            .any(|m| m.message().contains("Duplicate constructor")),
        "expected duplicate-constructor error, got: {:?}",
        msgs
    );
}

#[test]
fn enum_decl_cache_aligned_with_id_table() {
    for src in &[
        "enum Color { Red, Green(int) }",
        "enum E { A, B, C }",
        "enum Tree { Leaf, Node(int, Tree, Tree) }",
    ] {
        let (mut c, _) = check(src);
        let msgs = c.take_messages();
        assert!(msgs.is_empty(), "{:?} for `{}`", msgs, src);
        assert_eq!(
            cache_len(&c),
            c.id_table().len(),
            "cache ({}) and id_table ({}) out of sync for `{}` \
             -- `infer_enum_decl` is not consuming every pre-walked ID",
            cache_len(&c),
            c.id_table().len(),
            src,
        );
        for id in c.id_table().ids() {
            assert!(
                c.lookup_at(*id).is_some(),
                "pre-walked ID {:?} has no cache entry for `{}`",
                id,
                src,
            );
        }
    }
}

#[test]
fn constructor_call_with_wrong_arity_is_error() {
    let src = "Option::Some(1, 2)";
    let msgs = assert_messages(src);
    assert!(
        msgs.iter()
            .any(|m| m.message().contains("expects 1 arguments")),
        "expected arity error, got: {:?}",
        msgs
    );
}

#[test]
fn constructor_call_with_correct_arity_typechecks() {
    let src = "Option::Some(42)";
    let (mut c, _) = check(src);
    let msgs = c.take_messages();
    assert!(msgs.is_empty(), "{:?}", msgs);
    let ids = c.id_table().ids();
    let found = ids.iter().find_map(|id| match c.lookup_at(*id) {
        Some(Ty::Constructor { tag, arity, .. }) => Some((tag, arity)),
        _ => None,
    });
    assert_eq!(found, Some((1, 1)));
}

#[test]
fn unknown_enum_constructor_is_error() {
    let msgs = assert_messages("Nonexistent::Some(1);");
    assert!(
        msgs.iter()
            .any(|m| m.message().contains("Cannot find enum")),
        "expected unknown-enum error, got: {:?}",
        msgs
    );
}

#[test]
fn unknown_variant_on_known_enum_is_error() {
    let src = "Option::Purlpe(1)";
    let msgs = assert_messages(src);
    assert!(
        msgs.iter()
            .any(|m| m.message().contains("Cannot find variant")),
        "expected unknown-variant error, got: {:?}",
        msgs
    );
}

#[test]
fn match_with_all_variants_no_error() {
    let src = "let x = Option::Some(1); match x { Option::None() => 0, Option::Some(v) => v };";
    let (mut c, _) = check(src);
    let msgs = c.take_messages();
    assert!(msgs.is_empty(), "{:?}", msgs);
}

#[test]
fn match_with_wildcard_no_exhaustiveness_error() {
    let src = "let x = Option::Some(1); match x { _ => 0 };";
    let (mut c, _) = check(src);
    let msgs = c.take_messages();
    assert!(msgs.is_empty(), "{:?}", msgs);
}

#[test]
fn match_non_exhaustive_reports_missing() {
    let src = "let x = Option::None(); match x { Option::None() => 0 };";
    let msgs = assert_messages(src);
    assert!(
        msgs.iter()
            .any(|m| m.message().contains("Non-exhaustive match")),
        "expected non-exhaustive error, got: {:?}",
        msgs
    );
    let msg = msgs
        .iter()
        .find(|m| m.message().contains("Non-exhaustive"))
        .unwrap();
    assert!(
        msg.message().contains("Some"),
        "expected `Some` to be mentioned, got: {:?}",
        msg.message()
    );
}

#[test]
fn match_with_unreachable_arm_reports() {
    let src = "let x = Option::None(); match x { Option::None() => 0, Option::None() => 1 };";
    let msgs = assert_messages(src);
    assert!(
        msgs.iter().any(|m| m.message().contains("Unreachable arm")),
        "expected unreachable-arm error, got: {:?}",
        msgs
    );
}

#[test]
fn match_pattern_binding_does_not_leak() {
    let src = "let x = Option::Some(1); match x { Option::Some(v) => 0 }; v";
    let msgs = assert_messages(src);
    assert!(
        msgs.iter()
            .any(|m| m.message().contains("Cannot find value `v`")),
        "expected 'v not found' error, got: {:?}",
        msgs
    );
}

#[test]
fn nested_constructor_pattern_typechecks() {
    let src = "let x = Wrap::W(Inner::I(7)); match x { Wrap::W(Inner::I(v)) => v }; enum Inner { I(int) } enum Wrap { W(Inner) }";
    let (mut c, _) = check(src);
    let msgs = c.take_messages();
    assert!(msgs.is_empty(), "{:?}", msgs);
}

#[test]
fn forward_reference_to_constructor_works() {
    let src = "let x = Option::Some(1)";
    let (mut c, _) = check(src);
    let msgs = c.take_messages();
    assert!(msgs.is_empty(), "{:?}", msgs);
}

#[test]
fn format_string_percent_i_requires_int() {
    let msgs = assert_messages(r#"print "%i", "hello";"#);
    assert!(
        msgs.iter().any(|m| m.message().contains("requires int")),
        "expected '%i requires int' error, got: {:?}",
        msgs
    );
}

#[test]
fn format_string_percent_s_requires_string() {
    let msgs = assert_messages("print \"%s\", 42;");
    assert!(
        msgs.iter().any(|m| m.message().contains("requires string")),
        "expected '%s requires string' error, got: {:?}",
        msgs
    );
}

#[test]
fn format_string_percent_f_requires_float() {
    let msgs = assert_messages("print \"%f\", 1;");
    assert!(
        msgs.iter().any(|m| m.message().contains("requires float")),
        "expected '%f requires float' error, got: {:?}",
        msgs
    );
}

#[test]
fn format_string_with_constructor_value_errors_on_percent_s() {
    let src = "print \"%s\", Option::Some(1)";
    let msgs = assert_messages(src);
    assert!(
        msgs.iter().any(|m| m.message().contains("requires string")),
        "expected 'requires string' error, got: {:?}",
        msgs
    );
}

#[test]
fn format_string_with_constructor_via_match_works() {
    let src = "let s = match Option::Some(1) { Option::None() => \"none\", Option::Some(_) => \"some\" }; print \"%s\", s";
    let (mut c, _) = check(src);
    let msgs = c.take_messages();
    assert!(msgs.is_empty(), "{:?}", msgs);
}

#[test]
fn addition_of_strings_is_string() {
    assert_ok("\"hello\" + \"world\"", string());
}

#[test]
fn string_plus_int_errors() {
    let msgs = assert_messages("\"hello\" + 42;");
    assert!(
        msgs.iter().any(|m| m.message().contains("Type mismatch")),
        "expected string+int type mismatch, got: {:?}",
        msgs
    );
}

#[test]
fn format_expression_returns_string() {
    assert_ok("format \"%i-%s\", 42, \"x\"", string());
}

#[test]
fn format_percent_v_accepts_int() {
    let (mut c, _) = check(r#"print "%v", 42;"#);
    let msgs = c.take_messages();
    assert!(msgs.is_empty(), "{:?}", msgs);
}

#[test]
fn format_percent_v_accepts_structural_tuple_and_record() {
    let (mut c, _) = check(r#"print "%v%v", (1, true), { a: 3, b: "x" };"#);
    let msgs = c.take_messages();
    assert!(msgs.is_empty(), "{:?}", msgs);
}

#[test]
fn format_percent_i_on_open_type_errors() {
    let msgs = assert_messages(r#"fn bad<T>(T x) { print "%i", x; } fn main() { bad(1); }"#);
    assert!(
        msgs.iter().any(|m| {
            m.message().contains("open type")
                && m.help().is_some_and(|h| h.contains("%v"))
        }),
        "expected open-type `%i` error with `%v` help, got: {:?}",
        msgs
    );
}

#[test]
fn format_percent_v_without_show_errors() {
    let msgs = assert_messages(r#"fn bad<T>(T x) { print "%v", x; } fn main() { bad(1); }"#);
    assert!(
        msgs.iter().any(|m| m.message().contains("Show")),
        "expected Show requirement for `%v`, got: {:?}",
        msgs
    );
}

#[test]
fn format_percent_v_rejects_structural_tuple_with_open_type() {
    let msgs =
        assert_messages(r#"fn bad<T>(T x) { print "%v", (x, 1); } fn main() { bad(1); }"#);
    assert!(
        msgs.iter().any(|m| m.message().contains("Show")),
        "expected Show requirement for structural `%v` with open T, got: {:?}",
        msgs
    );
}

#[test]
fn typechecker_does_not_report_unreachable_for_different_inner_patterns() {
    let src = r#"
    fn unwrap(Result r) -> int {
        return match r {
            Result::Ok(Option::Some(v)) => v,
            Result::Ok(Option::None) => 0,
            Result::Err(_) => -1,
        };
    }
    fn main() {
        print "%i", unwrap(Result::Ok(Option::Some(42)));
    }
    "#;
    let (mut c, _) = check(src);
    let msgs = c.take_messages();
    let unreachable: Vec<String> = msgs
        .iter()
        .filter(|m| m.message().contains("Unreachable arm"))
        .map(|m| m.message().to_string())
        .collect();
    assert!(
        unreachable.is_empty(),
        "Typechecker should NOT report unreachable arm for different inner patterns, got: {:?}",
        unreachable
    );
}

#[test]
fn access_field_from_record_variant_returns_field_type() {
    let src = "enum Point { Origin, Point { x: int, y: int } } \
               let p = Point::Point { x: 5, y: 12 }; p.x;";
    let (mut c, ty) = check(src);
    let msgs = c.take_messages();
    assert!(
        msgs.is_empty(),
        "expected no diagnostics for `p.x`, got: {:?}",
        msgs
    );
    assert_eq!(ty, int_ty(), "field access should produce `int`");
}

#[test]
fn access_field_from_non_record_produces_error() {
    let msgs = assert_messages("1.x;");
    assert!(
        msgs.iter()
            .any(|m| m.message().contains("Cannot access field")),
        "expected 'Cannot access field' diagnostic, got: {:?}",
        msgs
    );
}

#[test]
fn access_unknown_field_produces_error() {
    let src = "enum Point { Origin, Point { x: int, y: int } } \
               let p = Point::Point { x: 1, y: 2 }; p.z;";
    let msgs = assert_messages(src);
    let no_field = msgs
        .iter()
        .find(|m| m.message().contains("no field `z`"))
        .unwrap_or_else(|| panic!("expected 'no field `z`' diagnostic, got: {:?}", msgs));
    let hint = no_field
        .help()
        .expect("expected help hint on 'no field' diagnostic");
    assert!(
        hint.contains("`x`") && hint.contains("`y`"),
        "expected help hint listing available fields, got: {:?}",
        hint
    );
}

#[test]
fn access_field_from_tuple_variant_produces_error() {
    let src = "enum Tuple { Wrap(int, int) } \
               let p = Tuple::Wrap(1, 2); p.x;";
    let msgs = assert_messages(src);
    let diag = msgs
        .iter()
        .find(|m| m.message().contains("Cannot access field"))
        .unwrap_or_else(|| {
            panic!("expected 'Cannot access field' diagnostic, got: {:?}", msgs)
        });
    let hint = diag
        .help()
        .expect("expected help hint on tuple-variant access");
    assert!(
        hint.contains("tuple"),
        "expected help hint to mention the variant shape 'tuple', got: {:?}",
        hint
    );
}

#[test]
fn access_field_ambiguous_across_variants_emits_narrow_with_match() {
    let src = "enum Two { A { x: int, y: int }, B { x: string, z: int } } \
               fn get_x(Two p) -> int { return p.x; }";
    let msgs = assert_messages(src);
    assert!(
        msgs.iter()
            .any(|m| m.message().contains("narrow with match first")),
        "expected 'narrow with match first' diagnostic, got: {:?}",
        msgs
    );
}

#[test]
fn access_field_via_function_parameter_resolves() {
    let src = "enum Point { Origin, Point { x: int, y: int } } \
               fn get_x(Point p) -> int { return p.x; }";
    let (mut c, _) = check(src);
    let msgs = c.take_messages();
    assert!(msgs.is_empty(), "expected no diagnostics, got: {:?}", msgs);
}

#[test]
fn access_field_on_sum_param_with_unique_field_resolves() {
    let src = "enum Point { Origin, Point { x: int, y: int } } \
               fn get_x(Point p) -> int { return p.x; }";
    let (mut c, _) = check(src);
    let msgs = c.take_messages();
    assert!(
        msgs.is_empty(),
        "expected no diagnostics for unambiguous field access, got: {:?}",
        msgs
    );
}

#[test]
fn tuple_literal_infers_heterogeneous_product_type() {
    let (mut c, ty) = check("(1, \"x\")");
    let msgs = c.take_messages();
    assert!(msgs.is_empty(), "unexpected: {:?}", msgs);
    let resolved = apply_ty(c.subst(), &ty);
    assert_eq!(
        resolved,
        tuple(vec![int_ty(), string()]),
        "expected tuple type (int, string)"
    );
}

#[test]
fn array_literal_infers_static_length_array() {
    let (mut c, ty) = check("[1, 2, 3]");
    let msgs = c.take_messages();
    assert!(msgs.is_empty(), "unexpected: {:?}", msgs);
    let resolved = apply_ty(c.subst(), &ty);
    assert_eq!(resolved, array_fixed(int_ty(), 3), "expected [int; 3]");
}

#[test]
fn array_literal_heterogeneous_elements_emits_diagnostic() {
    let (_c, msgs) = check_warn("[1, \"x\"]");
    let found = msgs
        .iter()
        .any(|m| m.message().contains("element type mismatch"));
    assert!(
        found,
        "expected 'element type mismatch' diagnostic, got: {:?}",
        msgs
    );
}

#[test]
fn array_static_index_out_of_bounds_emits_diagnostic() {
    let src = "fn main() { let arr = [0, 1, 2]; let _ = arr[3]; }";
    let (_c, msgs) = check_warn(src);
    let found = msgs.iter().any(|m| m.message().contains("out of bounds"));
    assert!(found, "expected OOB diagnostic, got: {:?}", msgs);
}

#[test]
fn array_constant_index_in_bounds_emits_no_diagnostic() {
    let src = "fn main() { let arr = [0, 1, 2]; let _ = arr[2]; }";
    let (_c, msgs) = check_warn(src);
    assert!(msgs.is_empty(), "unexpected: {:?}", msgs);
}

#[test]
fn array_runtime_index_emits_no_diagnostic() {
    let src = "fn main() { let arr = [0, 1, 2]; let i = 1; let _ = arr[i]; }";
    let (_c, msgs) = check_warn(src);
    assert!(msgs.is_empty(), "unexpected: {:?}", msgs);
}

#[test]
fn array_dynamic_length_no_oob_check() {
    let src = "fn get_array() -> [int] { return [1, 2, 3]; } \
               fn main() { let arr = get_array(); let _ = arr[10]; }";
    let (_c, msgs) = check_warn(src);
    assert!(msgs.is_empty(), "unexpected: {:?}", msgs);
}

#[test]
fn push_promotes_static_array_to_dynamic_for_later_indexing() {
    let src = "fn main() { let arr = [0, 1]; push(arr, 2); let _ = arr[2]; }";
    let (_c, msgs) = check_warn(src);
    assert!(msgs.is_empty(), "unexpected: {:?}", msgs);
}

#[test]
fn push_rejects_element_type_mismatch() {
    let src = "fn main() { let arr = [0, 1]; push(arr, \"x\"); }";
    let (_c, msgs) = check_warn(src);
    let found = msgs.iter().any(|m| m.message().contains("Type mismatch"));
    assert!(
        found,
        "expected push element type mismatch, got: {:?}",
        msgs
    );
}

#[test]
fn len_of_array_returns_int() {
    assert_ok("len([0, 1])", int_ty());
}

#[test]
fn len_rejects_non_array() {
    let src = "fn main() { let x = 1; len(x); }";
    let (_c, msgs) = check_warn(src);
    let found = msgs
        .iter()
        .any(|m| m.message().contains("len expects an array"));
    assert!(found, "expected len non-array diagnostic, got: {:?}", msgs);
}

#[test]
fn tuple_constant_index_oob_emits_diagnostic() {
    let src = "fn main() { let t = (1, 2); let _ = t[5]; }";
    let (_c, msgs) = check_warn(src);
    let found = msgs.iter().any(|m| m.message().contains("out of bounds"));
    assert!(found, "expected tuple OOB, got: {:?}", msgs);
}

#[test]
fn parenthesised_expr_is_not_tuple() {
    let (mut c1, ty1) = check("(1)");
    let msgs1 = c1.take_messages();
    assert!(msgs1.is_empty(), "msgs1: {:?}", msgs1);
    assert_eq!(apply_ty(c1.subst(), &ty1), int_ty());

    let (mut c2, ty2) = check("(1 + 2)");
    let msgs2 = c2.take_messages();
    assert!(msgs2.is_empty(), "msgs2: {:?}", msgs2);
    assert_eq!(apply_ty(c2.subst(), &ty2), int_ty());
}

#[test]
fn parenthesised_arithmetic_works_in_binary_op() {
    let (mut c, ty) = check("(1 + 2) * 3");
    let msgs = c.take_messages();
    assert!(msgs.is_empty(), "unexpected: {:?}", msgs);
    assert_eq!(apply_ty(c.subst(), &ty), int_ty());
}

#[test]
fn array_dynamic_length_param_lets_runtime_index() {
    let src = "fn head([int] arr) -> int { return arr[0]; }";
    let (_c, msgs) = check_warn(src);
    assert!(msgs.is_empty(), "unexpected: {:?}", msgs);
}

#[test]
fn index_non_aggregate_emits_diagnostic() {
    let src = "fn main() { let x = 5; let _ = x[0]; }";
    let (_c, msgs) = check_warn(src);
    let found = msgs
        .iter()
        .any(|m| m.message().contains("cannot index non-aggregate"));
    assert!(found, "expected indexing-error, got: {:?}", msgs);
}

#[test]
fn dict_literal_infers_record_type() {
    let (mut c, _ty) = check("fn main() { let d = { foo: 42 }; }");
    let msgs = c.take_messages();
    assert!(msgs.is_empty(), "unexpected: {:?}", msgs);
    let d_ty = c.codegen_var_type("d").cloned();
    let d_pruned = d_ty.map(|t| apply_ty(c.subst(), &t));
    assert_eq!(
        d_pruned,
        Some(Ty::Record { fields: vec![("foo".to_string(), int_ty())] }),
        "expected d: {{ foo: int }}"
    );
}

#[test]
fn dict_missing_field_access_emits_diagnostic() {
    let src = "fn main() { let x = { foo: 42 }; let _ = x.bar; }";
    let (_c, msgs) = check_warn(src);
    let found = msgs
        .iter()
        .any(|m| m.message().contains("Cannot find field `bar`"));
    assert!(found, "expected missing-field diagnostic, got: {:?}", msgs);
}

#[test]
fn dict_present_field_access_emits_no_diagnostic() {
    let src = "fn main() { let x = { foo: 42 }; let _ = x.foo; }";
    let (_c, msgs) = check_warn(src);
    assert!(msgs.is_empty(), "unexpected: {:?}", msgs);
}

#[test]
fn dict_duplicate_field_emits_diagnostic() {
    let src = "fn main() { let _ = { foo: 1, foo: 2 }; }";
    let (_c, msgs) = check_warn(src);
    let found = msgs.iter().any(|m| m.message().contains("Duplicate field"));
    assert!(
        found,
        "expected duplicate-field diagnostic, got: {:?}",
        msgs
    );
}

#[test]
fn dict_structurally_typed_unification() {
    let (mut c, ty1) = check("fn main() { let _ = { foo: 42 }; return { foo: 42 }; }");
    let _ = c.take_messages();
    let ty2 = {
        let (mut c2, ty2) = check("fn main() { let _ = { foo: 42 }; return { foo: 99 }; }");
        let _ = c2.take_messages();
        ty2
    };
    let r1 = apply_ty(c.subst(), &ty1);
    let r2 = apply_ty(c.subst(), &ty2);
    assert_eq!(r1, r2);
}

#[test]
fn dict_let_binding_works_end_to_end() {
    let src = "fn main() { let d = { x: 1, y: 2 }; let _ = d.x + d.y; }";
    let (_c, msgs) = check_warn(src);
    assert!(msgs.is_empty(), "unexpected: {:?}", msgs);
}

#[test]
fn type_alias_for_tuple_is_substituted() {
    let src = "type Point = (int, int); fn main() { let p: Point = (3, 4); }";
    let (_c, msgs) = check_warn(src);
    assert!(msgs.is_empty(), "unexpected: {:?}", msgs);
}

#[test]
fn type_alias_used_as_function_parameter() {
    let src = "type Point = (int, int);
               fn distance(Point p) -> int { return p[0]; }
               fn main() { }";
    let (_c, msgs) = check_warn(src);
    assert!(msgs.is_empty(), "unexpected: {:?}", msgs);
}

#[test]
fn generic_enum_type_app_builds_ty_app() {
    let src = "enum Box<T> { Box(T) } fn f(Box<int> x) -> int { return 0; }";
    let (mut c, _) = check(src);
    let msgs = c.take_messages();
    assert!(msgs.is_empty(), "unexpected: {:?}", msgs);
    let scheme = c.env().lookup("f").unwrap();
    let ty = apply_ty(c.subst(), &scheme.ty);
    let Ty::Fun(param, ret) = ty else {
        panic!("expected function type");
    };
    assert_eq!(
        *param,
        Ty::App(Box::new(Ty::Con("Box".into())), vec![int_ty()])
    );
    assert_eq!(*ret, int_ty());
}

#[test]
fn generic_enum_construct_infers_box_int() {
    let src = "enum Box<T> { Empty, Full(T) }
               fn main() { let x: Box<int> = Box::Full(7); }";
    let (mut c, _) = check(src);
    let msgs = c.take_messages();
    assert!(msgs.is_empty(), "unexpected: {:?}", msgs);
    let x_ty = c.codegen_var_type("x").expect("x should be recorded");
    assert_eq!(
        apply_ty(c.subst(), x_ty),
        Ty::App(Box::new(Ty::Con("Box".into())), vec![int_ty()])
    );
}

#[test]
fn generic_enum_match_binds_int_payload() {
    let src = "enum Box<T> { Empty, Full(T) }
               fn main() {
                   let x = Box::Full(7);
                   let y = match x {
                       Box::Empty => 0,
                       Box::Full(v) => v,
                   };
               }";
    let (mut c, _) = check(src);
    let msgs = c.take_messages();
    assert!(msgs.is_empty(), "unexpected: {:?}", msgs);
    assert_eq!(
        c.codegen_var_type("y")
            .map(|t| apply_ty(c.subst(), t)),
        Some(int_ty())
    );
}

#[test]
fn builtin_option_type_app_builds_ty_app() {
    let src = "fn f(Option<int> x) -> int { return 0; }";
    let (mut c, _) = check(src);
    let msgs = c.take_messages();
    assert!(msgs.is_empty(), "unexpected: {:?}", msgs);
    assert_eq!(
        c.reg.generics
            .generic_type_ctors
            .get("Option"),
        Some(&vec!["T".to_string()])
    );
    assert_eq!(
        c.reg.generics
            .generic_type_ctors
            .get("Result"),
        Some(&vec!["T".to_string(), "E".to_string()])
    );

    let scheme = c.env().lookup("f").unwrap();
    let ty = apply_ty(c.subst(), &scheme.ty);
    let Ty::Fun(param, ret) = ty else {
        panic!("expected function type");
    };
    assert_eq!(
        *param,
        Ty::App(
            Box::new(Ty::Con("Option".into())),
            vec![int_ty()]
        )
    );
    assert!(is_option_ty(&param));
    assert_eq!(option_inner(&param), Some(int_ty()));
    assert_eq!(*ret, int_ty());
}

#[test]
fn builtin_option_app_annotation_unifies_with_constructor_sum() {
    let src = "fn main() { let x: Option<int> = Option::Some(1); let y = match x { Option::None => 0, Option::Some(v) => v }; }";
    let (mut c, _) = check(src);
    let msgs = c.take_messages();
    assert!(msgs.is_empty(), "unexpected: {:?}", msgs);
    let x_ty = c.codegen_var_type("x").expect("x should be recorded");
    assert!(matches!(
        apply_ty(c.subst(), x_ty),
        Ty::App(con, args)
            if con.as_ref() == &Ty::Con("Option".into())
                && args == vec![int_ty()]
    ));
    assert_eq!(c.codegen_var_type("y"), Some(&int_ty()));
}

#[test]
fn generic_type_app_arity_mismatch_errors() {
    let src = "enum Box<T> { Box(T) } fn f(Box<int, string> x) -> int { return 0; }";
    let (_c, msgs) = check_warn(src);
    assert!(
        msgs.iter().any(|m| m
            .message()
            .contains("Type constructor `Box` expects 1 type arguments, got 2")),
        "expected arity diagnostic, got: {:?}",
        msgs.iter().map(|m| m.message()).collect::<Vec<_>>()
    );
}

#[test]
fn generic_type_alias_expands_to_rhs() {
    let src = "type Pair<T> = (T, T); fn f(Pair<int> p) -> int { return 0; }";
    let (mut c, _) = check(src);
    let msgs = c.take_messages();
    assert!(msgs.is_empty(), "unexpected: {:?}", msgs);
    let scheme = c.env().lookup("f").unwrap();
    let ty = apply_ty(c.subst(), &scheme.ty);
    let Ty::Fun(param, ret) = ty else {
        panic!("expected function type");
    };
    assert_eq!(*param, tuple(vec![int_ty(), int_ty()]));
    assert_eq!(*ret, int_ty());
    assert!(
        c.scope.generic_aliases.contains_key("Pair"),
        "generic alias should be registered"
    );
}

#[test]
fn generic_type_alias_arity_mismatch_errors() {
    let src = "type Pair<T> = (T, T); fn f(Pair<int, string> p) -> int { return 0; }";
    let (_c, msgs) = check_warn(src);
    assert!(
        msgs.iter().any(|m| m
            .message()
            .contains("Type constructor `Pair` expects 1 type arguments, got 2")),
        "expected arity diagnostic, got: {:?}",
        msgs.iter().map(|m| m.message()).collect::<Vec<_>>()
    );
}

#[test]
fn alias_does_not_leak_into_unrelated_declarations() {
    let src = "type Int = int; fn main() { }";
    let (_c, msgs) = check_warn(src);
    assert!(msgs.is_empty(), "unexpected: {:?}", msgs);
}

#[test]
fn function_body_alias_can_shadow_outer_alias() {
    let src = r#"
        type Value = int;
        fn main() {
            type Value = string;
            let s: Value = "ok";
        }
        fn id(Value x) -> int { return x; }
    "#;
    let (_c, msgs) = check_warn(src);
    assert!(msgs.is_empty(), "unexpected: {:?}", msgs);
}

#[test]
fn duplicate_type_alias_in_same_scope_errors() {
    let src = "type Id = int; type Id = string; fn main() { }";
    let (_c, msgs) = check_warn(src);
    assert!(
        msgs.iter()
            .any(|m| m.message().contains("Duplicate type alias `Id`")),
        "expected duplicate alias diagnostic, got: {:?}",
        msgs.iter().map(|m| m.message()).collect::<Vec<_>>()
    );
}

#[test]
fn typeclass_impl_missing_required_method_errors() {
    let src = r#"
        trait Tiny<T> {
            fn add(int a, int b) -> int;
            fn zero() -> int { return 0; }
        }
        impl Tiny<int> {
            fn zero() -> int { return 0; }
        }
    "#;
    let (_c, msgs) = check_warn(src);
    assert!(
        msgs.iter().any(|m| {
            m.message()
                .contains("Instance of `Tiny` for `int` is missing method `add`")
        }),
        "expected missing-method diagnostic, got: {:?}",
        msgs.iter().map(|m| m.message()).collect::<Vec<_>>()
    );
}

#[test]
fn typeclass_impl_overlapping_instance_errors() {
    let src = r#"
        trait Tiny<T> {
            fn add(int a, int b) -> int;
        }
        impl Tiny<int> {
            fn add(int a, int b) -> int { return a; }
        }
        impl Tiny<int> {
            fn add(int a, int b) -> int { return b; }
        }
    "#;
    let (_c, msgs) = check_warn(src);
    assert!(
        msgs.iter().any(|m| m
            .message()
            .contains("Overlapping instance `Tiny<int>` conflicts with existing `Tiny<int>`")),
        "expected overlapping-instance diagnostic, got: {:?}",
        msgs.iter().map(|m| m.message()).collect::<Vec<_>>()
    );
}

#[test]
fn ambiguous_instance_discharge_reports_error() {
    let mut c = Checker::new();
    c.reg.generics.instances.clear();
    c.reg.generics.instances.push(InstanceDef {
        class: "Choice".to_string(),
        args: vec![Ty::Var(TyVarId(999))],
        method_fqns: NameMap::new(),
        assoc_tys: NameMap::new(),
    });
    c.reg.generics.instances.push(InstanceDef {
        class: "Choice".to_string(),
        args: vec![int_ty()],
        method_fqns: NameMap::new(),
        assoc_tys: NameMap::new(),
    });

    c.discharge_constraints(
        None,
        &vec![Constraint { class: "Choice".to_string(), args: vec![int_ty()] }],
        Span { start: 0, end: 2 },
    );

    assert!(
        c.messages()
            .iter()
            .any(|m| m.message().contains("Ambiguous instance for `Choice<int>`")),
        "expected ambiguous-instance diagnostic, got: {:?}",
        c.messages().iter().map(|m| m.message()).collect::<Vec<_>>()
    );
}

#[test]
fn typeclass_impl_default_method_omission_registers_default_fqn() {
    let src = r#"
        trait Tiny<T> {
            fn zero() -> int { return 0; }
        }
        impl Tiny<int> {
        }
    "#;
    let (c, msgs) = check_warn(src);
    assert!(msgs.is_empty(), "unexpected: {:?}", msgs);
    assert_eq!(
        c.instance_method_fqn("Tiny", &[int_ty()], "zero"),
        Some("Tiny__default__zero")
    );
}

#[test]
fn typeclass_impl_unknown_method_errors() {
    let src = r#"
        trait Tiny<T> {
            fn add(int a, int b) -> int;
        }
        impl Tiny<int> {
            fn add(int a, int b) -> int { return a; }
            fn foo(int a) -> int { return a; }
        }
    "#;
    let (_c, msgs) = check_warn(src);
    assert!(
        msgs.iter().any(|m| m
            .message()
            .contains("Unknown method `foo` in instance of `Tiny`")),
        "expected unknown-method diagnostic, got: {:?}",
        msgs.iter().map(|m| m.message()).collect::<Vec<_>>()
    );
}

#[test]
fn typeclass_param_bounds_become_superclasses() {
    let src = r#"
        trait Equal<T> { fn eq_val(T a, T b) -> bool; }
        trait Ordered<T: Equal> { fn lt_val(T a, T b) -> bool; }
    "#;
    let (c, msgs) = check_warn(src);
    assert!(msgs.is_empty(), "unexpected: {:?}", msgs);
    let ordered = c.generics().typeclass("Ordered").expect("Ordered");
    assert_eq!(ordered.superclasses, vec!["Equal".to_string()]);
    assert!(ordered.has_superclass("Equal", c.generics()));
}

#[test]
fn typeclass_impl_missing_superclass_instance_errors() {
    let src = r#"
        trait Equal<T> { fn eq_val(T a, T b) -> bool; }
        trait Ordered<T: Equal> { fn lt_val(T a, T b) -> bool; }
        impl Ordered<int> {
            fn lt_val(int a, int b) -> bool { return a < b; }
        }
    "#;
    let (_c, msgs) = check_warn(src);
    assert!(
        msgs.iter().any(|m| {
            let msg = m.message();
            msg.contains("requires superclass instance")
                && msg.contains("Equal")
                && msg.contains("Ordered")
        }),
        "expected missing-superclass diagnostic, got: {:?}",
        msgs.iter().map(|m| m.message()).collect::<Vec<_>>()
    );
}

#[test]
fn implied_superclass_bound_allows_superclass_method() {
    let src = r#"
        trait Equal<T> { fn eq_val(T a, T b) -> bool; }
        trait Ordered<T: Equal> { fn lt_val(T a, T b) -> bool; }
        impl Equal<int> {
            fn eq_val(int a, int b) -> bool { return a == b; }
        }
        impl Ordered<int> {
            fn lt_val(int a, int b) -> bool { return a < b; }
        }
        fn cmp_eq<T: Ordered>(T a, T b) -> bool {
            return eq_val(a, b);
        }
        fn main() {
            let x = cmp_eq(1, 1);
        }
    "#;
    let (c, msgs) = check_warn(src);
    assert!(
        msgs.is_empty(),
        "implied Equal under Ordered should typecheck; got: {:?}",
        msgs.iter().map(|m| m.message()).collect::<Vec<_>>()
    );
    let hint = c
        .id_table()
        .ids()
        .iter()
        .find_map(|id| c.bound_method_call_at(*id))
        .expect("expected a bound method call for eq_val");
    assert_eq!(hint.method_slot, 1, "eq_val should be superclass slot 1");
    assert_eq!(hint.dict_index, 0);
}

#[test]
fn abstract_constraint_kind_uses_superclass_method_after_binding() {
    let src = r#"
        trait Equal<T> { fn eq_val(T a, T b) -> bool; }
        trait Ordered<T: Equal> { fn lt_val(T a, T b) -> bool; }
        impl Equal<int> {
            fn eq_val(int a, int b) -> bool { return a == b; }
        }
        impl Ordered<int> {
            fn lt_val(int a, int b) -> bool { return a < b; }
        }
        fn choose<c: * -> Constraint, T: c>(T a, T b) -> int {
            if lt_val(a, b) { return 0; }
            if eq_val(a, b) { return 42; }
            return 1;
        }
        fn main() {
            let x = choose(7, 7);
        }
    "#;
    let (c, msgs) = check_warn(src);
    assert!(
        msgs.is_empty(),
        "abstract constraint should bind to Ordered and imply Equal; got: {:?}",
        msgs.iter().map(|m| m.message()).collect::<Vec<_>>()
    );
    let scheme = c.env().lookup("choose").expect("choose scheme");
    assert_eq!(scheme.constraints.len(), 1);
    assert_eq!(scheme.constraints[0].class, "Ordered");

    let slots: Vec<_> = c
        .id_table()
        .ids()
        .iter()
        .filter_map(|id| c.bound_method_call_at(*id).map(|hint| hint.method_slot))
        .collect();
    assert!(
        slots.contains(&0) && slots.contains(&1),
        "expected Ordered slot 0 and implied Equal slot 1, got {:?}",
        slots
    );
}

#[test]
fn unsatisfied_abstract_constraint_kind_reports_diagnostic() {
    let src = r#"
        fn id<c: * -> Constraint, T: c>(T x) -> T {
            return x;
        }
    "#;
    let (_c, msgs) = check_warn(src);
    assert!(
        msgs.iter()
            .any(|m| m.message().contains("Cannot satisfy abstract constraint")),
        "expected unsatisfied abstract constraint diagnostic, got: {:?}",
        msgs.iter().map(|m| m.message()).collect::<Vec<_>>()
    );
}

#[test]
fn generic_call_records_concrete_instance_dict() {
    let src = r#"
        fn add<T: Num>(T a, T b) -> T { return a + b; }
        fn main() { let x = add(1, 2); }
    "#;
    let (mut c, _) = check(src);
    let msgs = c.take_messages();
    assert!(msgs.is_empty(), "unexpected: {:?}", msgs);

    let dicts: Vec<_> = c
        .id_table()
        .ids()
        .iter()
        .filter_map(|id| c.call_dicts_at(*id))
        .collect();
    assert_eq!(dicts.len(), 1, "expected one constrained call dict");
    assert_eq!(dicts[0].len(), 1, "expected one Num dictionary");
    assert_eq!(dicts[0][0].class, "Num");
    assert_eq!(dicts[0][0].args, vec![int_ty()]);
}

#[test]
fn num_bound_plus_uses_add_superclass_dict_slot() {
    let src = r#"
        fn add<T: Num>(T a, T b) -> T { return a + b; }
        fn main() { let x = add(1, 2); }
    "#;
    let (c, msgs) = check_warn(src);
    assert!(msgs.is_empty(), "unexpected: {:?}", msgs);
    let hint = c
        .id_table()
        .ids()
        .iter()
        .find_map(|id| c.bound_operator_call_at(*id))
        .expect("expected a bound operator call for `+`");
    assert_eq!(hint.dict_index, 0);
    assert_eq!(
        hint.method_slot, 0,
        "Add::add should be slot 0 in Num's flattened dict"
    );
}

#[test]
fn add_bound_alone_allows_plus() {
    let src = r#"
        fn just_add<T: Add>(T a, T b) -> T { return a + b; }
        fn main() { let x = just_add(1, 2); }
    "#;
    let (c, msgs) = check_warn(src);
    assert!(msgs.is_empty(), "unexpected: {:?}", msgs);
    let hint = c
        .id_table()
        .ids()
        .iter()
        .find_map(|id| c.bound_operator_call_at(*id))
        .expect("expected a bound operator call for `+`");
    assert_eq!(hint.method_slot, 0);
}

#[test]
fn add_bound_does_not_allow_mul() {
    let src = r#"
        fn bad<T: Add>(T a, T b) -> T { return a * b; }
    "#;
    let (_c, msgs) = check_warn(src);
    assert!(
        msgs.iter()
            .any(|m| m.message().contains("without bound `Mul`")),
        "expected missing Mul bound diagnostic, got: {:?}",
        msgs.iter().map(|m| m.message()).collect::<Vec<_>>()
    );
}

#[test]
fn ord_bound_lt_uses_lt_superclass_dict_slot() {
    let src = r#"
        fn less<T: Ord>(T a, T b) -> bool { return a < b; }
        fn main() { let x = less(1, 2); }
    "#;
    let (c, msgs) = check_warn(src);
    assert!(msgs.is_empty(), "unexpected: {:?}", msgs);
    let hint = c
        .id_table()
        .ids()
        .iter()
        .find_map(|id| c.bound_operator_call_at(*id))
        .expect("expected a bound operator call for `<`");
    assert_eq!(hint.dict_index, 0);
    assert_eq!(
        hint.method_slot, 0,
        "Lt::lt should be slot 0 in Ord's flattened dict"
    );
}

#[test]
fn lt_bound_alone_allows_less_than() {
    let src = r#"
        fn just_lt<T: Lt>(T a, T b) -> bool { return a < b; }
        fn main() { let x = just_lt(1, 2); }
    "#;
    let (c, msgs) = check_warn(src);
    assert!(msgs.is_empty(), "unexpected: {:?}", msgs);
    let hint = c
        .id_table()
        .ids()
        .iter()
        .find_map(|id| c.bound_operator_call_at(*id))
        .expect("expected a bound operator call for `<`");
    assert_eq!(hint.method_slot, 0);
}

#[test]
fn lt_bound_does_not_allow_gt() {
    let src = r#"
        fn bad<T: Lt>(T a, T b) -> bool { return a > b; }
    "#;
    let (_c, msgs) = check_warn(src);
    assert!(
        msgs.iter()
            .any(|m| m.message().contains("without bound `Gt`")),
        "expected missing Gt bound diagnostic, got: {:?}",
        msgs.iter().map(|m| m.message()).collect::<Vec<_>>()
    );
}

#[test]
fn block_scoped_alias_does_not_leak() {
    let src = r#"
        type Local = int;
        fn main() {
            if true {
                type Local = string;
                let s: Local = "ok";
            }
            let n: Local = 1;
        }
    "#;
    let (_c, msgs) = check_warn(src);
    assert!(msgs.is_empty(), "unexpected: {:?}", msgs);
}

#[test]
fn access_field_from_let_bound_sum_value_works() {
    let src = "enum Point { Origin, Point { x: int, y: int } } \
               fn distance_squared(Point p) -> int { \
                   return match p { \
                       Point::Origin => 0, \
                       Point::Point { x, y } => x, \
                   }; \
               } \
               fn main() { print \"%i\", distance_squared(Point::Point { x: 5, y: 12 }); }";
    let (mut c, _) = check(src);
    let msgs = c.take_messages();
    assert!(msgs.is_empty(), "expected no diagnostics, got: {:?}", msgs);
}

#[test]
fn access_field_chained_id_alignment() {
    let src = "enum Point { Origin, Point { x: int, y: int } } \
               let p = Point::Point { x: 5, y: 12 }; p.x.y;";
    let msgs = assert_messages(src);
    let cannot_access: Vec<_> = msgs
        .iter()
        .filter(|m| m.message().contains("Cannot access field"))
        .collect();
    assert!(
        !cannot_access.is_empty(),
        "expected at least one 'Cannot access field' diagnostic from outer access, got: {:?}",
        msgs
    );
}

#[test]
fn field_type_for_returns_record_field_type() {
    let src = "enum Inner { Inner { v: int } }";
    let (c, _) = check(src);
    assert_eq!(
        c.field_type_for("Inner", "v"),
        Some(int_ty()),
        "expected field 'v' on Inner to resolve to int_ty()"
    );
}

#[test]
fn field_type_for_returns_none_for_unknown_field() {
    let src = "enum Inner { Inner { v: int } }";
    let (c, _) = check(src);
    assert_eq!(
        c.field_type_for("Inner", "missing"),
        None,
        "expected field 'missing' on Inner to resolve to None"
    );
}

#[test]
fn field_type_for_returns_none_for_unknown_enum() {
    let (c, _) = check("enum Inner { Inner { v: int } }");
    assert_eq!(
        c.field_type_for("Missing", "v"),
        None,
        "expected field lookup on unregistered enum to resolve to None"
    );
}

#[test]
fn field_type_for_returns_correct_types_for_each_field() {
    let src = "enum Point { Origin, Point { x: int, y: int } }";
    let (c, _) = check(src);
    assert_eq!(c.field_type_for("Point", "x"), Some(int_ty()));
    assert_eq!(c.field_type_for("Point", "y"), Some(int_ty()));
}

#[test]
fn field_type_for_returns_tuple_index_types() {
    let src = "enum T { Wrap(int, string) }";
    let (c, _) = check(src);
    assert_eq!(c.field_type_for("T", "0"), Some(int_ty()));
    assert_eq!(c.field_type_for("T", "1"), Some(string()));
    assert_eq!(
        c.field_type_for("T", "2"),
        None,
        "out-of-range tuple index"
    );
}

#[test]
fn field_type_for_returns_enum_type_for_nested_field() {
    let src = "enum Inner { Inner { v: int } } \
               enum Outer { Outer { x: Inner, y: int } }";
    let (c, _) = check(src);
    let result = c.field_type_for("Outer", "x");
    assert!(
        result.is_some(),
        "expected field 'x' on Outer to resolve to an enum type"
    );
    let result_ty = result.unwrap();
    match &result_ty {
        Ty::Con(name) => assert_eq!(name, "Inner"),
        Ty::Sum { name, .. } => assert_eq!(name, "Inner"),
        other => panic!(
            "expected Ty::Con(\"Inner\") or Ty::Sum {{ name: \"Inner\", .. }}, got {:?}",
            other
        ),
    }
}

#[test]
fn async_fn_call_has_coroutine_type() {
    let src = "async fn coro() { yield 1; } fn main() { let h = coro(); }";
    let (c, _) = check(src);
    assert!(c.messages().is_empty(), "unexpected: {:?}", c.messages());
    let ty = c.codegen_var_type("h").expect("h should be recorded");
    match apply_ty(c.subst(), ty) {
        Ty::App(con, args) => {
            assert_eq!(con.as_ref(), &Ty::Con("coroutine".to_string()));
            assert_eq!(args.len(), 2);
            assert_eq!(apply_ty(c.subst(), &args[1]), unit());
        }
        other => panic!("expected coroutine<_, unit>, got {:?}", other),
    }
}

#[test]
fn resume_with_send_unifies_send_type() {
    let src = r#"async fn ping() { let msg = yield "ready"; }
fn main() { let h = ping(); resume h with "hello"; }"#;
    let (c, _) = check(src);
    assert!(c.messages().is_empty(), "unexpected: {:?}", c.messages());
}

#[test]
fn yield_from_requires_coroutine_target() {
    let (c, _) = check("async fn bad() { yield from 1; }");
    assert!(
        c.messages().iter().any(|m| {
            m.message().contains("Type mismatch")
                && m.help()
                    .is_some_and(|h| h.contains("yield from target"))
        }),
        "expected yield-from type error, got {:?}",
        c.messages()
    );
}

#[test]
fn resume_expression_returns_yield_type() {
    let (c, _) =
        check("async fn coro() { yield 1; } fn main() { let h = coro(); let x = resume h; }");
    assert!(c.messages().is_empty(), "unexpected: {:?}", c.messages());
    let x_ty = c
        .codegen_var_type("x")
        .expect("x should be recorded in codegen_var_types");
    assert_eq!(apply_ty(c.subst(), x_ty), int_ty());
}

#[test]
fn for_in_coro_binds_loop_var_to_yield_type() {
    let src = r#"
async fn counter() { yield 0; yield 1; }
fn main() {
for x in counter() {
    let y = x;
}
}
"#;
    let (c, _) = check(src);
    assert!(c.messages().is_empty(), "unexpected: {:?}", c.messages());
    let y_ty = c
        .codegen_var_type("y")
        .expect("y should be recorded in codegen_var_types");
    assert_eq!(apply_ty(c.subst(), y_ty), int_ty());
    let x_ty = c
        .codegen_var_type("x")
        .expect("x should be recorded in codegen_var_types");
    assert_eq!(apply_ty(c.subst(), x_ty), int_ty());
}

#[test]
fn for_in_non_iterable_is_diagnostic() {
    let (c, _) = check("fn main() { for x in 42 { } }");
    assert!(
        c.messages()
            .iter()
            .any(|m| m.message().contains("not iterable")),
        "expected for-in not-iterable error, got {:?}",
        c.messages()
    );
}

#[test]
fn for_in_array_binds_element_type() {
    let src = r#"
fn main() {
for x in [1, 2, 3] {
    let y = x;
}
}
"#;
    let (c, _) = check(src);
    assert!(c.messages().is_empty(), "unexpected: {:?}", c.messages());
    let y_ty = c.codegen_var_type("y").expect("y");
    assert_eq!(apply_ty(c.subst(), y_ty), int_ty());
}

#[test]
fn for_in_hetero_tuple_is_diagnostic() {
    let (c, _) = check("fn main() { for x in (1, \"a\") { } }");
    assert!(
        c.messages()
            .iter()
            .any(|m| m.message().contains("heterogeneous")),
        "expected hetero tuple diagnostic, got {:?}",
        c.messages()
    );
}

#[test]
fn for_in_hetero_dict_is_diagnostic() {
    let (c, _) = check("fn main() { for x in { a: 1, b: \"x\" } { } }");
    assert!(
        c.messages()
            .iter()
            .any(|m| m.message().contains("heterogeneous")),
        "expected hetero dict diagnostic, got {:?}",
        c.messages()
    );
}

#[test]
fn for_in_custom_iterator_accepted() {
    let src = r#"
class Counter {
cur: int,
end: int,
}

impl IntoIterator<Counter> {
type Item = int;
type IntoIter = Counter;
fn into_iter(Counter c) -> Counter {
    return c;
}
}

impl Iterator<Counter> {
type Item = int;
fn next(Counter c) -> Option<int> {
    if c.cur < c.end {
        let v = c.cur;
        c.cur = c.cur + 1;
        return Option::Some(v);
    }
    return Option::None;
}
}

fn main() {
let c = new Counter(0, 3);
for x in c {
    let y = x;
}
}
"#;
    let (c, _) = check(src);
    assert!(c.messages().is_empty(), "unexpected: {:?}", c.messages());
    let y_ty = c.codegen_var_type("y").expect("y");
    assert_eq!(apply_ty(c.subst(), y_ty), int_ty());
}

#[test]
fn yield_outside_async_is_diagnostic() {
    let (c, _) = check("fn main() { yield 1; }");
    assert!(
        c.messages()
            .iter()
            .any(|m| m.message().contains("yield outside async")),
        "expected yield-outside-async diagnostic, got {:?}",
        c.messages()
    );
}

#[test]
fn return_inside_coroutine_unifies_with_yield_type() {
    let src = "async fn coro() { yield 1; return 42; } \
               fn main() { let h = coro(); }";
    let (c, _) = check(src);
    assert!(c.messages().is_empty(), "unexpected: {:?}", c.messages());
}

#[test]
fn return_inside_coroutine_mismatched_type_is_diagnostic() {
    let src = r#"async fn coro() { yield 1; return "oops"; } fn main() { let h = coro(); }"#;
    let (c, _) = check(src);
    assert!(
        c.messages().iter().any(|m| {
            m.message().contains("Type mismatch")
                && m.help()
                    .is_some_and(|h| h.contains("return value"))
        }),
        "expected return-value type mismatch, got {:?}",
        c.messages()
    );
}

#[test]
fn return_only_coroutine_infers_yield_type_from_return() {
    let src = "async fn coro() { return 42; } fn main() { let h = coro(); let x = resume h; }";
    let (c, _) = check(src);
    assert!(c.messages().is_empty(), "unexpected: {:?}", c.messages());
    let x_ty = c
        .codegen_var_type("x")
        .expect("x should be recorded in codegen_var_types");
    assert_eq!(apply_ty(c.subst(), x_ty), int_ty());
}

#[test]
fn done_builtin_typechecks_to_bool() {
    let src = "async fn c() { yield 1; } fn main() { let h = c(); let d = done(h); }";
    let (c, _) = check(src);
    assert!(c.messages().is_empty(), "unexpected: {:?}", c.messages());
    let d_ty = c.codegen_var_type("d").expect("d should be recorded");
    assert_eq!(apply_ty(c.subst(), d_ty), boolean());
}

#[test]
fn async_fn_return_annotation_unifies_with_yield() {
    let src = "async fn c() -> int { yield 1; return 2; } fn main() { let h = c(); }";
    let (c, _) = check(src);
    assert!(c.messages().is_empty(), "unexpected: {:?}", c.messages());
}

#[test]
fn async_fn_return_annotation_mismatch_errors() {
    let src = "async fn c() -> string { yield 1; } fn main() { let h = c(); }";
    let (mut c, _) = check(src);
    let msgs = c.take_messages();
    assert!(
        msgs.iter().any(|m| m.message().contains("Type mismatch")),
        "expected annotation mismatch, got {:?}",
        msgs.iter().map(|m| m.message()).collect::<Vec<_>>()
    );
}

#[test]
fn declare_struct_ret_recorded_for_invoke_typing() {
    let src = r#"
extern struct Point {
x: int32,
y: int32,
};

use ffi::*;
use ffi::types::*;

fn main() -> Result<(), string> {
let lib = dload("sum")?;
let make_id = declare(
    lib,
    "make_point",
    (Int32, Int32),
    Point,
)?;
let p = invoke(lib, make_id, (3, 4))?;
print "%i", p.x;
print "%i", p.y;
}
"#;
    let (c, _) = check(src);
    assert!(
        c.messages().is_empty(),
        "unexpected: {:?}",
        c.messages().iter().map(|m| m.message()).collect::<Vec<_>>()
    );
    let ret = c
        .reg
        .ffi_fn_ret_tys
        .get("make_id")
        .expect("declare binding should record ret Ty");
    match ret {
        Ty::Record { fields } => {
            assert!(fields.iter().any(|(n, _)| n == "x"));
            assert!(fields.iter().any(|(n, _)| n == "y"));
        }
        other => panic!("expected Record ret, got {:?}", other),
    }
}

#[test]
fn raise_infers_result_mode_and_wraps_success() {
    let src = r#"
fn f(int n) {
if n == 0 { raise "zero"; }
return n;
}
"#;
    let (c, _) = check(src);
    assert!(
        c.messages().is_empty(),
        "unexpected: {:?}",
        c.messages().iter().map(|m| m.message()).collect::<Vec<_>>()
    );
    assert!(c.fn_is_result_mode("f"));
}

#[test]
fn raise_with_explicit_non_result_return_errors() {
    let msgs = assert_messages(r#"fn f() -> int { raise "x"; return 1; }"#);
    assert!(
        msgs.iter().any(|m| {
            m.code() == ErrorCode::TypeMismatch
                || m.message().contains("Type mismatch")
                || m.message().contains("Result")
        }),
        "expected raise vs -> int error, got: {:?}",
        msgs.iter().map(|m| m.message()).collect::<Vec<_>>()
    );
}

#[test]
fn try_on_non_option_result_is_hard_error() {
    let msgs = assert_messages(r#"fn f() -> int { let x = 1; return x?; }"#);
    assert!(
        msgs.iter().any(|m| m.code() == ErrorCode::InvalidTry),
        "expected InvalidTry (E0114), got: {:?}",
        msgs.iter()
            .map(|m| (m.code(), m.message()))
            .collect::<Vec<_>>()
    );
}

#[test]
fn try_on_result_propagates_ok_payload() {
    let src = r#"
fn inner() { raise "e"; return 1; }
fn outer() {
let v = inner()?;
return v;
}
"#;
    let (c, _) = check(src);
    assert!(
        c.messages().is_empty(),
        "unexpected: {:?}",
        c.messages().iter().map(|m| m.message()).collect::<Vec<_>>()
    );
    assert!(c.fn_is_result_mode("outer"));
}

#[test]
fn mismatched_error_types_conflict() {
    let msgs = assert_messages(
        r#"
fn a() { raise "s"; return 1; }
fn b() { raise 1; return 2; }
fn c() {
let _x = a()?;
let _y = b()?;
return 0;
}
"#,
    );
    assert!(
        msgs.iter().any(|m| {
            m.code() == ErrorCode::ConflictingErrorType
                || m.message().contains("Type mismatch")
                || m.message().contains("error type")
        }),
        "expected single-E conflict, got: {:?}",
        msgs.iter()
            .map(|m| (m.code(), m.message()))
            .collect::<Vec<_>>()
    );
}

#[test]
fn coalesce_option_and_result_typecheck() {
    let src = r#"
fn main() {
let a = Option::None ?? "bar";
let b = Result::Err("boom") ?? 7;
print "%s", a;
print "%i", b;
}
"#;
    let (c, _) = check(src);
    assert!(
        c.messages().is_empty(),
        "unexpected: {:?}",
        c.messages().iter().map(|m| m.message()).collect::<Vec<_>>()
    );
}

#[test]
fn coalesce_on_non_option_result_errors() {
    let msgs = assert_messages(r#"fn main() { let x = 1 ?? 2; }"#);
    assert!(
        msgs.iter()
            .any(|m| m.code() == ErrorCode::InvalidCoalesce),
        "expected InvalidCoalesce (E0115), got: {:?}",
        msgs.iter()
            .map(|m| (m.code(), m.message()))
            .collect::<Vec<_>>()
    );
}

#[test]
fn optional_access_on_option_ok() {
    let src = r#"
fn main() {
let o = Option::Some({ v: 1 });
let n = o?.v;
print "%i", n ?? 0;
}
"#;
    let (c, _) = check(src);
    assert!(
        c.messages().is_empty(),
        "unexpected: {:?}",
        c.messages().iter().map(|m| m.message()).collect::<Vec<_>>()
    );
}

#[test]
fn optional_access_on_result_errors() {
    let msgs = assert_messages(r#"fn main() { let r = Result::Ok({ v: 1 }); let _x = r?.v; }"#);
    assert!(
        msgs.iter()
            .any(|m| m.code() == ErrorCode::InvalidOptionalAccess),
        "expected InvalidOptionalAccess (E0116), got: {:?}",
        msgs.iter()
            .map(|m| (m.code(), m.message()))
            .collect::<Vec<_>>()
    );
}

#[test]
fn prelude_injects_option_without_import() {
    let src = r#"
fn main() {
let o = Option::Some(1);
print "%i", match o { Option::Some(v) => v, Option::None => 0 };
}
"#;
    let (c, _) = check(src);
    assert!(
        c.messages().is_empty(),
        "unexpected: {:?}",
        c.messages().iter().map(|m| m.message()).collect::<Vec<_>>()
    );
    assert!(c.builtin_name_in_scope("Option"));
    assert!(c.builtin_name_in_scope("Eq"));
    assert!(c.prelude_fn_in_scope("assert").is_some());
    assert!(!c.ffi_fn_in_scope("dload").is_some());
}

#[test]
fn assert_infers_result_unit_string() {
    let src = r#"
fn main() {
let r = assert(true);
let _ = match r {
    Result::Ok(_) => 1,
    Result::Err(_) => 0,
};
}
"#;
    let (c, _) = check(src);
    assert!(
        c.messages().is_empty(),
        "unexpected: {:?}",
        c.messages().iter().map(|m| m.message()).collect::<Vec<_>>()
    );
}

#[test]
fn assert_with_message_ok() {
    let src = r#"
fn main() {
let r = assert(false, "nope");
let _ = match r {
    Result::Ok(_) => 1,
    Result::Err(_) => 0,
};
}
"#;
    let (c, _) = check(src);
    assert!(
        c.messages().is_empty(),
        "unexpected: {:?}",
        c.messages().iter().map(|m| m.message()).collect::<Vec<_>>()
    );
}

#[test]
fn assert_wrong_arity_errors() {
    let msgs = assert_messages(r#"fn main() { let _ = assert(); }"#);
    assert!(
        msgs.iter().any(|m| m.message().contains("assert expects")),
        "expected arity diagnostic, got: {:?}",
        msgs.iter().map(|m| m.message()).collect::<Vec<_>>()
    );
}

#[test]
fn assert_rebind_as_check_works() {
    let src = r#"
use prelude::test::assert as check;
fn main() {
let r = check(1 == 1);
let _ = match r {
    Result::Ok(_) => 1,
    Result::Err(_) => 0,
};
}
"#;
    let (c, _) = check(src);
    assert!(
        c.messages().is_empty(),
        "unexpected: {:?}",
        c.messages().iter().map(|m| m.message()).collect::<Vec<_>>()
    );
    assert!(c.prelude_fn_in_scope("check").is_some());
    assert!(c.prelude_fn_in_scope("assert").is_none());
}

#[test]
fn panic_requires_string() {
    let msgs = assert_messages(r#"fn main() { panic 1; }"#);
    assert!(
        msgs.iter().any(|m| m.message().contains("Type mismatch")),
        "expected type mismatch for panic int, got: {:?}",
        msgs.iter().map(|m| m.message()).collect::<Vec<_>>()
    );
}

#[test]
fn dload_without_ffi_import_errors() {
    let msgs = assert_messages(r#"fn main() { let lib = dload("x.so"); }"#);
    assert!(
        msgs.iter().any(|m| {
            m.code() == ErrorCode::UnknownValue
                && m.message().contains("dload")
        }),
        "expected UnknownValue for bare dload, got: {:?}",
        msgs.iter()
            .map(|m| (m.code(), m.message()))
            .collect::<Vec<_>>()
    );
}

#[test]
fn use_ffi_types_glob_brings_int_tag_into_scope() {
    let src = r#"
use ffi::*;
use ffi::types::*;
fn main() -> Result<(), string> {
let lib = dload("x.so")?;
let id = declare(lib, "sum", (Int, Int), Int)?;
let _ = invoke(lib, id, (1, 2))?;
}
"#;
    let (c, _) = check(src);
    assert!(
        c.messages().is_empty(),
        "unexpected: {:?}",
        c.messages().iter().map(|m| m.message()).collect::<Vec<_>>()
    );
    assert!(c.ffi_tag_in_scope("Int"));
    assert!(c.ffi_fn_in_scope("dload").is_some());
}

#[test]
fn ffi_types_qualified_path_works_without_import() {
    let src = r#"
use ffi::*;
fn main() -> Result<(), string> {
let lib = dload("x.so")?;
let id = declare(lib, "sum", (ffi::types::Int, ffi::types::Int), ffi::types::Int)?;
let _ = invoke(lib, id, (1, 2))?;
}
"#;
    let (c, _) = check(src);
    assert!(
        c.messages().is_empty(),
        "unexpected: {:?}",
        c.messages().iter().map(|m| m.message()).collect::<Vec<_>>()
    );
}

#[test]
fn rebind_prelude_eq_allows_user_trait_eq() {
    let src = r#"
use prelude::ops::Eq as PreludeEq;
trait Eq<T> {
fn id(T x) -> T;
}
fn main() {}
"#;
    let (c, _) = check(src);
    assert!(
        c.messages().is_empty(),
        "unexpected: {:?}",
        c.messages().iter().map(|m| m.message()).collect::<Vec<_>>()
    );
    assert!(!c.builtin_name_in_scope("Eq"));
    assert!(c.builtin_name_in_scope("PreludeEq"));
}

#[test]
fn duplicate_prelude_eq_without_rebind_errors() {
    let msgs = assert_messages(
        r#"
trait Eq<T> {
fn id(T x) -> T;
}
fn main() {}
"#,
    );
    assert!(
        msgs.iter().any(|m| m.message().contains("Duplicate trait")),
        "expected Duplicate trait for Eq, got: {:?}",
        msgs.iter().map(|m| m.message()).collect::<Vec<_>>()
    );
}

#[test]
fn user_cannot_redeclare_builtin_option() {
    let msgs = assert_messages(r#"enum Option { None, Some(int) }"#);
    assert!(
        msgs.iter().any(|m| {
            m.code() == ErrorCode::DuplicateEnum || m.message().contains("Duplicate enum")
        }),
        "expected Duplicate enum for Option, got: {:?}",
        msgs.iter().map(|m| m.message()).collect::<Vec<_>>()
    );
}

#[test]
fn call_generic_num_fn_with_int_discharges() {
    let src = r#"
fn add<T: Num>(T a, T b) -> T { return a + b; }
fn main() { let r = add(1, 2); }
"#;
    let (mut c, _) = check(src);
    let msgs = c.take_messages();
    assert!(
        msgs.iter()
            .all(|m| !m.message().contains("Cannot satisfy")
                && !m.message().contains("No instance")),
        "unexpected constraint errors for add(int, int): {:?}",
        msgs.iter().map(|m| m.message()).collect::<Vec<_>>()
    );
}

#[test]
fn call_generic_num_fn_with_string_errors() {
    let src = r#"
fn add<T: Num>(T a, T b) -> T { return a; }
fn main() { let r = add("a", "b"); }
"#;
    let msgs = assert_messages(src);
    assert!(
        msgs.iter().any(|m| {
            m.code() == ErrorCode::GenericTypeError
                && (m.message().contains("No instance for `Num")
                    || m.message().contains("Cannot satisfy"))
        }),
        "expected a Num constraint violation for string, got: {:?}",
        msgs.iter().map(|m| m.message()).collect::<Vec<_>>()
    );
}

#[test]
fn discharge_constraints_populates_call_site_dicts_for_user_typeclass() {
    let src = r#"
trait Describable<T> { fn describe_val(T x) -> int; }
impl Describable<int> { fn describe_val(int x) -> int { return x; } }
fn show<T: Describable>(T x) -> int { return 0; }
fn main() { show(42); }
"#;
    let (c, _) = check(src);
    let dicts = dict_lists(&c);
    let total_instances: usize = dicts.iter().map(|v| v.len()).sum();
    assert!(
        total_instances > 0,
        "expected at least one call_site_dict entry for user typeclass, got 0;\
         \ndicts: {:?}",
        dicts
    );
    let has_describable = dicts.iter()
        .any(|instances| instances.iter().any(|i| i.class == "Describable"));
    assert!(
        has_describable,
        "expected Describable in call_site_dicts, got: {:?}",
        dicts
    );
}

#[test]
fn call_generic_inside_generic_propagates() {
    let src = r#"
fn add<T: Num>(T a, T b) -> T { return a + b; }
fn outer<T: Num>(T x) -> T { return add(x, x); }
fn main() { let r = outer(5); }
"#;
    let (mut c, _) = check(src);
    let msgs = c.take_messages();
    assert!(
        msgs.iter()
            .all(|m| !m.message().contains("Cannot satisfy")
                && !m.message().contains("No instance")),
        "unexpected constraint errors for generic propagation: {:?}",
        msgs.iter().map(|m| m.message()).collect::<Vec<_>>()
    );
}

#[test]
fn multiparam_where_clause_discharges_at_call_site() {
    let src = r#"
trait Convert<A, B> { fn cast(A x) -> B; }
impl Convert<int, int> { fn cast(int x) -> int { return x; } }
fn apply_cast<A, B>(A x) -> B where Convert<A, B> { return cast(x); }
fn main() { let y = apply_cast(42); }
"#;
    let (mut c, _) = check(src);
    let msgs = c.take_messages();
    assert!(
        msgs.is_empty(),
        "unexpected diagnostics: {:?}",
        msgs.iter().map(|m| m.message()).collect::<Vec<_>>()
    );
    let dicts = dict_lists(&c);
    let has_convert = dicts.iter().any(|instances| {
        instances
            .iter()
            .any(|i| i.class == "Convert" && i.args == vec![int_ty(), int_ty()])
    });
    assert!(
        has_convert,
        "expected Convert<int, int> in call_site_dicts, got: {:?}",
        dicts
    );
}

#[test]
fn multiparam_missing_instance_errors() {
    let src = r#"
trait Convert<A, B> { fn cast(A x) -> B; }
fn apply_cast<A, B>(A x) -> B where Convert<A, B> { return cast(x); }
fn main() { let y = apply_cast(42); }
"#;
    let (mut c, _) = check(src);
    let msgs = c.take_messages();
    assert!(
        msgs.iter()
            .any(|m| m.message().contains("No instance") || m.message().contains("Convert")),
        "expected missing-instance diagnostic, got: {:?}",
        msgs.iter().map(|m| m.message()).collect::<Vec<_>>()
    );
}

#[test]
fn prelude_into_method_scheme_registered() {
    let (c, _) = check("fn main() {}");
    assert!(
        c.typeclass_method_scheme("From", "from").is_none(),
        "From::from must not be registered"
    );
    let into_scheme = c
        .typeclass_method_scheme("Into", "into")
        .expect("Into::into scheme");
    assert_eq!(into_scheme.constraints.len(), 1);
    assert_eq!(into_scheme.constraints[0].class, "Into");
    assert_eq!(into_scheme.constraints[0].args.len(), 2);
}

#[test]
fn prelude_into_method_call_with_expected_type_discharges() {
    let src = r#"
class Celsius { c: int }
class Fahrenheit { f: int }
impl Into<Fahrenheit> for Celsius {
fn into(Celsius x) -> Fahrenheit { return new Fahrenheit(x.c); }
}
fn main() {
let c = new Celsius(0);
let y: Fahrenheit = c.into();
}
"#;
    let (mut c, _) = check(src);
    let msgs = c.take_messages();
    assert!(
        msgs.is_empty(),
        "unexpected diagnostics: {:?}",
        msgs.iter().map(|m| m.message()).collect::<Vec<_>>()
    );
    let dicts = dict_lists(&c);
    let has_into = dicts.iter().any(|instances| {
        instances.iter().any(|i| {
            i.class == "Into"
                && i.args.len() == 2
                && matches!(&i.args[0], Ty::Con(n) if n == "Celsius")
                && matches!(&i.args[1], Ty::Con(n) if n == "Fahrenheit")
        })
    });
    assert!(
        has_into,
        "expected Into<Celsius, Fahrenheit> in call_site_dicts, got: {:?}",
        dicts
    );
}

#[test]
fn prelude_into_missing_instance_errors() {
    let src = r#"
fn wrap<A, B>(A x) -> B where Into<A, B> { return into(x); }
fn main() { let w = wrap(42); }
"#;
    let (mut c, _) = check(src);
    let msgs = c.take_messages();
    assert!(
        msgs.iter()
            .any(|m| m.message().contains("No instance") || m.message().contains("Into")),
        "expected missing-Into diagnostic, got: {:?}",
        msgs.iter().map(|m| m.message()).collect::<Vec<_>>()
    );
}

#[test]
fn prelude_into_impl_for_builtin_source_is_orphan() {
    let src = r#"
class Wrapper { v: int }
impl Into<Wrapper> for int {
fn into(int x) -> Wrapper { return new Wrapper(x); }
}
"#;
    let (mut c, _) = check(src);
    let msgs = c.take_messages();
    assert!(
        msgs.iter().any(|m| m.message().contains("Orphan instance")),
        "expected orphan diagnostic for Into<Wrapper> for int, got: {:?}",
        msgs.iter().map(|m| m.message()).collect::<Vec<_>>()
    );
}

#[test]
fn inherent_class_method_wins_over_missing_trait_instance() {
    let src = r#"
class Point { x: int }
impl Point {
fn show() -> string { return "point"; }
}
fn main() {
let p = new Point(1);
let s = p.show();
}
"#;
    let (mut c, _) = check(src);
    let msgs = c.take_messages();
    assert!(
        msgs.iter().all(|m| !m.message().contains("No instance")
            && !m.message().contains("Show")),
        "inherent show must not require Show instance, got: {:?}",
        msgs.iter().map(|m| m.message()).collect::<Vec<_>>()
    );
    assert!(
        msgs.is_empty(),
        "unexpected diagnostics: {:?}",
        msgs.iter().map(|m| m.message()).collect::<Vec<_>>()
    );
}

#[test]
fn prelude_into_return_pins_expected_target() {
    let src = r#"
class Celsius { c: int }
class Fahrenheit { f: int }
class Kelvin { k: int }
impl Into<Fahrenheit> for Celsius {
fn into(Celsius x) -> Fahrenheit { return new Fahrenheit(x.c); }
}
impl Into<Kelvin> for Celsius {
fn into(Celsius x) -> Kelvin { return new Kelvin(x.c); }
}
fn to_f(Celsius c) -> Fahrenheit {
return c.into();
}
fn main() {
let f = to_f(new Celsius(0));
}
"#;
    let (mut c, _) = check(src);
    let msgs = c.take_messages();
    assert!(
        msgs.is_empty(),
        "unexpected diagnostics: {:?}",
        msgs.iter().map(|m| m.message()).collect::<Vec<_>>()
    );
    let dicts = dict_lists(&c);
    let has_f = dicts.iter().any(|instances| {
        instances.iter().any(|i| {
            i.class == "Into"
                && matches!(&i.args[1], Ty::Con(n) if n == "Fahrenheit")
        })
    });
    assert!(
        has_f,
        "expected Into<..., Fahrenheit> from return pin, got: {:?}",
        dicts
    );
}

#[test]
fn binary_hkt_result_instance_discharges() {
    let src = r#"
trait Bifunctor<F: * -> * -> *> {
fn tag<A, B>(F<A, B> xs) -> int;
}
impl Bifunctor<Result> {
fn tag<A, B>(Result<A, B> xs) -> int { return 42; }
}
fn get_tag<F: * -> * -> *, Bifunctor, A, B>(F<A, B> xs) -> int {
return tag(xs);
}
fn main() { let x = get_tag(Result::Ok(7)); }
"#;
    let (mut c, _) = check(src);
    let msgs = c.take_messages();
    assert!(
        msgs.iter().all(|m| !m.message().contains("Cannot satisfy")
            && !m.message().contains("No instance")
            && !m.message().contains("constructor-kinded")),
        "unexpected diagnostics: {:?}",
        msgs.iter().map(|m| m.message()).collect::<Vec<_>>()
    );
}

#[test]
fn binary_hkt_rejects_wrong_arity_constructor_instance() {
    let src = r#"
trait Bifunctor<F: * -> * -> *> {
fn tag<A, B>(F<A, B> xs) -> int;
}
impl Bifunctor<Option> {
fn tag<A, B>(Option<A> xs) -> int { return 0; }
}
"#;
    let (mut c, _) = check(src);
    let msgs = c.take_messages();
    assert!(
        msgs.iter().any(|m| m
            .message()
            .contains("expects argument 1 to have kind `* -> * -> *`, found kind `* -> *`")),
        "expected binary constructor-kind mismatch, got: {:?}",
        msgs.iter().map(|m| m.message()).collect::<Vec<_>>()
    );
}

#[test]
fn binder_bound_desugars_to_unary_constraint() {
    let src = r#"
fn add<T: Num>(T a, T b) -> T { return a + b; }
"#;
    let (c, _) = check(src);
    let scheme = c.env().lookup("add").expect("add scheme");
    assert_eq!(scheme.constraints.len(), 1);
    assert_eq!(scheme.constraints[0].class, "Num");
    assert_eq!(scheme.constraints[0].args.len(), 1);
    assert!(matches!(
        scheme.constraints[0].args[0],
        Ty::Var(v) if scheme.bounds.contains(&v)
    ));
}

#[test]
fn assoc_type_head_returns_int_at_ground_call() {
    let src = r#"
trait Collect<C> {
type Elem;
fn head(C xs) -> Elem;
}
impl Collect<Option<int>> {
type Elem = int;
fn head(Option<int> xs) -> int {
    return match xs {
        Option::Some(v) => v,
        Option::None => 0,
    };
}
}
fn take_head<C: Collect>(C xs) -> C::Elem {
return head(xs);
}
fn main() {
let x = take_head(Option::Some(42));
}
"#;
    let (mut c, _) = check(src);
    let msgs = c.take_messages();
    assert!(
        msgs.is_empty(),
        "unexpected diagnostics: {:?}",
        msgs.iter().map(|m| m.message()).collect::<Vec<_>>()
    );
    let x_ty = c
        .codegen_var_type("x")
        .cloned()
        .or_else(|| c.env().lookup("x").map(|s| apply_ty(c.subst(), &s.ty)));
    let x_ty = x_ty.expect("x should be bound");
    let x_ty = apply_ty(c.subst(), &x_ty);
    assert!(
        matches!(x_ty, Ty::Con(ref n) if n == "int") || x_ty == int_ty(),
        "expected take_head(...) : int, got {:?}",
        x_ty
    );
}

#[test]
fn assoc_type_open_projection_under_bound_is_ok() {
    let src = r#"
trait Collect<C> {
type Elem;
fn head(C xs) -> Elem;
}
fn peek<T: Collect>(T xs) -> T::Elem {
return head(xs);
}
"#;
    let (mut c, _) = check(src);
    let msgs = c.take_messages();
    assert!(
        msgs.iter().all(|m| !m.message().contains("Cannot find")
            && !m.message().contains("Unknown associated")
            && !m.message().contains("Cannot resolve type projection")),
        "open projection should resolve under Collect bound: {:?}",
        msgs.iter().map(|m| m.message()).collect::<Vec<_>>()
    );
    let scheme = c.env().lookup("peek").expect("peek scheme");
    assert_eq!(scheme.constraints.len(), 1);
    assert_eq!(scheme.constraints[0].class, "Collect");
}

#[test]
fn gat_decl_records_params_and_kind() {
    let src = r#"
trait Pointer<P: * -> *> {
type Ref<T>;
fn deref<T>(P<T> ptr) -> Ref<T>;
}
"#;
    let (mut c, _) = check(src);
    let msgs = c.take_messages();
    assert!(
        msgs.is_empty(),
        "unexpected diagnostics: {:?}",
        msgs.iter().map(|m| m.message()).collect::<Vec<_>>()
    );
    let class = c.generics().typeclass("Pointer").expect("Pointer class");
    let assoc = class.assoc_type("Ref").expect("Ref assoc type");
    assert_eq!(assoc.params, vec!["T".to_string()]);
    assert_eq!(assoc.param_kinds, vec![Kind::Type]);
    assert_eq!(assoc.kind(), Kind::arrow(Kind::Type, Kind::Type));
}

#[test]
fn gat_method_scheme_quantifies_applied_projection() {
    let src = r#"
trait Pointer<P: * -> *> {
type Ref<T>;
fn deref<T>(P<T> ptr) -> Ref<T>;
}
"#;
    let (mut c, _) = check(src);
    let msgs = c.take_messages();
    assert!(msgs.is_empty(), "unexpected: {:?}", msgs);
    let scheme = c
        .typeclass_method_scheme("Pointer", "deref")
        .expect("deref scheme");
    assert_eq!(scheme.assoc_projections.len(), 1);
    assert_eq!(scheme.assoc_projections[0].name, "Ref");
    assert_eq!(scheme.assoc_projections[0].args.len(), 1);
    assert!(
        scheme.bounds.contains(&scheme.assoc_projections[0].var),
        "projection variable must be quantified by the method scheme"
    );
}

#[test]
fn gat_open_projection_under_bound_is_ok() {
    let src = r#"
trait Pointer<P: * -> *> {
type Ref<T>;
fn deref<T>(P<T> ptr) -> Ref<T>;
}

impl Pointer<Option> {
type Ref<T> = T;
fn deref<T>(Option<T> ptr) -> T {
    return match ptr {
        Option::Some(v) => v,
        Option::None => 0,
    };
}
}

fn get<P: * -> *, Pointer, A>(P<A> ptr) -> P::Ref<A> {
return deref(ptr);
}
fn main() { let x = get(Option::Some(42)); }
"#;
    let (mut c, _) = check(src);
    let msgs = c.take_messages();
    assert!(
        msgs.is_empty(),
        "unexpected diagnostics: {:?}",
        msgs.iter().map(|m| m.message()).collect::<Vec<_>>()
    );
    assert_eq!(
        c.codegen_var_type("x")
            .map(|t| apply_ty(c.subst(), t)),
        Some(int_ty())
    );
}

#[test]
fn gat_projection_wrong_arity_errors() {
    let src = r#"
trait Pointer<P: * -> *> {
type Ref<T>;
fn deref<T>(P<T> ptr) -> Ref<T>;
}
fn bad<P: * -> *, Pointer, A>(P<A> ptr) -> P::Ref<A, int> {
return deref(ptr);
}
"#;
    let (_c, msgs) = check_warn(src);
    assert!(
        msgs.iter().any(|m| m
            .message()
            .contains("Associated type `Pointer::Ref` expects 1 type argument, got 2")),
        "expected GAT arity diagnostic, got: {:?}",
        msgs.iter().map(|m| m.message()).collect::<Vec<_>>()
    );
}

#[test]
fn gat_projection_kind_mismatch_errors() {
    let src = r#"
trait Pointer<P: * -> *> {
type Ref<F: * -> *>;
fn bad<T>(P<T> ptr) -> Ref<T>;
}
"#;
    let (_c, msgs) = check_warn(src);
    assert!(
        msgs.iter().any(|m| {
            let msg = m.message();
            msg.contains("Type argument 1 to associated type `Pointer::Ref`")
                && msg.contains("kind `*`")
                && msg.contains("expected `* -> *`")
        }),
        "expected GAT kind diagnostic, got: {:?}",
        msgs.iter().map(|m| m.message()).collect::<Vec<_>>()
    );
}

#[test]
fn byte_annotation_accepts_in_range_literal() {
    let (mut c, _) = check("let b: byte = 42;");
    let msgs = c.take_messages();
    assert!(msgs.is_empty(), "{:?}", msgs);
    assert_eq!(
        c.codegen_var_type("b")
            .map(|t| apply_ty(c.subst(), t)),
        Some(byte())
    );
}

#[test]
fn byte_annotation_rejects_out_of_range_literal() {
    let msgs = assert_messages("let b: byte = 300;");
    assert!(
        msgs.iter()
            .any(|m| m.message().contains("byte literal out of range")),
        "got: {:?}",
        msgs.iter().map(|m| m.message()).collect::<Vec<_>>()
    );
}

#[test]
fn byte_array_literal_coerces_from_int_literals() {
    let (mut c, _) = check("let buf: [byte] = [1, 2, 3];");
    let msgs = c.take_messages();
    assert!(msgs.is_empty(), "{:?}", msgs);
    let ty = c
        .codegen_var_type("buf")
        .map(|t| apply_ty(c.subst(), t))
        .expect("buf");
    match ty {
        Ty::Array { element, .. } => {
            assert_eq!(*element, byte());
        }
        other => panic!("expected [byte], got {:?}", other),
    }
}

#[test]
fn byte_has_show_instance() {
    assert!(
        Checker::new()
            .reg.generics
            .has_instance("Show", &byte())
    );
}

#[test]
fn write_all_accepts_named_byte_array() {
    let (mut c, _) = check(
        r#"
use io::*;
fn main() {
let data: [byte] = [1, 2];
write_all(stdin(), data);
}
"#,
    );
    let msgs = c.take_messages();
    assert!(
        msgs.is_empty(),
        "unexpected messages: {:?}",
        msgs.iter().map(|m| m.message()).collect::<Vec<_>>()
    );
}

#[test]
fn io_error_other_does_not_collide_until_imported() {
    let (mut c, _) = check("enum Foo { Bar, Other } let x = Foo::Other;");
    let msgs = c.take_messages();
    assert!(
        msgs.is_empty(),
        "unexpected without io import: {:?}",
        msgs.iter().map(|m| m.message()).collect::<Vec<_>>()
    );

    let (mut c, _) = check("use io::*; let e = IoError::Other;");
    let msgs = c.take_messages();
    assert!(
        msgs.is_empty(),
        "unexpected with io import: {:?}",
        msgs.iter().map(|m| m.message()).collect::<Vec<_>>()
    );
}

#[test]
fn write_all_rejects_unannotated_int_array_variable() {
    let msgs = assert_messages(
        r#"
use io::*;
fn main() {
let data = [1, 2];
write_all(stdin(), data);
}
"#,
    );
    assert!(
        msgs.iter()
            .any(|m| m.message().contains("expected `byte`")
                || m.message().contains("Type mismatch")),
        "got: {:?}",
        msgs.iter().map(|m| m.message()).collect::<Vec<_>>()
    );
}

fn count_nodes(src: &str) -> usize {
    let ast = parse(src);
    let mut table = IdTable::new();
    pre_walk(&ast, &mut table);
    table.len()
}

#[test]
fn pre_walk_mints_one_id_per_node_for_simple_expr() {
    assert_eq!(count_nodes("1 + 2;"), 7);
}

#[test]
fn pre_walk_assigns_unique_ids_in_visit_order() {
    let ast = parse("42;");
    let mut table = IdTable::new();
    pre_walk(&ast, &mut table);
    let ids = table.ids();
    for pair in ids.windows(2) {
        assert_ne!(pair[0], pair[1]);
    }
    assert_eq!(ids[0], NodeId(0));
    assert_eq!(ids[ids.len() - 1], NodeId((ids.len() - 1) as u32));
}

#[test]
fn pre_walk_handles_shared_spans_with_distinct_ids() {
    let ast = parse("42;");
    let mut table = IdTable::new();
    pre_walk(&ast, &mut table);
    assert!(table.len() >= 3);
    let mut seen = std::collections::HashSet::new();
    for id in table.ids() {
        assert!(seen.insert(*id), "duplicate ID: {:?}", id);
    }
}

#[test]
fn every_error_has_its_code() {
    let cases = [
        ("match 1 { };", ErrorCode::GenericTypeError),
        ("class P { x: int } fn main() { let p = new P(1); p.z; }", ErrorCode::UnknownField),
        ("let x: int = \"a\";", ErrorCode::TypeMismatch),
        ("push(1);", ErrorCode::ConstructorArity),
        ("x;", ErrorCode::UnknownValue),
        ("print \"%i\", \"s\";", ErrorCode::FormatSpecifierMismatch),
        (
            "fn f() -> Option<int> { raise \"e\"; return Option::None; }",
            ErrorCode::ConflictingErrorType,
        ),
        ("fn f() -> int { return 1?; }", ErrorCode::InvalidTry),
        ("1 = 2;", ErrorCode::InvalidAssignment),
        ("foo();", ErrorCode::UnknownFunction),
        ("let a = [1]; a[3];", ErrorCode::IndexOutOfBounds),
        ("let d = { a: 1, a: 2 };", ErrorCode::DuplicateField),
        ("enum A { X } enum A { Y }", ErrorCode::DuplicateEnum),
        ("use ffi::*; declare(1);", ErrorCode::DeclareArity),
        ("fn main() { yield 1; }", ErrorCode::YieldOutsideAsync),
        ("Nope::A(1);", ErrorCode::UnknownEnum),
        ("Option::Some { x: 1 };", ErrorCode::PayloadShapeMismatch),
        ("let x = 1; x.go();", ErrorCode::NotAFunction),
        ("enum P { P { x: int, y: int } } let p = P::P { x: 1 };", ErrorCode::MissingField),
        ("use ffi::*; invoke(1);", ErrorCode::InvokeArity),
        ("let r = Result::Ok({ v: 1 }); r?.v;", ErrorCode::InvalidOptionalAccess),
        ("let x = 1 ?? 2;", ErrorCode::InvalidCoalesce),
        (
            "match Option::Some(1) { Option::None => 0, Option::None => 1, _ => 2 };",
            ErrorCode::UnreachableArm,
        ),
        ("Option::Nope(1)", ErrorCode::UnknownVariant),
        ("match Option::Some(1) { Foo::Bar => 1, _ => 0 };", ErrorCode::UnknownConstructorPattern),
        ("undeclared = 1;", ErrorCode::UndeclaredAssignment),
        ("match Option::Some(1) { Option::None => 0 };", ErrorCode::NonExhaustiveMatch),
        ("use ffi::*; declare(1, \"f\", (1, 2), 5);", ErrorCode::InvalidFfiType),
        ("let f; f = [f];", ErrorCode::InfiniteType),
        ("enum A { F } enum B { F }", ErrorCode::DuplicateConstructor),
        ("let x = 5; x[0];", ErrorCode::CannotIndex),
    ];
    for (src, code) in cases {
        let (c, _) = check(src);
        assert!(
            c.messages().iter().any(|m| m.code() == code),
            "expected {:?} for `{}`, got {:?}",
            code,
            src,
            c.messages()
        );
    }
}

#[test]
fn builtin_bounds_take_no_dictionary_slot() {
    let (mut c, _) = check("fn add<T: Num>(T a, T b) -> T { return a + b; }");
    assert!(c.take_messages().is_empty());
    assert!(c.is_generic_fn("add"));
    assert_eq!(c.dict_arity_for("add"), 0);
    assert_eq!(c.dict_arity_for("nothing"), 0);
}

#[test]
fn user_bounds_take_a_dictionary_slot_each() {
    let (mut c, _) = check(
        r#"
trait Named<T> { fn label(T a) -> string; }
trait Sized2<T> { fn extent(T a) -> int; }
fn plain<T>(T a) -> T { return a; }
fn one<T: Named>(T a) -> T { return a; }
fn mixed<T: Num + Named + Sized2>(T a) -> T { return a; }
"#,
    );
    let msgs = c.take_messages();
    assert!(msgs.is_empty(), "{:?}", msgs.iter().map(|m| m.message()).collect::<Vec<_>>());
    assert_eq!(c.dict_arity_for("plain"), 0);
    assert_eq!(c.dict_arity_for("one"), 1);
    assert_eq!(c.dict_arity_for("mixed"), 2);
}

#[test]
fn arms_differ_by_their_first_pattern_that_tests() {
    let pair = "enum Pair { Both(int, Option<int>) } ";
    let (mut c, _) = check(&format!(
        "{}fn f(Pair p) -> int {{ return match p {{ Pair::Both(_, Option::Some(v)) => v, \
         Pair::Both(n, Option::None) => n }}; }}",
        pair
    ));
    let msgs = c.take_messages();
    assert!(msgs.is_empty(), "{:?}", msgs.iter().map(|m| m.message()).collect::<Vec<_>>());
    let (mut c, _) = check(&format!(
        "{}fn f(Pair p) -> int {{ return match p {{ Pair::Both(_, Option::Some(v)) => v, \
         Pair::Both(n, Option::Some(w)) => n + w }}; }}",
        pair
    ));
    let msgs = c.take_messages();
    assert_eq!(msgs.len(), 1);
    assert_eq!(msgs[0].code(), ErrorCode::UnreachableArm);
}

#[test]
fn a_host_names_its_io_errors() {
    let src = "use io::*; let e = IoError::TimedOut;";
    let (mut c, _) = check(src);
    assert!(!c.take_messages().is_empty());
    let mut c = Checker::new();
    c.set_io_error_variants(vec!["TimedOut".to_string(), "Other".to_string()]);
    let _ = c.check_program(&parse(src));
    assert!(c.take_messages().is_empty());
    assert_eq!(c.tag_for("IoError", "Other"), Some(1));
}

#[test]
fn functions_that_return_options_are_known() {
    let (mut c, _) = check(
        r#"
fn stated(int a) -> Option<int> { return Option::Some(a); }
fn inferred(int a) { return Option::Some(a); }
fn tried(int a) { let b = stated(a)?; return Option::Some(b); }
fn other(int a) { return a; }
"#,
    );
    let msgs = c.take_messages();
    assert!(msgs.is_empty(), "{:?}", msgs.iter().map(|m| m.message()).collect::<Vec<_>>());
    assert!(c.fn_is_option_mode("stated"));
    assert!(c.fn_is_option_mode("inferred"));
    assert!(c.fn_is_option_mode("tried"));
    assert!(!c.fn_is_option_mode("other"));
    assert!(!c.fn_is_result_mode("stated"));
}
