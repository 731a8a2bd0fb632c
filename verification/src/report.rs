//! Diagnostics.
use crate::maps::MapKey;
use vstd::prelude::*;

verus! {

/// A stretch of source text.
#[derive(Debug, Clone, Copy, PartialEq, Eq, Structural, Hash)]
pub struct Span {
    pub start: usize,
    pub end: usize,
}

impl DeepView for Span {
    type V = Span;

    open spec fn deep_view(&self) -> Span {
        *self
    }
}

impl MapKey for Span {
    type Probe = Span;

    open spec fn probe(p: &Span) -> Span {
        *p
    }

    fn matches(&self, p: &Span) -> (r: bool) {
        self.start == p.start && self.end == p.end
    }

    fn as_probe(&self) -> (p: &Span) {
        self
    }
}

/// What a diagnostic is about.
#[derive(Debug, Clone, Copy, PartialEq, Eq, Structural)]
pub enum ErrorCode {
    GenericTypeError,
    UnknownField,
    TypeMismatch,
    ConstructorArity,
    UnknownValue,
    FormatSpecifierMismatch,
    ConflictingErrorType,
    InvalidTry,
    InvalidAssignment,
    UnknownFunction,
    IndexOutOfBounds,
    DuplicateField,
    DuplicateEnum,
    DeclareArity,
    YieldOutsideAsync,
    UnknownEnum,
    PayloadShapeMismatch,
    NotAFunction,
    MissingField,
    InvokeArity,
    InvalidOptionalAccess,
    InvalidCoalesce,
    UnreachableArm,
    UnknownVariant,
    UnknownConstructorPattern,
    UndeclaredAssignment,
    NonExhaustiveMatch,
    InvalidFfiType,
    InfiniteType,
    DuplicateConstructor,
    CannotIndex,
}

/// A note on a stretch of source text.
#[derive(Debug)]
pub struct Label {
    pub text: String,
    pub range: Span,
}

/// The model of a [`Label`].
#[verifier::ext_equal]
pub struct LabelV {
    pub text: Seq<char>,
    pub range: Span,
}

impl View for Label {
    type V = LabelV;

    open spec fn view(&self) -> LabelV {
        LabelV { text: self.text@, range: self.range }
    }
}

impl DeepView for Label {
    type V = LabelV;

    open spec fn deep_view(&self) -> LabelV {
        self@
    }
}

impl Label {
    pub fn new(text: String, range: Span) -> (r: Self)
        ensures
            r@ == (LabelV { text: text@, range }),
    {
        Label { text, range }
    }
}

/// One diagnostic.
#[derive(Debug)]
pub struct Message {
    code: ErrorCode,
    text: String,
    range: Span,
    help: Option<String>,
    labels: Vec<Label>,
}

/// The model of a [`Message`].
#[verifier::ext_equal]
pub struct MessageV {
    pub code: ErrorCode,
    pub text: Seq<char>,
    pub range: Span,
    pub help: Option<Seq<char>>,
    pub labels: Seq<LabelV>,
}

impl View for Message {
    type V = MessageV;

    closed spec fn view(&self) -> MessageV {
        MessageV {
            code: self.code,
            text: self.text@,
            range: self.range,
            help: match self.help {
                Some(h) => Some(h@),
                None => None,
            },
            labels: self.labels.deep_view(),
        }
    }
}

impl DeepView for Message {
    type V = MessageV;

    open spec fn deep_view(&self) -> MessageV {
        self@
    }
}

impl MessageV {
    /// A diagnostic without help and labels.
    pub open spec fn error(code: ErrorCode, text: Seq<char>, range: Span) -> MessageV {
        MessageV { code, text, range, help: None, labels: Seq::empty() }
    }

    pub open spec fn helped(self, help: Seq<char>) -> MessageV {
        MessageV { help: Some(help), ..self }
    }

    pub open spec fn labelled(self, text: Seq<char>, range: Span) -> MessageV {
        MessageV { labels: self.labels.push(LabelV { text, range }), ..self }
    }
}

impl Message {
    pub fn error(code: ErrorCode, text: String, range: Span) -> (r: Self)
        ensures
            r@ == MessageV::error(code, text@, range),
    {
        let r = Message { code, text, range, help: None, labels: Vec::new() };
        assert(r@ =~= MessageV::error(code, text@, range));
        r
    }

    pub fn with_help(&mut self, help: String)
        ensures
            final(self)@ == old(self)@.helped(help@),
    {
        self.help = Some(help);
    }

    pub fn push(&mut self, label: Label)
        ensures
            final(self)@ == old(self)@.labelled(label@.text, label@.range),
    {
        self.labels.push(label);
        assert(self@ =~= old(self)@.labelled(label@.text, label@.range));
    }

    pub fn message(&self) -> (r: &str)
        ensures
            r@ == self@.text,
    {
        self.text.as_str()
    }

    pub fn code(&self) -> (r: ErrorCode)
        ensures
            r == self@.code,
    {
        self.code
    }

    pub fn range(&self) -> (r: Span)
        ensures
            r == self@.range,
    {
        self.range
    }

    pub fn help(&self) -> (r: Option<&str>)
        ensures
            match r {
                Some(h) => self@.help == Some(h@),
                None => self@.help is None,
            },
    {
        match &self.help {
            Some(h) => Some(h.as_str()),
            None => None,
        }
    }

    pub fn labels(&self) -> (r: &Vec<Label>)
        ensures
            r.deep_view() == self@.labels,
    {
        &self.labels
    }
}

} // verus!
