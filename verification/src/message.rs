//! The parts of IMAP messages that the proxy reads or writes.
//!
//! Everything else of a message travels in a payload type parameter, which
//! the routing code hands on without looking inside.

use crate::text::Text;
use vstd::prelude::*;

verus! {

/// The capability tokens held by a list, each by its characters.
pub open spec fn tokens_view(tokens: Seq<String>) -> Seq<Seq<char>> {
    tokens.map_values(|token: String| token@)
}

/// A response code. `X` stands for every code the proxy passes through.
#[derive(Clone, Debug, PartialEq, Eq)]
pub enum Code<X> {
    /// The text must be shown to the user.
    Alert,
    /// The advertised capabilities, one token each.
    Capability(Vec<String>),
    /// Any other code.
    Other(X),
}

pub enum CodeView<X> {
    Alert,
    Capability(Seq<Seq<char>>),
    Other(X),
}

impl<X> View for Code<X> {
    type V = CodeView<X>;

    open spec fn view(&self) -> CodeView<X> {
        match self {
            Code::Alert => CodeView::Alert,
            Code::Capability(tokens) => CodeView::Capability(tokens_view(tokens@)),
            Code::Other(other) => CodeView::Other(*other),
        }
    }
}

/// The view of an optional code.
pub open spec fn code_view<X>(code: Option<Code<X>>) -> Option<CodeView<X>> {
    match code {
        Some(code) => Some(code@),
        None => None,
    }
}

/// The kind of a status response that is not `BYE`.
#[derive(Clone, Copy, Debug, PartialEq, Eq, Structural)]
pub enum StatusKind {
    Okay,
    No,
    Bad,
}

/// A status response.
#[derive(Clone, Debug, PartialEq, Eq)]
pub enum Status<X> {
    Untagged { kind: StatusKind, code: Option<Code<X>>, text: Text },
    Tagged { tag: String, kind: StatusKind, code: Option<Code<X>>, text: Text },
    Bye { code: Option<Code<X>>, text: Text },
}

pub enum StatusView<X> {
    Untagged { kind: StatusKind, code: Option<CodeView<X>>, text: Seq<char> },
    Tagged { tag: Seq<char>, kind: StatusKind, code: Option<CodeView<X>>, text: Seq<char> },
    Bye { code: Option<CodeView<X>>, text: Seq<char> },
}

impl<X> View for Status<X> {
    type V = StatusView<X>;

    open spec fn view(&self) -> StatusView<X> {
        match self {
            Status::Untagged { kind, code, text } => StatusView::Untagged {
                kind: *kind,
                code: code_view(*code),
                text: text@,
            },
            Status::Tagged { tag, kind, code, text } => StatusView::Tagged {
                tag: tag@,
                kind: *kind,
                code: code_view(*code),
                text: text@,
            },
            Status::Bye { code, text } => StatusView::Bye { code: code_view(*code), text: text@ },
        }
    }
}

impl<X> StatusView<X> {
    /// The response code, if the status carries one.
    pub open spec fn code(self) -> Option<CodeView<X>> {
        match self {
            StatusView::Untagged { code, .. } => code,
            StatusView::Tagged { code, .. } => code,
            StatusView::Bye { code, .. } => code,
        }
    }

    /// The human-readable text.
    pub open spec fn text(self) -> Seq<char> {
        match self {
            StatusView::Untagged { text, .. } => text,
            StatusView::Tagged { text, .. } => text,
            StatusView::Bye { text, .. } => text,
        }
    }

    /// The same status with another code.
    pub open spec fn with_code(self, code: Option<CodeView<X>>) -> StatusView<X> {
        match self {
            StatusView::Untagged { kind, text, .. } => StatusView::Untagged { kind, code, text },
            StatusView::Tagged { tag, kind, text, .. } => StatusView::Tagged {
                tag,
                kind,
                code,
                text,
            },
            StatusView::Bye { text, .. } => StatusView::Bye { code, text },
        }
    }
}

impl<X> Status<X> {
    /// The response code, if the status carries one.
    pub fn code(&self) -> (code: &Option<Code<X>>)
        ensures
            code_view(*code) == self@.code(),
    {
        match self {
            Status::Untagged { code, .. } => code,
            Status::Tagged { code, .. } => code,
            Status::Bye { code, .. } => code,
        }
    }

    /// The human-readable text.
    pub fn text(&self) -> (text: &Text)
        ensures
            text@ == self@.text(),
    {
        match self {
            Status::Untagged { text, .. } => text,
            Status::Tagged { text, .. } => text,
            Status::Bye { text, .. } => text,
        }
    }

    /// A tagged `BAD` status.
    pub fn bad(tag: String, code: Option<Code<X>>, text: Text) -> (status: Status<X>)
        ensures
            status@ == (StatusView::Tagged {
                tag: tag@,
                kind: StatusKind::Bad,
                code: code_view(code),
                text: text@,
            }),
    {
        Status::Tagged { tag, kind: StatusKind::Bad, code, text }
    }
}

/// The kind of a greeting.
#[derive(Clone, Copy, Debug, PartialEq, Eq, Structural)]
pub enum GreetingKind {
    Okay,
    PreAuth,
    Bye,
}

/// The first message of a server.
#[derive(Clone, Debug, PartialEq, Eq)]
pub struct Greeting<X> {
    pub kind: GreetingKind,
    pub code: Option<Code<X>>,
    pub text: Text,
}

pub struct GreetingView<X> {
    pub kind: GreetingKind,
    pub code: Option<CodeView<X>>,
    pub text: Seq<char>,
}

impl<X> View for Greeting<X> {
    type V = GreetingView<X>;

    open spec fn view(&self) -> GreetingView<X> {
        GreetingView { kind: self.kind, code: code_view(self.code), text: self.text@ }
    }
}

/// A continuation request (`+ ...`).
#[derive(Clone, Debug, PartialEq, Eq)]
pub enum ContinuationRequest<X> {
    /// An optional code and a text.
    Basic { code: Option<Code<X>>, text: Text },
    /// Binary data, sent base64-encoded.
    Base64(Vec<u8>),
}

pub enum ContinuationRequestView<X> {
    Basic { code: Option<CodeView<X>>, text: Seq<char> },
    Base64(Seq<u8>),
}

impl<X> View for ContinuationRequest<X> {
    type V = ContinuationRequestView<X>;

    open spec fn view(&self) -> ContinuationRequestView<X> {
        match self {
            ContinuationRequest::Basic { code, text } => ContinuationRequestView::Basic {
                code: code_view(*code),
                text: text@,
            },
            ContinuationRequest::Base64(data) => ContinuationRequestView::Base64(data@),
        }
    }
}

/// An untagged data response. `T` stands for every response the proxy
/// passes through.
#[derive(Clone, Debug, PartialEq, Eq)]
pub enum Data<T> {
    /// The advertised capabilities, one token each.
    Capability(Vec<String>),
    /// Any other data.
    Other(T),
}

pub enum DataView<T> {
    Capability(Seq<Seq<char>>),
    Other(T),
}

impl<T> View for Data<T> {
    type V = DataView<T>;

    open spec fn view(&self) -> DataView<T> {
        match self {
            Data::Capability(tokens) => DataView::Capability(tokens_view(tokens@)),
            Data::Other(other) => DataView::Other(*other),
        }
    }
}

/// A command as the proxy passes it upstream. `C` stands for an ordinary
/// command, `A` for `AUTHENTICATE` with its mechanism and initial response.
#[derive(Clone, Debug, PartialEq, Eq)]
pub enum Command<C, A> {
    Plain(C),
    Authenticate(A),
    Idle { tag: String },
}

pub enum CommandView<C, A> {
    Plain(C),
    Authenticate(A),
    Idle { tag: Seq<char> },
}

impl<C, A> View for Command<C, A> {
    type V = CommandView<C, A>;

    open spec fn view(&self) -> CommandView<C, A> {
        match self {
            Command::Plain(command) => CommandView::Plain(*command),
            Command::Authenticate(command) => CommandView::Authenticate(*command),
            Command::Idle { tag } => CommandView::Idle { tag: tag@ },
        }
    }
}

} // verus!
