//! Errors of the library: a kind, and where and why it arose.
use vstd::prelude::*;

verus! {

/// What went wrong.
#[derive(Clone, Copy, Debug, PartialEq, Eq, Structural)]
pub enum Kind {
    Decode,
    Builder,
    Internal,
    Request,
    Response,
    Unauthorized,
    TimedOut,
    MissingParameter,
    MalformedData,
}

/// An error: its kind, the key or path it concerns, and a message.
#[derive(Debug)]
pub struct Error {
    pub kind: Kind,
    pub key: Option<String>,
    pub msg: Option<String>,
}

pub type Result<T> = core::result::Result<T, Error>;

pub open spec fn kind_text(k: Kind) -> Seq<char> {
    match k {
        Kind::Decode => "decode error"@,
        Kind::Builder => "builder error"@,
        Kind::MissingParameter => "missing parameter"@,
        Kind::Internal => "internal error"@,
        Kind::Request => "request error"@,
        Kind::Response => "response error"@,
        Kind::Unauthorized => "unauthorized"@,
        Kind::TimedOut => "timed-out"@,
        Kind::MalformedData => "malformed data"@,
    }
}

/// The text of an error: its kind, then where it arose, then its message.
pub open spec fn description(kind: Kind, key: Option<Seq<char>>, msg: Option<Seq<char>>) -> Seq<
    char,
> {
    kind_text(kind) + match key {
        Some(k) => " at "@ + k,
        None => Seq::empty(),
    } + match msg {
        Some(m) => ": "@ + m,
        None => Seq::empty(),
    }
}

impl Error {
    /// An error of the given kind, with no key and no message.
    pub fn new(kind: Kind) -> (r: Error)
        ensures
            r.kind == kind,
            r.key is None,
            r.msg is None,
    {
        Error { kind, key: None, msg: None }
    }

    /// An error of the given kind about `key`, with a message.
    pub fn about(kind: Kind, key: &str, msg: &str) -> (r: Error)
        ensures
            r.kind == kind,
            r.key matches Some(k) && k@ == key@,
            r.msg matches Some(m) && m@ == msg@,
    {
        Error { kind, key: Some(String::from_str(key)), msg: Some(String::from_str(msg)) }
    }

    pub fn with_key(self, key: &str) -> (r: Error)
        ensures
            r.kind == self.kind,
            r.key matches Some(k) && k@ == key@,
            r.msg == self.msg,
    {
        Error { kind: self.kind, key: Some(String::from_str(key)), msg: self.msg }
    }

    pub fn without_key(self) -> (r: Error)
        ensures
            r.kind == self.kind,
            r.key is None,
            r.msg == self.msg,
    {
        Error { kind: self.kind, key: None, msg: self.msg }
    }

    pub fn with_msg(self, msg: &str) -> (r: Error)
        ensures
            r.kind == self.kind,
            r.key == self.key,
            r.msg matches Some(m) && m@ == msg@,
    {
        Error { kind: self.kind, key: self.key, msg: Some(String::from_str(msg)) }
    }

    pub fn without_msg(self) -> (r: Error)
        ensures
            r.kind == self.kind,
            r.key == self.key,
            r.msg is None,
    {
        Error { kind: self.kind, key: self.key, msg: None }
    }

    /// The same error, its key path now starting at `outer`.
    pub fn within(self, outer: &str) -> (r: Error)
        ensures
            r.kind == self.kind,
            r.msg == self.msg,
            r.key matches Some(k) && match self.key {
                Some(inner) => k@ == outer@ + "/"@ + inner@,
                None => k@ == outer@,
            },
    {
        let mut k = String::from_str(outer);
        match self.key {
            Some(inner) => {
                k.append("/");
                k.append(inner.as_str());
            },
            None => {},
        }
        Error { kind: self.kind, key: Some(k), msg: self.msg }
    }

    /// The error as text, for a reader: its kind, the key path it concerns
    /// and the expected shape.
    pub fn describe(&self) -> (r: String)
        ensures
            r@ == description(self.kind, self.key.deep_view(), self.msg.deep_view()),
    {
        let mut r = String::from_str(match self.kind {
            Kind::Decode => "decode error",
            Kind::Builder => "builder error",
            Kind::MissingParameter => "missing parameter",
            Kind::Internal => "internal error",
            Kind::Request => "request error",
            Kind::Response => "response error",
            Kind::Unauthorized => "unauthorized",
            Kind::TimedOut => "timed-out",
            Kind::MalformedData => "malformed data",
        });
        let ghost head = r@;
        match &self.key {
            Some(k) => {
                r.append(" at ");
                r.append(k.as_str());
            },
            None => {},
        }
        let ghost mid = r@;
        match &self.msg {
            Some(m) => {
                r.append(": ");
                r.append(m.as_str());
            },
            None => {},
        }
        assert(r@ =~= description(self.kind, self.key.deep_view(), self.msg.deep_view()));
        r
    }

    pub fn is_decode(&self) -> (r: bool)
        ensures
            r == (self.kind == Kind::Decode),
    {
        self.kind == Kind::Decode
    }

    pub fn is_builder(&self) -> (r: bool)
        ensures
            r == (self.kind == Kind::Builder),
    {
        self.kind == Kind::Builder
    }

    pub fn is_missing_parameter(&self) -> (r: bool)
        ensures
            r == (self.kind == Kind::MissingParameter),
    {
        self.kind == Kind::MissingParameter
    }

    pub fn is_malformed_data(&self) -> (r: bool)
        ensures
            r == (self.kind == Kind::MalformedData),
    {
        self.kind == Kind::MalformedData
    }

    pub fn is_internal(&self) -> (r: bool)
        ensures
            r == (self.kind == Kind::Internal),
    {
        self.kind == Kind::Internal
    }

    pub fn is_response(&self) -> (r: bool)
        ensures
            r == (self.kind == Kind::Response),
    {
        self.kind == Kind::Response
    }

    pub fn is_unauthorized(&self) -> (r: bool)
        ensures
            r == (self.kind == Kind::Unauthorized),
    {
        self.kind == Kind::Unauthorized
    }

    pub fn is_timedout(&self) -> (r: bool)
        ensures
            r == (self.kind == Kind::TimedOut),
    {
        self.kind == Kind::TimedOut
    }
}

} // verus!
