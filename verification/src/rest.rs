//! HTTP requests to make and the answers to them, as plain values.
use vstd::prelude::*;

use crate::outside::{status_reason, status_text};
use crate::text::decimal;

verus! {

/// The HTTP methods that the adapters use.
#[derive(Clone, Copy, Debug, PartialEq, Eq, Structural)]
pub enum Verb {
    Get,
    Post,
    Put,
}

/// The value of a field of a JSON object.
#[derive(Clone, Debug, PartialEq, Eq)]
pub enum JsonField {
    Text(String),
    Flag(bool),
}

/// The model of a [`JsonField`].
pub enum JsonFieldView {
    Text(Seq<char>),
    Flag(bool),
}

impl View for JsonField {
    type V = JsonFieldView;

    open spec fn view(&self) -> JsonFieldView {
        match self {
            JsonField::Text(text) => JsonFieldView::Text(text@),
            JsonField::Flag(flag) => JsonFieldView::Flag(*flag),
        }
    }
}

/// The fields of a JSON object, by name.
pub open spec fn fields_view(fields: Seq<(String, JsonField)>) -> Seq<(Seq<char>, JsonFieldView)> {
    Seq::new(fields.len(), |i: int| (fields[i].0@, fields[i].1@))
}

/// A request to make, with the token to authenticate by and the JSON object to send, if any.
#[derive(Clone, Debug, PartialEq, Eq)]
pub struct HttpRequest {
    pub verb: Verb,
    pub url: String,
    /// Sent as `Authorization: Bearer`.
    pub bearer: String,
    pub json: Option<Vec<(String, JsonField)>>,
}

/// The model of an [`HttpRequest`].
pub struct HttpRequestView {
    pub verb: Verb,
    pub url: Seq<char>,
    pub bearer: Seq<char>,
    pub json: Option<Seq<(Seq<char>, JsonFieldView)>>,
}

impl View for HttpRequest {
    type V = HttpRequestView;

    open spec fn view(&self) -> HttpRequestView {
        HttpRequestView {
            verb: self.verb,
            url: self.url@,
            bearer: self.bearer@,
            json: match self.json {
                Some(fields) => Some(fields_view(fields@)),
                None => None,
            },
        }
    }
}

/// The status code of an answer: three digits.
#[derive(Clone, Copy, Debug, PartialEq, Eq)]
pub struct HttpStatus {
    code: u16,
}

impl HttpStatus {
    #[verifier::type_invariant]
    spec fn has_three_digits(self) -> bool {
        100 <= self.code < 1000
    }

    /// The number of a status.
    pub closed spec fn number(self) -> u16 {
        self.code
    }

    /// Whether a status says that the request succeeded.
    pub open spec fn succeeded(self) -> bool {
        200 <= self.number() < 300
    }

    /// The status in words: its number, a space and its reason phrase.
    pub open spec fn words(self) -> Seq<char> {
        decimal(self.number() as nat) + " "@ + status_reason(self.number())
    }

    /// The status with the given number, unless it does not have three digits.
    pub fn new(code: u16) -> (status: Option<HttpStatus>)
        ensures
            match status {
                Some(s) => 100 <= code < 1000 && s.number() == code,
                None => !(100 <= code < 1000),
            },
    {
        if 100 <= code && code < 1000 {
            Some(HttpStatus { code })
        } else {
            None
        }
    }

    /// The number of this status.
    pub fn code(&self) -> (code: u16)
        ensures
            code == self.number(),
            100 <= code < 1000,
    {
        proof {
            use_type_invariant(self);
        }
        self.code
    }

    /// Whether the request succeeded.
    pub fn is_success(&self) -> (success: bool)
        ensures
            success == self.succeeded(),
    {
        200 <= self.code && self.code < 300
    }

    /// This status in words.
    pub fn to_text(&self) -> (text: String)
        ensures
            text@ == self.words(),
    {
        status_text(self.code())
    }
}

/// What came of a request.
#[derive(Clone, Debug, PartialEq, Eq)]
pub enum HttpOutcome {
    /// It could not be sent, or no answer came.
    Unanswered,
    /// An answer came; its body is absent when it could not be read as text.
    Answered { status: HttpStatus, body: Option<String> },
}

} // verus!
