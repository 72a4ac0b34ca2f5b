//! What the service answers: the outcome's tag on the wire, the body of a
//! rejection, and which of the two an evaluation leads to.

use vstd::prelude::*;
use crate::evaluate::{compute, spec_compute};
use crate::types::{ErrorMessage, EvaluationError, Field, Output, Params, Refusal, H};

verus! {

/// The status code of a rejected record, and of a body that is no record.
pub const BAD_REQUEST: u16 = 400;

/// The status code for a path that is not served.
pub const NOT_FOUND: u16 = 404;

/// The status code for a method that the path is not served with.
pub const METHOD_NOT_ALLOWED: u16 = 405;

impl View for ErrorMessage {
    type V = (u16, Seq<char>);

    /// The status code and the characters of the message.
    open spec fn view(&self) -> (u16, Seq<char>) {
        (self.code, self.message@)
    }
}

/// The message for a combination of flags that no rule covers.
pub const UNSUPPORTED: &'static str = "Wrong params: set of parameters is not supported";

/// The message for a record that lacks `d`.
pub const NO_D: &'static str = "Wrong params: no D param";

/// The message for a record that lacks `e`.
pub const NO_E: &'static str = "Wrong params: no E param";

/// The message for a record that lacks `f`.
pub const NO_F: &'static str = "Wrong params: no F param";

/// The message for a body that is no record.
pub const MALFORMED: &'static str = "Invalid params format";

/// The message for a path that is not served.
pub const UNKNOWN_PATH: &'static str = "Not found";

/// The message for a method that the path is not served with.
pub const WRONG_METHOD: &'static str = "Method not allowed";

/// The text that describes the expected parameters.
pub const HELP: &'static str =
    "API expects several of these params. If you got the error, check task description. Params { a: None, b: None, c: None, d: None, e: None, f: None, case: None }";

/// The message for an evaluation that lacked the input `field`.
pub open spec fn missing_text(field: Field) -> Seq<char> {
    match field {
        Field::D => NO_D@,
        Field::E => NO_E@,
        Field::F => NO_F@,
    }
}

/// The status code and the message with which a request is refused.
pub open spec fn spec_refusal(kind: Refusal) -> (u16, Seq<char>) {
    match kind {
        Refusal::Malformed => (BAD_REQUEST, MALFORMED@),
        Refusal::NotFound => (NOT_FOUND, UNKNOWN_PATH@),
        Refusal::MethodNotAllowed => (METHOD_NOT_ALLOWED, WRONG_METHOD@),
    }
}

/// The answer to an evaluation that gave `result`: the output itself for
/// an outcome `M`, `P` or `T`, and otherwise the rejection, as status code
/// and message. The outcome `E` and each missing input have a message of
/// their own.
pub open spec fn spec_answer(result: Result<Output, EvaluationError>) -> Result<
    Output,
    (u16, Seq<char>),
> {
    match result {
        Ok(out) => if out.h == H::E {
            Err((BAD_REQUEST, UNSUPPORTED@))
        } else {
            Ok(out)
        },
        Err(EvaluationError::MissingField(field)) => Err((BAD_REQUEST, missing_text(field))),
    }
}

impl ErrorMessage {
    /// The rejection of a combination of flags that no rule covers.
    pub fn unsupported() -> (r: ErrorMessage)
        ensures
            r@ == (BAD_REQUEST, UNSUPPORTED@),
    {
        ErrorMessage { code: BAD_REQUEST, message: UNSUPPORTED.to_owned() }
    }

    /// The body with which a request is refused before any evaluation:
    /// status 400 for a body that is no record, 404 for a path that is not
    /// served, 405 for a method that the path is not served with.
    pub fn refusal(kind: Refusal) -> (r: ErrorMessage)
        ensures
            r@ == spec_refusal(kind),
    {
        match kind {
            Refusal::Malformed => ErrorMessage { code: BAD_REQUEST, message: MALFORMED.to_owned() },
            Refusal::NotFound => ErrorMessage { code: NOT_FOUND, message: UNKNOWN_PATH.to_owned() },
            Refusal::MethodNotAllowed => ErrorMessage {
                code: METHOD_NOT_ALLOWED,
                message: WRONG_METHOD.to_owned(),
            },
        }
    }

    /// The rejection of a record that lacks the input `field`.
    pub fn missing_field(field: Field) -> (r: ErrorMessage)
        ensures
            r@ == (BAD_REQUEST, missing_text(field)),
    {
        let message = match field {
            Field::D => NO_D,
            Field::E => NO_E,
            Field::F => NO_F,
        };
        ErrorMessage { code: BAD_REQUEST, message: message.to_owned() }
    }
}

/// Evaluates the record `data` and decides the answer.
///
/// The answer is the output, to be sent with status 200, exactly when the
/// evaluation succeeds with an outcome `M`, `P` or `T`. It is a rejection
/// with status 400 when the flags match no rule, and also when a numeric
/// input that is needed is absent; the message tells the two apart and
/// names the input.
pub fn compute_factory(data: &Params) -> (r: Result<Output, ErrorMessage>)
    ensures
        match spec_answer(spec_compute(*data)) {
            Ok(out) => r == Ok::<Output, ErrorMessage>(out),
            Err(rejection) => r is Err && r->Err_0@ == rejection,
        },
{
    match compute(data) {
        Ok(out) => match out.h {
            H::E => Err(ErrorMessage::unsupported()),
            _ => Ok(out),
        },
        Err(EvaluationError::MissingField(field)) => Err(ErrorMessage::missing_field(field)),
    }
}

/// The text that describes the expected parameters.
pub fn help() -> (r: String)
    ensures
        r@ == HELP@,
{
    HELP.to_owned()
}

impl H {
    /// The tag that stands for the outcome on the wire.
    pub open spec fn spec_tag(self) -> Seq<char> {
        match self {
            H::M => seq!['M'],
            H::P => seq!['P'],
            H::T => seq!['T'],
            H::E => seq!['E'],
        }
    }

    /// The outcome that the tag `s` stands for, if any.
    pub open spec fn spec_from_tag(s: Seq<char>) -> Option<H> {
        if s == seq!['M'] {
            Some(H::M)
        } else if s == seq!['P'] {
            Some(H::P)
        } else if s == seq!['T'] {
            Some(H::T)
        } else if s == seq!['E'] {
            Some(H::E)
        } else {
            None
        }
    }

    /// The tag that stands for the outcome on the wire: the one letter of
    /// its name.
    pub fn tag(&self) -> (r: &'static str)
        ensures
            r@ == self.spec_tag(),
    {
        proof {
            reveal_strlit("M");
            reveal_strlit("P");
            reveal_strlit("T");
            reveal_strlit("E");
        }
        match self {
            H::M => "M",
            H::P => "P",
            H::T => "T",
            H::E => "E",
        }
    }

    /// Reads a tag back: the outcome that `s` stands for, or `None` where
    /// `s` is no tag.
    pub fn from_tag(s: &str) -> (r: Option<H>)
        ensures
            r == H::spec_from_tag(s@),
    {
        if s.unicode_len() != 1 {
            return None;
        }
        let c = s.get_char(0);
        assert(s@ =~= seq![c]);
        if c == 'M' {
            Some(H::M)
        } else if c == 'P' {
            Some(H::P)
        } else if c == 'T' {
            Some(H::T)
        } else if c == 'E' {
            Some(H::E)
        } else {
            None
        }
    }
}

} // verus!
