use vstd::prelude::*;

use crate::constants::{CAPTCHA_MESSAGE, RATE_LIMITED_MESSAGE};

verus! {

/// The character of the decimal digit `d`.
pub open spec fn digit_char(d: int) -> char {
    if d == 0 {
        '0'
    } else if d == 1 {
        '1'
    } else if d == 2 {
        '2'
    } else if d == 3 {
        '3'
    } else if d == 4 {
        '4'
    } else if d == 5 {
        '5'
    } else if d == 6 {
        '6'
    } else if d == 7 {
        '7'
    } else if d == 8 {
        '8'
    } else {
        '9'
    }
}

/// The decimal digits of `n`, without leading zeros.
pub open spec fn natural_text(n: nat) -> Seq<char>
    decreases n,
{
    if n < 10 {
        seq![digit_char(n as int)]
    } else {
        natural_text(n / 10).push(digit_char((n % 10) as int))
    }
}

/// The decimal text of `n`, with a leading `-` where it is negative.
pub open spec fn decimal_text(n: int) -> Seq<char> {
    if n < 0 {
        seq!['-'] + natural_text((-n) as nat)
    } else {
        natural_text(n as nat)
    }
}

pub(crate) fn digit_text(d: u8) -> (r: &'static str)
    requires
        d < 10,
    ensures
        r@ == seq![digit_char(d as int)],
{
    if d == 0 {
        proof { reveal_strlit("0"); }
        "0"
    } else if d == 1 {
        proof { reveal_strlit("1"); }
        "1"
    } else if d == 2 {
        proof { reveal_strlit("2"); }
        "2"
    } else if d == 3 {
        proof { reveal_strlit("3"); }
        "3"
    } else if d == 4 {
        proof { reveal_strlit("4"); }
        "4"
    } else if d == 5 {
        proof { reveal_strlit("5"); }
        "5"
    } else if d == 6 {
        proof { reveal_strlit("6"); }
        "6"
    } else if d == 7 {
        proof { reveal_strlit("7"); }
        "7"
    } else if d == 8 {
        proof { reveal_strlit("8"); }
        "8"
    } else {
        proof { reveal_strlit("9"); }
        "9"
    }
}

/// The decimal text of an error code.
pub fn code_text(code: i8) -> (r: String)
    ensures
        r@ == decimal_text(code as int),
{
    let mut s = String::new();
    let n: u8 = if code < 0 {
        proof { reveal_strlit("-"); }
        s.append("-");
        (0 - (code as i16)) as u8
    } else {
        code as u8
    };
    proof {
        reveal_with_fuel(natural_text, 3);
    }
    let ghost start = s@;
    if n >= 100 {
        s.append(digit_text(n / 100));
    }
    if n >= 10 {
        s.append(digit_text((n / 10) % 10));
    }
    s.append(digit_text(n % 10));
    proof {
        let nn = n as nat;
        if n >= 100 {
            assert(natural_text(nn / 10) == natural_text(nn / 100).push(digit_char(((nn / 10) % 10) as int)));
            assert(natural_text(nn / 100) == seq![digit_char((nn / 100) as int)]);
            assert(s@ =~= start + natural_text(nn));
        } else if n >= 10 {
            assert((nn / 10) % 10 == nn / 10);
            assert(s@ =~= start + natural_text(nn));
        } else {
            assert(s@ =~= start + natural_text(nn));
        }
    }
    s
}

/// One entry of the error envelope that the API answers with.
#[derive(Debug, Clone, Default)]
pub struct InnerApiError {
    pub code: i8,
    pub message: String,
    pub user_facing_message: Option<String>,
}

/// The error envelope `{"errors": [{code, message, userFacingMessage?}, ...]}`.
#[derive(Debug, Clone, Default)]
pub struct ApiErrors {
    pub errors: Vec<InnerApiError>,
}

/// An error that the API reported.
#[derive(Debug, Clone, Default)]
pub struct ApiError {
    pub code: i8,
    pub message: String,
    pub user_facing_message: Option<String>,
}

/// The API error that an envelope carries: its first entry.
pub open spec fn api_error_of(envelope: ApiErrors) -> ApiError
    recommends
        envelope.errors@.len() > 0,
{
    let e = envelope.errors@[0];
    ApiError { code: e.code, message: e.message, user_facing_message: e.user_facing_message }
}

impl ApiError {
    /// The message meant for display: the user-facing one where present.
    pub open spec fn display_message(&self) -> String {
        match self.user_facing_message {
            Some(m) => m,
            None => self.message,
        }
    }

    /// The message meant for display: the user-facing one where present,
    /// else the plain message.
    pub fn display_error_message(&self) -> (r: &String)
        ensures
            *r == self.display_message(),
    {
        match &self.user_facing_message {
            Some(m) => m,
            None => &self.message,
        }
    }

    /// The rendered error, `"<code>: <display message>"`.
    pub fn describe(&self) -> (r: String)
        ensures
            r@ == decimal_text(self.code as int) + ": "@ + self.display_message()@,
    {
        let mut s = code_text(self.code);
        proof {
            reveal_strlit(": ");
        }
        s.append(": ");
        let m = self.display_error_message();
        s.append(&**m);
        s
    }

    /// The error that an envelope carries: its first entry.
    pub fn from_envelope(envelope: ApiErrors) -> (r: ApiError)
        requires
            envelope.errors@.len() > 0,
        ensures
            r == api_error_of(envelope),
    {
        let e = &envelope.errors[0];
        let user_facing_message = match &e.user_facing_message {
            Some(m) => Some(m.clone()),
            None => None,
        };
        ApiError { code: e.code, message: e.message.clone(), user_facing_message }
    }
}

/// A failure below the API: connection, TLS, timeout, name lookup, framing,
/// or a body that matches no expected shape.
#[derive(Debug, Clone)]
pub struct TransportError {
    pub message: String,
}

/// The two ways a request can fail.
#[derive(Debug, Clone)]
pub enum Error {
    /// The server answered with an error envelope.
    Api(ApiError),
    /// The request did not complete.
    Transport(TransportError),
}

/// Whether the error is the API's rate-limit answer.
pub open spec fn is_rate_limit(error: Error) -> bool {
    error matches Error::Api(a) && a.message@ == RATE_LIMITED_MESSAGE@
}

/// Whether the error is the API's identity challenge.
pub open spec fn is_captcha(error: Error) -> bool {
    error matches Error::Api(a) && a.message@ == CAPTCHA_MESSAGE@
}

impl Error {
    /// Whether this is the API's rate-limit answer.
    pub fn is_rate_limited(&self) -> (r: bool)
        ensures
            r == is_rate_limit(*self),
    {
        match self {
            Error::Api(a) => {
                let expected = String::from_str(RATE_LIMITED_MESSAGE);
                a.message == expected
            },
            Error::Transport(_) => false,
        }
    }

    /// Whether this is the API's identity challenge.
    pub fn is_captcha(&self) -> (r: bool)
        ensures
            r == is_captcha(*self),
    {
        match self {
            Error::Api(a) => {
                let expected = String::from_str(CAPTCHA_MESSAGE);
                a.message == expected
            },
            Error::Transport(_) => false,
        }
    }

    /// The rendered error.
    pub fn describe(&self) -> (r: String)
        ensures
            self matches Error::Api(a) ==> r@ == "roblox api error: "@ + decimal_text(a.code as int)
                + ": "@ + a.display_message()@,
            self matches Error::Transport(t) ==> r@ == "request error: "@ + t.message@,
    {
        match self {
            Error::Api(a) => {
                let mut s = String::from_str("roblox api error: ");
                let d = a.describe();
                s.append(&*d);
                proof {
                    assert(s@ =~= "roblox api error: "@ + decimal_text(a.code as int) + ": "@
                        + a.display_message()@);
                }
                s
            },
            Error::Transport(t) => {
                let mut s = String::from_str("request error: ");
                s.append(&*t.message);
                s
            },
        }
    }
}

/// A response body read either as the expected value or as an error
/// envelope.
pub enum ResultDef<T, E> {
    Value(T),
    Failure(E),
}

/// The outcome of a response body: the expected value, or the API's error.
pub struct UntaggedResult<T, E>(pub Result<T, E>);

impl<T, E> UntaggedResult<T, E> {
    /// The outcome that a read body stands for.
    pub fn from_def(result: ResultDef<T, E>) -> (r: UntaggedResult<T, E>)
        ensures
            result matches ResultDef::Value(v) ==> r.0 == Ok::<T, E>(v),
            result matches ResultDef::Failure(e) ==> r.0 == Err::<T, E>(e),
    {
        match result {
            ResultDef::Value(value) => UntaggedResult(Ok(value)),
            ResultDef::Failure(value) => UntaggedResult(Err(value)),
        }
    }
}

impl<T, E> From<ResultDef<T, E>> for UntaggedResult<T, E> {
    fn from(result: ResultDef<T, E>) -> (r: UntaggedResult<T, E>)
        ensures
            r == untagged_of(result),
    {
        UntaggedResult::from_def(result)
    }
}

/// The outcome that a read body stands for.
pub open spec fn untagged_of<T, E>(result: ResultDef<T, E>) -> UntaggedResult<T, E> {
    match result {
        ResultDef::Value(v) => UntaggedResult(Ok(v)),
        ResultDef::Failure(e) => UntaggedResult(Err(e)),
    }
}

impl<T, E> vstd::std_specs::convert::FromSpecImpl<ResultDef<T, E>> for UntaggedResult<T, E> {
    open spec fn obeys_from_spec() -> bool {
        true
    }

    open spec fn from_spec(v: ResultDef<T, E>) -> UntaggedResult<T, E> {
        untagged_of(v)
    }
}

/// The outcome of a response body that was read twice: first as the
/// expected value (`success`), then, where that failed, as an error envelope
/// (`failure`), whose first entry is the error. The success reading wins
/// where both succeed; `None` where neither did, or the envelope lists no
/// error.
pub fn decide_response<T>(success: Option<T>, failure: Option<ApiErrors>) -> (r: Option<
    Result<T, ApiError>,
>)
    ensures
        success matches Some(v) ==> r == Some(Ok::<T, ApiError>(v)),
        success is None ==> (failure matches Some(e) ==> (e.errors@.len() > 0 ==> r == Some(
            Err::<T, ApiError>(api_error_of(e)),
        ))),
        success is None ==> (failure matches Some(e) ==> (e.errors@.len() == 0 ==> r is None)),
        success is None && failure is None ==> r is None,
{
    match success {
        Some(value) => Some(Ok(value)),
        None => match failure {
            Some(envelope) => if envelope.errors.len() > 0 {
                Some(Err(ApiError::from_envelope(envelope)))
            } else {
                None
            },
            None => None,
        },
    }
}

} // verus!
