use vstd::prelude::*;

use crate::constants::CSRF_TOKEN_HEADER;

verus! {

/// The HTTP methods the API uses.
#[derive(Debug, Clone, Copy, PartialEq, Eq, Structural)]
pub enum Method {
    Get,
    Post,
    Put,
    Patch,
    Delete,
}

/// A client's anti-forgery token, learned from response headers.
#[derive(Debug, Clone)]
pub struct CsrfToken {
    pub token: Option<String>,
}

impl CsrfToken {
    /// No token known yet.
    pub fn new() -> (r: CsrfToken)
        ensures
            r.token is None,
    {
        CsrfToken { token: None }
    }
}

/// How the body of a request is made.
#[derive(Debug, Clone, Copy, PartialEq, Eq, Structural)]
pub enum RequestBody {
    /// The payload, as JSON.
    Json,
    /// An empty body.
    Empty,
}

/// What a request carries besides its method, address and query.
pub struct RequestPlan {
    pub body: RequestBody,
    /// Headers to add, as (name, value) pairs, in order.
    pub headers: Vec<(String, String)>,
}

/// The headers of a request: for a write without payload, an explicit
/// empty JSON body; for a write, the anti-forgery token where one is known.
pub open spec fn request_headers(method: Method, has_payload: bool, token: Option<String>) -> Seq<
    (Seq<char>, Seq<char>),
> {
    let body_headers = if !has_payload && method != Method::Get {
        seq![("Content-Length"@, "0"@), ("Content-Type"@, "application/json"@)]
    } else {
        Seq::empty()
    };
    match token {
        Some(t) if method != Method::Get => body_headers.push((CSRF_TOKEN_HEADER@, t@)),
        _ => body_headers,
    }
}

/// The views of a sequence of header pairs.
pub open spec fn header_views(s: Seq<(String, String)>) -> Seq<(Seq<char>, Seq<char>)> {
    s.map_values(|h: (String, String)| (h.0@, h.1@))
}

/// The body and headers of a request with `method`, with or without a
/// payload, for a client that knows `csrf`.
pub fn plan_request(method: Method, has_payload: bool, csrf: &CsrfToken) -> (r: RequestPlan)
    ensures
        r.body == if has_payload {
            RequestBody::Json
        } else {
            RequestBody::Empty
        },
        header_views(r.headers@) == request_headers(method, has_payload, csrf.token),
{
    let mut headers: Vec<(String, String)> = Vec::new();
    let is_get = method == Method::Get;
    if !has_payload && !is_get {
        headers.push((String::from_str("Content-Length"), String::from_str("0")));
        headers.push((String::from_str("Content-Type"), String::from_str("application/json")));
    }
    let ghost before = headers@;
    if !is_get {
        match &csrf.token {
            Some(t) => {
                headers.push((String::from_str(CSRF_TOKEN_HEADER), t.clone()));
            },
            None => {},
        }
    }
    proof {
        assert(header_views(headers@) =~= request_headers(method, has_payload, csrf.token));
    }
    let body = if has_payload {
        RequestBody::Json
    } else {
        RequestBody::Empty
    };
    RequestPlan { body, headers }
}

/// What to do with a response.
#[derive(Debug, Clone)]
pub enum ResponseStep {
    /// Send the same request again, with this token.
    Resend(String),
    /// Read the response's body.
    Finish,
}

/// One logical request and how many times it was sent: once, or twice
/// where the first response brought a token.
pub struct CsrfExchange {
    sends: u8,
}

impl CsrfExchange {
    #[verifier::type_invariant]
    spec fn bounded(self) -> bool {
        1 <= self.sends <= 2
    }

    pub closed spec fn sent(&self) -> int {
        self.sends as int
    }

    /// A request that was sent once.
    pub fn new() -> (r: CsrfExchange)
        ensures
            r.sent() == 1,
    {
        CsrfExchange { sends: 1 }
    }

    /// How many times the request was sent: once or twice.
    pub fn sends(&self) -> (r: u8)
        ensures
            r == self.sent(),
            1 <= r <= 2,
    {
        proof {
            use_type_invariant(self);
        }
        self.sends
    }

    /// Handles a response whose token header is `header`. After the first
    /// send, a token is stored in `csrf` and the request goes out once more
    /// with it; any other response is read as it is.
    pub fn on_response(&mut self, csrf: &mut CsrfToken, header: Option<String>) -> (r:
        ResponseStep)
        ensures
            old(self).sent() == 1 && header is Some ==> {
                &&& r == ResponseStep::Resend(header->Some_0)
                &&& final(csrf).token == header
                &&& final(self).sent() == 2
            },
            !(old(self).sent() == 1 && header is Some) ==> {
                &&& r == ResponseStep::Finish
                &&& *final(csrf) == *old(csrf)
                &&& final(self).sent() == old(self).sent()
            },
            final(self).sent() <= 2,
    {
        proof {
            use_type_invariant(&*self);
        }
        if self.sends == 1 {
            match header {
                Some(token) => {
                    csrf.token = Some(token.clone());
                    self.sends = 2;
                    ResponseStep::Resend(token)
                },
                None => ResponseStep::Finish,
            }
        } else {
            ResponseStep::Finish
        }
    }
}

} // verus!
