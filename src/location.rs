use vstd::prelude::*;

verus! {

/// The protocol of a page's location.
#[derive(Debug, Clone, Copy, PartialEq, Eq, Structural)]
pub enum HttpProtocol {
    /// Insecure http
    Http,
    /// Secure https
    Https,
}

/// A websocket protocol.
#[derive(Debug, Clone, Copy, PartialEq, Eq, Structural)]
pub enum WebSocketProtocol {
    /// Insecure websocket
    Ws,
    /// Secure websocket
    Wss,
}

/// The scheme name of an http protocol.
pub open spec fn http_name(p: HttpProtocol) -> Seq<char> {
    match p {
        HttpProtocol::Http => seq!['h', 't', 't', 'p'],
        HttpProtocol::Https => seq!['h', 't', 't', 'p', 's'],
    }
}

/// The scheme name of a websocket protocol.
pub open spec fn ws_name(p: WebSocketProtocol) -> Seq<char> {
    match p {
        WebSocketProtocol::Ws => seq!['w', 's'],
        WebSocketProtocol::Wss => seq!['w', 's', 's'],
    }
}

/// The websocket protocol with the same security as an http protocol.
pub open spec fn ws_of(p: HttpProtocol) -> WebSocketProtocol {
    match p {
        HttpProtocol::Http => WebSocketProtocol::Ws,
        HttpProtocol::Https => WebSocketProtocol::Wss,
    }
}

/// The http protocol that a `location.protocol` value names, with its colon.
pub open spec fn protocol_of(s: Seq<char>) -> Option<HttpProtocol> {
    if s == http_name(HttpProtocol::Http).push(':') {
        Some(HttpProtocol::Http)
    } else if s == http_name(HttpProtocol::Https).push(':') {
        Some(HttpProtocol::Https)
    } else {
        None
    }
}

impl HttpProtocol {
    /// The scheme name: `http` or `https`.
    pub fn to_string(&self) -> (r: String)
        ensures
            r@ == http_name(*self),
    {
        proof {
            reveal_strlit("http");
            reveal_strlit("https");
        }
        match self {
            HttpProtocol::Http => String::from_str("http"),
            HttpProtocol::Https => String::from_str("https"),
        }
    }

    /// Reads the value of `location.protocol` (`http:` or `https:`); any other
    /// value is refused.
    pub fn from_location_protocol(s: &str) -> (r: Option<HttpProtocol>)
        ensures
            r == protocol_of(s@),
    {
        proof {
            reveal_strlit("http:");
            reveal_strlit("https:");
        }
        assert("http:"@ =~= http_name(HttpProtocol::Http).push(':'));
        assert("https:"@ =~= http_name(HttpProtocol::Https).push(':'));
        let given = String::from_str(s);
        if given == String::from_str("http:") {
            Some(HttpProtocol::Http)
        } else if given == String::from_str("https:") {
            Some(HttpProtocol::Https)
        } else {
            None
        }
    }
}

impl WebSocketProtocol {
    /// The scheme name: `ws` or `wss`.
    pub fn to_string(&self) -> (r: String)
        ensures
            r@ == ws_name(*self),
    {
        proof {
            reveal_strlit("ws");
            reveal_strlit("wss");
        }
        match self {
            WebSocketProtocol::Ws => String::from_str("ws"),
            WebSocketProtocol::Wss => String::from_str("wss"),
        }
    }
}

impl From<HttpProtocol> for WebSocketProtocol {
    /// `http` becomes `ws` and `https` becomes `wss`.
    fn from(p: HttpProtocol) -> (r: WebSocketProtocol) {
        match p {
            HttpProtocol::Http => WebSocketProtocol::Ws,
            HttpProtocol::Https => WebSocketProtocol::Wss,
        }
    }
}

impl vstd::std_specs::convert::FromSpecImpl<HttpProtocol> for WebSocketProtocol {
    open spec fn obeys_from_spec() -> bool {
        true
    }

    open spec fn from_spec(p: HttpProtocol) -> WebSocketProtocol {
        ws_of(p)
    }
}

} // verus!
