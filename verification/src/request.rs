//! Construction of the canonical client request that opens a connection.
//!
//! Several input shapes — URL text, owned URL text, a parsed URI, an
//! already-built request — all normalize to one canonical request value, a
//! GET at the given URI; malformed text is rejected with a URL error. URI
//! grammar itself is the `http` crate's business: parsing goes through one
//! trusted wrapper, and everything downstream of it is verified against the
//! parts the wrapper hands back.

use crate::error::Error;
use vstd::prelude::*;

verus! {

/// The parts of a URI as plain values: scheme, host, port and path, in that
/// order, with the parts a URI may lack as `Option`s.
pub type UriModel = (Option<Seq<char>>, Option<Seq<char>>, Option<u16>, Seq<char>);

/// A parsed URI, reduced to the parts a client connection needs.
pub struct Uri {
    /// The scheme, when the URI names one.
    pub scheme: Option<String>,
    /// The host, when the URI names an authority.
    pub host: Option<String>,
    /// The port, when the URI names one explicitly.
    pub port: Option<u16>,
    /// The path; possibly empty, never missing.
    pub path: String,
}

impl Uri {
    /// The URI's parts as plain values.
    pub open spec fn model(self) -> UriModel {
        (
            match self.scheme {
                Some(s) => Some(s@),
                None => None,
            },
            match self.host {
                Some(h) => Some(h@),
                None => None,
            },
            self.port,
            self.path@,
        )
    }
}

impl Clone for Uri {
    /// An equal copy of the URI.
    fn clone(&self) -> (r: Self)
        ensures
            r == *self,
    {
        Uri {
            scheme: match &self.scheme {
                Some(s) => Some(s.clone()),
                None => None,
            },
            host: match &self.host {
                Some(h) => Some(h.clone()),
                None => None,
            },
            port: self.port,
            path: self.path.clone(),
        }
    }
}

/// What parsing URL text yields: the parts of the URI the text denotes, or
/// nothing when the text is not a URI.
pub uninterp spec fn parsed_url(s: Seq<char>) -> Option<UriModel>;

/// Relies on `http::Uri`'s `FromStr` impl to parse URL text, and on its
/// `scheme_str`, `host`, `port_u16` and `path` accessors to read the parsed
/// parts out as plain values.
#[verifier::external_body]
fn parse_url(s: &str) -> (r: Result<Uri, Error>)
    ensures
        r is Ok <==> parsed_url(s@) is Some,
        r matches Ok(u) ==> Some(u.model()) == parsed_url(s@),
        r matches Err(e) ==> (e matches Error::Url(t) && t@ == s@),
{
    match s.parse::<http::Uri>() {
        Ok(u) => Ok(Uri {
            scheme: u.scheme_str().map(|x| x.to_string()),
            host: u.host().map(|x| x.to_string()),
            port: u.port_u16(),
            path: u.path().to_string(),
        }),
        Err(_) => Err(Error::Url(s.to_string())),
    }
}

/// The canonical client request: a GET at the given URI, the one shape every
/// accepted input normalizes to.
pub struct Request {
    /// Where the request goes.
    pub uri: Uri,
}

/// Conversion of the accepted input shapes into the canonical [`Request`].
pub trait IntoClientRequest: Sized {
    /// The canonical request this value denotes — its URI parts — or, when
    /// the value is malformed, the text to blame in the URL error.
    spec fn client_request_model(self) -> Result<UriModel, Seq<char>>;

    /// Convert into a `Request` that can be used for a client connection.
    fn into_client_request(self) -> (r: Result<Request, Error>)
        ensures
            r is Ok <==> self.client_request_model() is Ok,
            r matches Ok(req) ==> req.uri.model() == self.client_request_model()->Ok_0,
            r matches Err(e) ==> (e matches Error::Url(t) && t@
                == self.client_request_model()->Err_0),
    ;
}

impl<'a> IntoClientRequest for &'a str {
    open spec fn client_request_model(self) -> Result<UriModel, Seq<char>> {
        match parsed_url(self@) {
            Some(m) => Ok(m),
            None => Err(self@),
        }
    }

    fn into_client_request(self) -> (r: Result<Request, Error>) {
        match parse_url(self) {
            Ok(uri) => Ok(Request { uri }),
            Err(e) => Err(e),
        }
    }
}

impl<'a> IntoClientRequest for &'a String {
    open spec fn client_request_model(self) -> Result<UriModel, Seq<char>> {
        match parsed_url(self@) {
            Some(m) => Ok(m),
            None => Err(self@),
        }
    }

    fn into_client_request(self) -> (r: Result<Request, Error>) {
        match parse_url(self.as_str()) {
            Ok(uri) => Ok(Request { uri }),
            Err(e) => Err(e),
        }
    }
}

impl IntoClientRequest for String {
    open spec fn client_request_model(self) -> Result<UriModel, Seq<char>> {
        match parsed_url(self@) {
            Some(m) => Ok(m),
            None => Err(self@),
        }
    }

    fn into_client_request(self) -> (r: Result<Request, Error>) {
        match parse_url(self.as_str()) {
            Ok(uri) => Ok(Request { uri }),
            Err(e) => Err(e),
        }
    }
}

impl<'a> IntoClientRequest for &'a Uri {
    open spec fn client_request_model(self) -> Result<UriModel, Seq<char>> {
        Ok(self.model())
    }

    fn into_client_request(self) -> (r: Result<Request, Error>) {
        Ok(Request { uri: self.clone() })
    }
}

impl IntoClientRequest for Uri {
    open spec fn client_request_model(self) -> Result<UriModel, Seq<char>> {
        Ok(self.model())
    }

    fn into_client_request(self) -> (r: Result<Request, Error>) {
        Ok(Request { uri: self })
    }
}

impl IntoClientRequest for Request {
    open spec fn client_request_model(self) -> Result<UriModel, Seq<char>> {
        Ok(self.uri.model())
    }

    fn into_client_request(self) -> (r: Result<Request, Error>) {
        Ok(self)
    }
}

/// Round-trip law: when URL text parses exactly to the URI `u` — `u` is its
/// canonical parsed form — then building a request from the text and
/// building one from `u` yield requests whose scheme, host, port and path
/// are identical; and rebuilding a request from an already-built request
/// changes none of its parts.
pub proof fn lemma_request_round_trip(s: &str, u: Uri, req: Request)
    ensures
        <&str as IntoClientRequest>::client_request_model(s) == Ok::<UriModel, Seq<char>>(
            u.model(),
        ) ==> <&Uri as IntoClientRequest>::client_request_model(&u)
            == <&str as IntoClientRequest>::client_request_model(s),
        req.client_request_model() == Ok::<UriModel, Seq<char>>(req.uri.model()),
{
}

} // verus!
