//! HTTP methods.

use vstd::prelude::*;

use crate::external::parse_method_name;
use crate::text::method_from_name;

verus! {

/// The HTTP methods that rocket routes on.
#[derive(Clone, Copy, PartialEq, Eq, Hash, Debug, Structural)]
pub enum HttpMethod {
    /// `GET`
    Get,
    /// `PUT`
    Put,
    /// `POST`
    Post,
    /// `DELETE`
    Delete,
    /// `OPTIONS`
    Options,
    /// `HEAD`
    Head,
    /// `TRACE`
    Trace,
    /// `CONNECT`
    Connect,
    /// `PATCH`
    Patch,
}

/// The upper-case name of a method.
pub open spec fn method_name(m: HttpMethod) -> Seq<char> {
    match m {
        HttpMethod::Get => seq!['G', 'E', 'T'],
        HttpMethod::Put => seq!['P', 'U', 'T'],
        HttpMethod::Post => seq!['P', 'O', 'S', 'T'],
        HttpMethod::Delete => seq!['D', 'E', 'L', 'E', 'T', 'E'],
        HttpMethod::Options => seq!['O', 'P', 'T', 'I', 'O', 'N', 'S'],
        HttpMethod::Head => seq!['H', 'E', 'A', 'D'],
        HttpMethod::Trace => seq!['T', 'R', 'A', 'C', 'E'],
        HttpMethod::Connect => seq!['C', 'O', 'N', 'N', 'E', 'C', 'T'],
        HttpMethod::Patch => seq!['P', 'A', 'T', 'C', 'H'],
    }
}

/// An HTTP method as it stands in the CORS settings and headers; it is
/// (de)serialized as its name.
#[derive(Clone, Copy, PartialEq, Eq, Hash, Debug, Structural)]
pub struct Method(pub HttpMethod);

impl Method {
    /// Parses a method name, ignoring ASCII case; `Err(())` for an unknown name.
    pub fn from_str(s: &str) -> (res: Result<Method, ()>)
        ensures
            match method_from_name(s@) {
                Some(m) => res == Ok::<Method, ()>(Method(m)),
                None => res is Err,
            },
    {
        match parse_method_name(s) {
            Some(m) => Ok(Method(m)),
            None => Err(()),
        }
    }

    /// The upper-case name of the method, as it is written in headers.
    pub fn as_str(&self) -> (res: &'static str)
        ensures
            res@ == method_name(self.0),
    {
        let res = match self.0 {
            HttpMethod::Get => "GET",
            HttpMethod::Put => "PUT",
            HttpMethod::Post => "POST",
            HttpMethod::Delete => "DELETE",
            HttpMethod::Options => "OPTIONS",
            HttpMethod::Head => "HEAD",
            HttpMethod::Trace => "TRACE",
            HttpMethod::Connect => "CONNECT",
            HttpMethod::Patch => "PATCH",
        };
        proof {
            reveal_strlit("GET");
            reveal_strlit("PUT");
            reveal_strlit("POST");
            reveal_strlit("DELETE");
            reveal_strlit("OPTIONS");
            reveal_strlit("HEAD");
            reveal_strlit("TRACE");
            reveal_strlit("CONNECT");
            reveal_strlit("PATCH");
        }
        res
    }
}

impl std::str::FromStr for Method {
    type Err = ();

    fn from_str(s: &str) -> (res: Result<Method, ()>)
        ensures
            match method_from_name(s@) {
                Some(m) => res == Ok::<Method, ()>(Method(m)),
                None => res is Err,
            },
    {
        Method::from_str(s)
    }
}

} // verus!
