//! The CORS headers added to every response.

use vstd::prelude::*;

verus! {

/// The fairing that adds CORS headers.
pub struct CORS;

/// The headers added to a response, in order: the allowed origin (the local
/// development front end in debug builds, the production site otherwise),
/// the allowed headers (those that the request asks for, else all), the
/// allowed methods, and that credentials are allowed.
pub open spec fn cors_headers(debug: bool, requested: Option<Seq<char>>) -> Seq<(Seq<char>, Seq<char>)> {
    seq![
        ("Access-Control-Allow-Origin"@, if debug { "http://localhost:4200"@ } else { "https://server.viloz.xyz"@ }),
        ("Access-Control-Allow-Headers"@, match requested { Some(h) => h, None => "*"@ }),
        ("Access-Control-Allow-Methods"@, "POST, GET, PATCH, OPTIONS"@),
        ("Access-Control-Allow-Credentials"@, "true"@),
    ]
}

pub open spec fn header_view(h: (String, String)) -> (Seq<char>, Seq<char>) {
    (h.0@, h.1@)
}

impl CORS {
    /// The headers to set on a response, given whether this is a debug build
    /// and the request's `Access-Control-Request-Headers`, if any.
    pub fn on_response(&self, debug: bool, requested: Option<&str>) -> (headers: Vec<(String, String)>)
        ensures
            headers@.map_values(|h: (String, String)| header_view(h))
                == cors_headers(debug, match requested { Some(h) => Some(h@), None => None }),
            headers@.len() == 4,
            headers@[0].0@ == "Access-Control-Allow-Origin"@,
            headers@[0].1@ == (if debug { "http://localhost:4200"@ } else { "https://server.viloz.xyz"@ }),
            headers@[1].0@ == "Access-Control-Allow-Headers"@,
            headers@[1].1@ == (match requested { Some(h) => h@, None => "*"@ }),
            headers@[2].0@ == "Access-Control-Allow-Methods"@,
            headers@[2].1@ == "POST, GET, PATCH, OPTIONS"@,
            headers@[3].0@ == "Access-Control-Allow-Credentials"@,
            headers@[3].1@ == "true"@,
    {
        let origin = if debug {
            String::from_str("http://localhost:4200")
        } else {
            String::from_str("https://server.viloz.xyz")
        };
        let allow_headers = match requested {
            Some(h) => String::from_str(h),
            None => String::from_str("*"),
        };
        let headers = vec![
            (String::from_str("Access-Control-Allow-Origin"), origin),
            (String::from_str("Access-Control-Allow-Headers"), allow_headers),
            (String::from_str("Access-Control-Allow-Methods"), String::from_str("POST, GET, PATCH, OPTIONS")),
            (String::from_str("Access-Control-Allow-Credentials"), String::from_str("true")),
        ];
        assert(headers@.map_values(|h: (String, String)| header_view(h))
            =~= cors_headers(debug, match requested { Some(h) => Some(h@), None => None }));
        headers
    }
}

/// The headers are the four standard CORS headers, in order, each with its
/// value: the origin for the build, the requested headers (else all), the
/// methods POST, GET, PATCH and OPTIONS, and credentials allowed.
pub proof fn law_cors_header_names(debug: bool, requested: Option<Seq<char>>)
    ensures
        cors_headers(debug, requested).len() == 4,
        cors_headers(debug, requested)[0] == ("Access-Control-Allow-Origin"@,
            if debug { "http://localhost:4200"@ } else { "https://server.viloz.xyz"@ }),
        cors_headers(debug, requested)[1] == ("Access-Control-Allow-Headers"@,
            match requested { Some(h) => h, None => "*"@ }),
        cors_headers(debug, requested)[2] == ("Access-Control-Allow-Methods"@, "POST, GET, PATCH, OPTIONS"@),
        cors_headers(debug, requested)[3] == ("Access-Control-Allow-Credentials"@, "true"@),
{
}

} // verus!
