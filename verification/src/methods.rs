//! The HTTP methods that a plain call may name.

use vstd::prelude::*;
use vstd::string::*;

verus! {

/// An HTTP method of the remote API.
#[derive(Debug, Clone, Copy, PartialEq, Eq, Structural)]
pub enum HttpMethod {
    Get,
    Post,
    Put,
    Delete,
}

/// The method that a name stands for.
pub open spec fn http_method_named(name: Seq<char>) -> Option<HttpMethod> {
    if name == "GET"@ {
        Some(HttpMethod::Get)
    } else if name == "POST"@ {
        Some(HttpMethod::Post)
    } else if name == "PUT"@ {
        Some(HttpMethod::Put)
    } else if name == "DELETE"@ {
        Some(HttpMethod::Delete)
    } else {
        None
    }
}

impl HttpMethod {
    /// The name of the method on the wire.
    pub open spec fn name_text(self) -> Seq<char> {
        match self {
            HttpMethod::Get => "GET"@,
            HttpMethod::Post => "POST"@,
            HttpMethod::Put => "PUT"@,
            HttpMethod::Delete => "DELETE"@,
        }
    }

    /// The name of the method on the wire.
    pub fn name(&self) -> (r: &'static str)
        ensures
            r@ == self.name_text(),
    {
        match self {
            HttpMethod::Get => "GET",
            HttpMethod::Post => "POST",
            HttpMethod::Put => "PUT",
            HttpMethod::Delete => "DELETE",
        }
    }

    /// Reads a method's name; the names are upper case.
    pub fn parse(name: &str) -> (r: Option<HttpMethod>)
        ensures
            r == http_method_named(name@),
    {
        if crate::text::same_text(name, "GET") {
            Some(HttpMethod::Get)
        } else if crate::text::same_text(name, "POST") {
            Some(HttpMethod::Post)
        } else if crate::text::same_text(name, "PUT") {
            Some(HttpMethod::Put)
        } else if crate::text::same_text(name, "DELETE") {
            Some(HttpMethod::Delete)
        } else {
            None
        }
    }
}

/// Every method is read back from its own name.
pub proof fn lemma_http_method_name_round_trip(method: HttpMethod)
    ensures
        http_method_named(method.name_text()) == Some(method),
{
    reveal_strlit("GET");
    reveal_strlit("POST");
    reveal_strlit("PUT");
    reveal_strlit("DELETE");
    assert("POST"@[0] != "GET"@[0]);
    assert("PUT"@[1] != "POST"@[1]);
    assert("PUT"@[0] != "GET"@[0]);
    assert("DELETE"@[0] != "GET"@[0]);
    assert("DELETE"@[0] != "POST"@[0]);
    assert("DELETE"@[0] != "PUT"@[0]);
}

} // verus!
