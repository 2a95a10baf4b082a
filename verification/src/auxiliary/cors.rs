//! The headers that tell a browser which origin may call the server.

use vstd::prelude::*;

verus! {

/// The policy on cross-origin requests.
#[derive(Clone, Copy, Debug, PartialEq, Eq)]
pub struct CORS;

/// One response header.
#[derive(Debug, PartialEq, Eq)]
pub struct Header {
    pub name: String,
    pub value: String,
}

impl CORS {
    /// The name under which the policy is registered.
    pub fn info(&self) -> (name: String)
        ensures
            name@ == "CORS policy specifier"@,
    {
        "CORS policy specifier".to_owned()
    }

    /// The four headers set on every response: the one origin that is
    /// allowed, the two methods, any request header, and credentials.
    pub fn on_response(&self, cors_domain: &str) -> (headers: Vec<Header>)
        ensures
            headers@.len() == 4,
            headers@[0].name@ == "Access-Control-Allow-Origin"@,
            headers@[0].value@ == cors_domain@,
            headers@[1].name@ == "Access-Control-Allow-Methods"@,
            headers@[1].value@ == "POST, GET"@,
            headers@[2].name@ == "Access-Control-Allow-Headers"@,
            headers@[2].value@ == "*"@,
            headers@[3].name@ == "Access-Control-Allow-Credentials"@,
            headers@[3].value@ == "true"@,
    {
        let mut headers: Vec<Header> = Vec::new();
        headers.push(
            Header {
                name: "Access-Control-Allow-Origin".to_owned(),
                value: cors_domain.to_owned(),
            },
        );
        headers.push(
            Header {
                name: "Access-Control-Allow-Methods".to_owned(),
                value: "POST, GET".to_owned(),
            },
        );
        headers.push(
            Header { name: "Access-Control-Allow-Headers".to_owned(), value: "*".to_owned() },
        );
        headers.push(
            Header {
                name: "Access-Control-Allow-Credentials".to_owned(),
                value: "true".to_owned(),
            },
        );
        headers
    }
}

} // verus!
