//! Errors of lowering a component to its executable form, and the fetch options it
//! accepts.
use crate::text::str_eq;
use vstd::prelude::*;

verus! {

/// Why a component could not be lowered.
#[derive(Debug, PartialEq, Eq)]
pub struct LoweringError(pub String);

impl LoweringError {
    /// The error's text (what `Display` writes).
    pub fn message(&self) -> (r: String)
        ensures
            r@ == self.0@,
    {
        self.0.clone()
    }
}

/// The HTTP methods a fetch may use.
pub open spec fn fetch_methods() -> Seq<Seq<char>> {
    seq!["GET"@, "POST"@, "PUT"@, "PATCH"@, "DELETE"@]
}

/// The ways a fetch response may be decoded.
pub open spec fn fetch_decoders() -> Seq<Seq<char>> {
    seq!["json"@, "responseJson"@, "text"@, "empty"@]
}

/// The fetch method named `value`, when it is one of [`fetch_methods`].
pub fn fetch_method(value: &str) -> (r: Result<&'static str, LoweringError>)
    ensures
        match r {
            Ok(m) => m@ == value@ && fetch_methods().contains(value@),
            Err(e) => !fetch_methods().contains(value@) && e.0@ == "unsupported fetch method"@,
        },
{
    let ghost ms = fetch_methods();
    assert(ms[0] == "GET"@ && ms[1] == "POST"@ && ms[2] == "PUT"@ && ms[3] == "PATCH"@ && ms[4] == "DELETE"@);
    if str_eq(value, "GET") {
        Ok("GET")
    } else if str_eq(value, "POST") {
        Ok("POST")
    } else if str_eq(value, "PUT") {
        Ok("PUT")
    } else if str_eq(value, "PATCH") {
        Ok("PATCH")
    } else if str_eq(value, "DELETE") {
        Ok("DELETE")
    } else {
        assert(!ms.contains(value@)) by {
            if ms.contains(value@) {
                let i = choose|i: int| 0 <= i < ms.len() && ms[i] == value@;
                assert(i == 0 || i == 1 || i == 2 || i == 3 || i == 4);
            }
        }
        Err(LoweringError(String::from_str("unsupported fetch method")))
    }
}

/// The response decoder named `value`, when it is one of [`fetch_decoders`].
pub fn fetch_decode(value: &str) -> (r: Result<&'static str, LoweringError>)
    ensures
        match r {
            Ok(d) => d@ == value@ && fetch_decoders().contains(value@),
            Err(e) => !fetch_decoders().contains(value@) && e.0@ == "unsupported fetch decoder"@,
        },
{
    let ghost ds = fetch_decoders();
    assert(ds[0] == "json"@ && ds[1] == "responseJson"@ && ds[2] == "text"@ && ds[3] == "empty"@);
    if str_eq(value, "json") {
        Ok("json")
    } else if str_eq(value, "responseJson") {
        Ok("responseJson")
    } else if str_eq(value, "text") {
        Ok("text")
    } else if str_eq(value, "empty") {
        Ok("empty")
    } else {
        assert(!ds.contains(value@)) by {
            if ds.contains(value@) {
                let i = choose|i: int| 0 <= i < ds.len() && ds[i] == value@;
                assert(i == 0 || i == 1 || i == 2 || i == 3);
            }
        }
        Err(LoweringError(String::from_str("unsupported fetch decoder")))
    }
}

} // verus!
