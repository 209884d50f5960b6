use vstd::prelude::*;
use vstd::string::StringExecFns;

verus! {

/// The receipt endpoints the HTTP layer mounts, as method and path pairs:
/// upload a file, list a box by state, post an action against a receipt,
/// fetch a receipt, and download its file.
pub fn receipt_routes() -> (r: Vec<(String, String)>)
    ensures
        r@.len() == 5,
        r@[0].0@ == "POST"@ && r@[0].1@ == "/upload"@,
        r@[1].0@ == "GET"@ && r@[1].1@ == "/box/<state>"@,
        r@[2].0@ == "POST"@ && r@[2].1@ == "/<id>"@,
        r@[3].0@ == "GET"@ && r@[3].1@ == "/<id>"@,
        r@[4].0@ == "GET"@ && r@[4].1@ == "/download/<id>"@,
{
    let mut r: Vec<(String, String)> = Vec::new();
    r.push((String::from_str("POST"), String::from_str("/upload")));
    r.push((String::from_str("GET"), String::from_str("/box/<state>")));
    r.push((String::from_str("POST"), String::from_str("/<id>")));
    r.push((String::from_str("GET"), String::from_str("/<id>")));
    r.push((String::from_str("GET"), String::from_str("/download/<id>")));
    r
}

} // verus!
