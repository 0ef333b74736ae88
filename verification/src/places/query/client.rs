//! What a request to the Places service is made of: the address of an
//! endpoint, the authorization header, and the list of requested fields.

use vstd::prelude::*;
use vstd::string::StringExecFns;

verus! {

/// The address under which the Places service is reached.
pub const PLACES_API_URL: &'static str =
    "https://places-api.arcgis.com/arcgis/rest/services/places-service/v1";

/// The name of the header that carries the token.
pub const AUTHORIZATION_HEADER: &'static str = "X-Esri-Authorization";

/// The texts of a list of strings.
pub open spec fn texts(parts: Seq<String>) -> Seq<Seq<char>> {
    parts.map_values(|s: String| s@)
}

/// The parts of a list written one after the other with `sep` between each
/// two of them.
pub open spec fn joined(parts: Seq<Seq<char>>, sep: Seq<char>) -> Seq<char>
    decreases parts.len(),
{
    if parts.len() == 0 {
        Seq::empty()
    } else if parts.len() == 1 {
        parts[0]
    } else {
        joined(parts.drop_last(), sep) + sep + parts.last()
    }
}

/// The address of an endpoint: the base address and the endpoint's path.
pub fn endpoint(base_url: &str, path: &str) -> (url: String)
    ensures
        url@ == base_url@ + path@,
{
    let mut url = String::from_str(base_url);
    url.append(path);
    url
}

/// The address of one place or category: the endpoint of its kind, a slash,
/// and its identifier.
pub fn endpoint_of(base_url: &str, path: &str, id: &str) -> (url: String)
    ensures
        url@ == base_url@ + path@ + "/"@ + id@,
{
    let mut url = endpoint(base_url, path);
    url.append("/");
    url.append(id);
    url
}

/// The value of the authorization header for a token.
pub fn bearer(token: &str) -> (value: String)
    ensures
        value@ == "Bearer "@ + token@,
{
    let mut value = String::from_str("Bearer ");
    value.append(token);
    value
}

/// The requested fields as one query value: their names with a comma between
/// each two of them.
pub fn requested_fields(fields: &Vec<String>) -> (value: String)
    ensures
        value@ == joined(texts(fields@), ","@),
{
    let mut value = String::new();
    let n = fields.len();
    let mut i: usize = 0;
    while i < n
        invariant
            n == fields.len(),
            i <= n,
            value@ == joined(texts(fields@).take(i as int), ","@),
        decreases n - i,
    {
        let ghost done = texts(fields@).take(i as int);
        let ghost more = texts(fields@).take(i + 1);
        assert(more.drop_last() =~= done);
        assert(more.last() == fields@[i as int]@);
        if i > 0 {
            value.append(",");
        } else {
            assert(joined(done, ","@) =~= Seq::empty());
        }
        value.append(fields[i].as_str());
        assert(value@ =~= joined(more, ","@));
        i += 1;
    }
    assert(texts(fields@).take(n as int) =~= texts(fields@));
    value
}

} // verus!
