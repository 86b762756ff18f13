//! Station query client: the data carried by the nearby-stations query and
//! the interpretation of its response.
//!
//! The network round trip itself happens in the host shell; this module
//! fixes the endpoint and the query document, and decides — for every
//! response shape the service can return — what station result the page
//! gets. A response whose list, first element or name is missing degrades
//! to a result with an absent name; it is never an error.

use vstd::prelude::*;
use vstd::string::StringExecFns;

verus! {

/// The nearby-stations query: one request, keyed on the position it was
/// made for. Coordinates are carried in microdegrees (degrees scaled by
/// one million), the integer form the verified page logic works with; the
/// shell converts to the wire's fractional degrees when it sends the
/// request.
#[derive(Clone, Copy, Debug, PartialEq, Eq, Structural)]
pub struct NearbyStations {
    pub latitude_udeg: i64,
    pub longitude_udeg: i64,
}

/// One station entry of the response list. Its name may be missing.
#[derive(Clone, Debug)]
pub struct StationData {
    pub name: Option<String>,
}

/// The `data` object of the response: the station list, ordered by
/// proximity, or nothing at all.
#[derive(Clone, Debug)]
pub struct ResponseData {
    pub nearby_stations: Option<Vec<Option<StationData>>>,
}

/// A decoded response body: the optional `data` object.
#[derive(Clone, Debug)]
pub struct QueryResponse {
    pub data: Option<ResponseData>,
}

/// What the page keeps of a resolved query: the nearest station's name,
/// absent when the service had no usable entry.
#[derive(Clone, Debug)]
pub struct StationQueryResult {
    pub name: Option<String>,
}

/// The single error of the query client. Every transport-level failure —
/// network trouble, a bad status, an undecodable body — collapses into
/// this one value; no cause survives the boundary.
#[derive(Clone, Copy, Debug, PartialEq, Eq, Structural)]
pub struct TransportError;

/// The name of the first station of the response, if the response carries
/// one: `data` present, list present and non-empty, first element present,
/// name present. Anything else yields an absent name.
pub open spec fn spec_first_station_name(resp: QueryResponse) -> Option<String> {
    match resp.data {
        Option::None => Option::None,
        Option::Some(d) => match d.nearby_stations {
            Option::None => Option::None,
            Option::Some(list) => if list@.len() == 0 {
                Option::None
            } else {
                match list@[0] {
                    Option::None => Option::None,
                    Option::Some(s) => s.name,
                }
            },
        },
    }
}

/// The station result a response resolves to.
pub open spec fn spec_first_station(resp: QueryResponse) -> StationQueryResult {
    StationQueryResult { name: spec_first_station_name(resp) }
}

/// Extracts the nearest station from a successful response.
///
/// Returns the first list entry's name when the response has one, and a
/// result with an absent name for every degenerate shape — missing data,
/// missing or empty list, null entry, null name. It never fails.
pub fn first_station(resp: QueryResponse) -> (r: StationQueryResult)
    ensures
        r == spec_first_station(resp),
{
    match resp.data {
        None => StationQueryResult { name: None },
        Some(d) => match d.nearby_stations {
            None => StationQueryResult { name: None },
            Some(mut list) => {
                if list.len() == 0 {
                    StationQueryResult { name: None }
                } else {
                    let first = list.remove(0);
                    match first {
                        None => StationQueryResult { name: None },
                        Some(s) => StationQueryResult { name: s.name },
                    }
                }
            },
        },
    }
}

/// Resolves a finished round trip into the client's result.
///
/// A successful transport resolves to the extracted station result, for
/// every response shape; a failed transport resolves to the one
/// [`TransportError`], whatever its cause was.
pub fn resolve(outcome: Result<QueryResponse, TransportError>) -> (r: Result<
    StationQueryResult,
    TransportError,
>)
    ensures
        outcome matches Ok(resp) ==> r matches Ok(sr) && sr == spec_first_station(resp),
        outcome is Err ==> r == Result::<StationQueryResult, TransportError>::Err(TransportError),
{
    match outcome {
        Ok(resp) => Ok(first_station(resp)),
        Err(_) => Err(TransportError),
    }
}

/// The fixed endpoint the query is sent to.
pub fn endpoint_url() -> (r: &'static str)
    ensures
        r@ == "https://sapi.tinykitten.me/graphql"@,
{
    "https://sapi.tinykitten.me/graphql"
}

/// The fixed query document: one operation, two scalar variables, the
/// station list with only the name selected.
pub fn query_document() -> (r: &'static str)
    ensures
        r@
            == "query NearbyStations($latitude: Float!, $longitude: Float!) { nearbyStations(latitude: $latitude, longitude: $longitude) { name } }"@,
{
    "query NearbyStations($latitude: Float!, $longitude: Float!) { nearbyStations(latitude: $latitude, longitude: $longitude) { name } }"
}

/// The decimal digit characters.
pub open spec fn spec_digit(d: nat) -> Seq<char> {
    if d == 0 {
        "0"@
    } else if d == 1 {
        "1"@
    } else if d == 2 {
        "2"@
    } else if d == 3 {
        "3"@
    } else if d == 4 {
        "4"@
    } else if d == 5 {
        "5"@
    } else if d == 6 {
        "6"@
    } else if d == 7 {
        "7"@
    } else if d == 8 {
        "8"@
    } else {
        "9"@
    }
}

/// The plain decimal writing of a natural number, most significant digit
/// first, with no leading zero except for zero itself.
pub open spec fn spec_digits(n: nat) -> Seq<char>
    decreases n,
{
    if n < 10 {
        spec_digit(n)
    } else {
        spec_digits(n / 10) + spec_digit(n % 10)
    }
}

/// The last `width` decimal digits of a natural number, zero-padded on
/// the left to exactly `width` characters.
pub open spec fn spec_digits_padded(n: nat, width: nat) -> Seq<char>
    decreases width,
{
    if width == 0 {
        Seq::empty()
    } else {
        spec_digits_padded(n / 10, (width - 1) as nat) + spec_digit(n % 10)
    }
}

/// The decimal writing of a microdegree coordinate as the wire's
/// fractional degrees: optional minus sign, whole degrees, a point, and
/// exactly six fraction digits.
pub open spec fn spec_degrees(udeg: int) -> Seq<char> {
    if udeg < 0 {
        "-"@ + spec_degrees_magnitude((-udeg) as nat)
    } else {
        spec_degrees_magnitude(udeg as nat)
    }
}

/// The decimal writing of a non-negative microdegree magnitude.
pub open spec fn spec_degrees_magnitude(m: nat) -> Seq<char> {
    spec_digits(m / 1_000_000) + "."@ + spec_digits_padded(m % 1_000_000, 6)
}

/// The exact body of the query's POST request: the fixed document and the
/// two coordinate variables in fractional degrees.
pub open spec fn spec_request_body(q: NearbyStations) -> Seq<char> {
    "{\"query\":\""@ + "query NearbyStations($latitude: Float!, $longitude: Float!) { nearbyStations(latitude: $latitude, longitude: $longitude) { name } }"@
        + "\",\"variables\":{\"latitude\":"@ + spec_degrees(q.latitude_udeg as int)
        + ",\"longitude\":"@ + spec_degrees(q.longitude_udeg as int) + "}}"@
}

/// Appends one decimal digit character.
fn append_digit(out: &mut String, d: u64)
    requires
        d < 10,
    ensures
        final(out)@ == old(out)@ + spec_digit(d as nat),
{
    if d == 0 {
        out.append("0");
    } else if d == 1 {
        out.append("1");
    } else if d == 2 {
        out.append("2");
    } else if d == 3 {
        out.append("3");
    } else if d == 4 {
        out.append("4");
    } else if d == 5 {
        out.append("5");
    } else if d == 6 {
        out.append("6");
    } else if d == 7 {
        out.append("7");
    } else if d == 8 {
        out.append("8");
    } else {
        out.append("9");
    }
}

/// Appends the plain decimal writing of `n`.
fn append_digits(out: &mut String, n: u64)
    ensures
        final(out)@ == old(out)@ + spec_digits(n as nat),
    decreases n,
{
    if n < 10 {
        append_digit(out, n);
    } else {
        append_digits(out, n / 10);
        append_digit(out, n % 10);
        proof {
            assert(final(out)@ =~= old(out)@ + spec_digits(n as nat));
        }
    }
}

/// Appends exactly `width` decimal digits of `n`, zero-padded.
fn append_digits_padded(out: &mut String, n: u64, width: u64)
    ensures
        final(out)@ == old(out)@ + spec_digits_padded(n as nat, width as nat),
    decreases width,
{
    if width > 0 {
        append_digits_padded(out, n / 10, width - 1);
        append_digit(out, n % 10);
        proof {
            assert(final(out)@ =~= old(out)@ + spec_digits_padded(n as nat, width as nat));
        }
    } else {
        proof {
            assert(final(out)@ =~= old(out)@ + spec_digits_padded(n as nat, 0));
        }
    }
}

/// Appends a microdegree coordinate written as fractional degrees.
fn append_degrees(out: &mut String, udeg: i64)
    ensures
        final(out)@ == old(out)@ + spec_degrees(udeg as int),
{
    let magnitude: u64 = if udeg >= 0 {
        udeg as u64
    } else {
        out.append("-");
        ((-(udeg + 1)) as u64) + 1
    };
    assert(magnitude == if udeg as int >= 0 {
        udeg as int
    } else {
        -(udeg as int)
    });
    append_digits(out, magnitude / 1_000_000);
    out.append(".");
    append_digits_padded(out, magnitude % 1_000_000, 6);
    proof {
        assert(final(out)@ =~= old(out)@ + spec_degrees(udeg as int));
    }
}

/// Builds the exact POST body of the query, as [`spec_request_body`]
/// writes it: the fixed document and the position in fractional degrees.
/// The shell sends these bytes as they stand.
pub fn request_body(q: &NearbyStations) -> (r: String)
    ensures
        r@ == spec_request_body(*q),
{
    let mut out = String::new();
    out.append("{\"query\":\"");
    out.append(query_document());
    out.append("\",\"variables\":{\"latitude\":");
    append_degrees(&mut out, q.latitude_udeg);
    out.append(",\"longitude\":");
    append_degrees(&mut out, q.longitude_udeg);
    out.append("}}");
    proof {
        assert(out@ =~= spec_request_body(*q));
    }
    out
}

/// A query's first list entry, when the list has a present first entry,
/// resolves to exactly that entry's name — present or absent.
pub proof fn lemma_first_entry_name_kept(
    resp: QueryResponse,
    stations: Vec<Option<StationData>>,
    s: StationData,
)
    requires
        resp.data matches Some(d) && d.nearby_stations == Some(stations),
        stations@.len() > 0,
        stations@[0] == Some(s),
    ensures
        spec_first_station(resp).name == s.name,
{
}

/// A response whose station list is empty or absent — or absent outright —
/// resolves to a result with an absent name.
pub proof fn lemma_absent_list_gives_absent_name(resp: QueryResponse)
    requires
        resp.data matches Some(d) ==> (d.nearby_stations matches Some(list) ==> list@.len()
            == 0),
    ensures
        spec_first_station(resp).name is None,
{
}

} // verus!
