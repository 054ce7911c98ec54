use vstd::prelude::*;
use vstd::string::StringExecFns;

use crate::codec::decode_project;
use crate::codec::spec_decode_project;
use crate::json::JsonValue;
use crate::model::FetchConfig;
use crate::model::FetchError;
use crate::model::ProjectDetails;
use crate::model::SpecFetchConfig;

verus! {

// ---------------------------------------------------------------------------
// Decimal rendering of the project identifier.
// ---------------------------------------------------------------------------

/// The digit character for one decimal place.
pub open spec fn dec_digit(d: nat) -> char {
    ((48 + (d % 10)) as u8) as char
}

/// The decimal digits of `n`, most significant first, with no sign and no
/// leading zero (except for zero itself).
pub open spec fn dec_str(n: nat) -> Seq<char>
    decreases n,
{
    if n < 10 {
        seq![dec_digit(n)]
    } else {
        dec_str(n / 10) + seq![dec_digit(n % 10)]
    }
}

/// One decimal digit as text.
fn digit_str(d: u64) -> (r: &'static str)
    requires
        d < 10,
    ensures
        r@ == seq![dec_digit(d as nat)],
{
    let r: &'static str = match d {
        0 => "0",
        1 => "1",
        2 => "2",
        3 => "3",
        4 => "4",
        5 => "5",
        6 => "6",
        7 => "7",
        8 => "8",
        _ => "9",
    };
    proof {
        reveal_strlit("0");
        reveal_strlit("1");
        reveal_strlit("2");
        reveal_strlit("3");
        reveal_strlit("4");
        reveal_strlit("5");
        reveal_strlit("6");
        reveal_strlit("7");
        reveal_strlit("8");
        reveal_strlit("9");
        assert(r@ =~= seq![dec_digit(d as nat)]);
    }
    r
}

/// Render an unsigned number in decimal.
pub fn u64_to_string(n: u64) -> (s: String)
    ensures
        s@ == dec_str(n as nat),
    decreases n,
{
    if n < 10 {
        let s = digit_str(n).to_owned();
        proof {
            assert(s@ =~= dec_str(n as nat));
        }
        s
    } else {
        let prefix = u64_to_string(n / 10);
        let s = prefix.concat(digit_str(n % 10));
        proof {
            assert(s@ =~= dec_str(n as nat));
        }
        s
    }
}

// ---------------------------------------------------------------------------
// The request that one fetch sends.
// ---------------------------------------------------------------------------

/// A configuration is usable when no field is blank and the identifier is
/// positive; nothing may be sent on a blank credential.
pub open spec fn config_valid(c: SpecFetchConfig) -> bool {
    c.api_root.len() > 0 && c.access_token.len() > 0 && c.project_id > 0
}

/// The exact address of the project-files endpoint for a configuration.
pub open spec fn spec_url(c: SpecFetchConfig) -> Seq<char> {
    c.api_root + "/v1/projects/"@ + dec_str(c.project_id as nat) + "/files"@
}

/// The three headers every fetch carries: content negotiation and the
/// service's token header.
pub open spec fn headers_ok(h: Seq<(String, String)>, c: SpecFetchConfig) -> bool {
    &&& h.len() == 3
    &&& h[0].0@ == "Accept"@ && h[0].1@ == "application/json"@
    &&& h[1].0@ == "Content-Type"@ && h[1].1@ == "application/json"@
    &&& h[2].0@ == "X-Figma-Token"@ && h[2].1@ == c.access_token
}

/// Whether the configuration may be sent at all.
pub fn validate_config(c: &FetchConfig) -> (ok: bool)
    ensures
        ok == config_valid(c@),
{
    !c.api_root.as_str().is_empty() && !c.access_token.as_str().is_empty() && c.project_id > 0
}

/// The URL the fetch addresses: `{apiRoot}/v1/projects/{projectId}/files`.
pub fn build_url(c: &FetchConfig) -> (u: String)
    ensures
        u@ == spec_url(c@),
{
    let mut url = c.api_root.clone();
    url.append("/v1/projects/");
    let num = u64_to_string(c.project_id);
    url.append(num.as_str());
    url.append("/files");
    proof {
        assert(url@ =~= spec_url(c@));
    }
    url
}

/// The headers of the authenticated request.
pub fn figma_headers(c: &FetchConfig) -> (h: Vec<(String, String)>)
    ensures
        headers_ok(h@, c@),
{
    let mut h: Vec<(String, String)> = Vec::new();
    h.push(("Accept".to_owned(), "application/json".to_owned()));
    h.push(("Content-Type".to_owned(), "application/json".to_owned()));
    h.push(("X-Figma-Token".to_owned(), c.access_token.clone()));
    h
}

/// Everything an HTTP client needs to issue the one fetch: the method, the
/// exact URL and the exact headers.
#[derive(Debug)]
pub struct RequestPlan {
    pub method: String,
    pub url: String,
    pub headers: Vec<(String, String)>,
}

/// Plan the single GET of the project-files endpoint. Succeeds exactly on a
/// valid configuration; a blank field or zero identifier is rejected here,
/// before anything is sent.
pub fn plan_request(c: &FetchConfig) -> (r: Result<RequestPlan, FetchError>)
    ensures
        r is Ok <==> config_valid(c@),
        r matches Ok(p) ==> p.method@ == "GET"@ && p.url@ == spec_url(c@) && headers_ok(
            p.headers@,
            c@,
        ),
        r matches Err(e) ==> e == FetchError::ConfigError,
{
    if validate_config(c) {
        Ok(
            RequestPlan {
                method: "GET".to_owned(),
                url: build_url(c),
                headers: figma_headers(c),
            },
        )
    } else {
        Err(FetchError::ConfigError)
    }
}

/// Judge the outcome of the exchange. Any non-success status is a transport
/// failure and no body is looked at; a success status hands the body to the
/// resource model, whose verdict is final.
pub fn interpret_response(status: u16, body: &JsonValue) -> (r: Result<ProjectDetails, FetchError>)
    ensures
        !(200 <= status < 300) ==> r == Err::<ProjectDetails, FetchError>(
            FetchError::TransportError,
        ),
        200 <= status < 300 ==> match r {
            Ok(p) => spec_decode_project(body@) == Some(p@),
            Err(e) => e == FetchError::SchemaMismatch && spec_decode_project(body@) is None,
        },
{
    if status < 200 || status >= 300 {
        Err(FetchError::TransportError)
    } else {
        decode_project(body)
    }
}

} // verus!
