//! Where the socket of the streaming protocol is, and what the request that
//! opens it carries.

use vstd::prelude::*;
use vstd::string::*;

verus! {

/// The one address of the socket.
pub const WS_URL: &'static str = "wss://dashscope.aliyuncs.com/api-ws/v1/inference";

/// The contents of a run of headers.
pub open spec fn headers_view(hs: Seq<(String, String)>) -> Seq<(Seq<char>, Seq<char>)> {
    Seq::new(hs.len(), |i: int| (hs[i].0@, hs[i].1@))
}

/// The headers of the request that opens the socket: the key as a bearer
/// credential, then the workspace and the data inspection rule, each where
/// the caller names one.
pub open spec fn upgrade_headers_of(
    api_key: Seq<char>,
    workspace_id: Option<Seq<char>>,
    data_inspection: Option<Seq<char>>,
) -> Seq<(Seq<char>, Seq<char>)> {
    seq![("Authorization"@, "Bearer "@ + api_key)] + (match workspace_id {
        Some(w) => seq![("X-DashScope-WorkSpace"@, w)],
        None => Seq::empty(),
    }) + (match data_inspection {
        Some(d) => seq![("X-DashScope-DataInspection"@, d)],
        None => Seq::empty(),
    })
}

/// The headers of the request that opens the socket.
pub fn upgrade_headers(
    api_key: &str,
    workspace_id: Option<&str>,
    data_inspection: Option<&str>,
) -> (r: Vec<(String, String)>)
    ensures
        headers_view(r@) == upgrade_headers_of(
            api_key@,
            match workspace_id {
                Some(w) => Some(w@),
                None => None,
            },
            match data_inspection {
                Some(d) => Some(d@),
                None => None,
            },
        ),
{
    let mut bearer = String::new();
    bearer.append("Bearer ");
    bearer.append(api_key);
    let mut hs: Vec<(String, String)> = Vec::new();
    hs.push(("Authorization".to_owned(), bearer));
    match workspace_id {
        Some(w) => hs.push(("X-DashScope-WorkSpace".to_owned(), w.to_owned())),
        None => {},
    }
    match data_inspection {
        Some(d) => hs.push(("X-DashScope-DataInspection".to_owned(), d.to_owned())),
        None => {},
    }
    proof {
        assert(bearer@ =~= "Bearer "@ + api_key@);
        assert(headers_view(hs@) =~= upgrade_headers_of(
            api_key@,
            match workspace_id {
                Some(w) => Some(w@),
                None => None,
            },
            match data_inspection {
                Some(d) => Some(d@),
                None => None,
            },
        ));
    }
    hs
}

} // verus!
