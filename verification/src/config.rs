//! Where the service is and how the client shows who it is.

use crate::error::BuilderError;
use vstd::prelude::*;
use vstd::string::*;

verus! {

/// The address of the service where the caller names none.
pub const DASHSCOPE_API_BASE: &'static str = "https://dashscope.aliyuncs.com/api/v1";

/// The address of the service where the caller names none.
pub open spec fn default_base() -> Seq<char> {
    "https://dashscope.aliyuncs.com/api/v1"@
}

/// A text without the slashes at its end.
pub open spec fn without_trailing_slashes(s: Seq<char>) -> Seq<char>
    decreases s.len(),
{
    if s.len() > 0 && s.last() == '/' {
        without_trailing_slashes(s.drop_last())
    } else {
        s
    }
}

/// A text without the slashes at its beginning.
pub open spec fn without_leading_slashes(s: Seq<char>) -> Seq<char>
    decreases s.len(),
{
    if s.len() > 0 && s.first() == '/' {
        without_leading_slashes(s.drop_first())
    } else {
        s
    }
}

/// The address of `path` under `base`: the two joined by exactly one slash,
/// and no slash at the end.
pub open spec fn joined(base: Seq<char>, path: Seq<char>) -> Seq<char> {
    without_trailing_slashes(
        without_trailing_slashes(base) + seq!['/'] + without_leading_slashes(path),
    )
}

/// How many characters of `s` are left without the slashes at its end.
fn end_without_slashes(s: &str) -> (end: usize)
    ensures
        end <= s@.len(),
        s@.subrange(0, end as int) == without_trailing_slashes(s@),
{
    let mut end = s.unicode_len();
    proof {
        assert(s@.subrange(0, end as int) =~= s@);
    }
    while end > 0 && s.get_char(end - 1) == '/'
        invariant
            end <= s@.len(),
            without_trailing_slashes(s@) == without_trailing_slashes(s@.subrange(0, end as int)),
        decreases end,
    {
        proof {
            let t = s@.subrange(0, end as int);
            assert(t.last() == '/');
            assert(t.drop_last() =~= s@.subrange(0, end as int - 1));
        }
        end = end - 1;
    }
    proof {
        let t = s@.subrange(0, end as int);
        assert(end > 0 ==> t.last() == s@[end as int - 1]);
    }
    end
}

/// How many characters at the beginning of `s` are slashes.
fn start_without_slashes(s: &str) -> (start: usize)
    ensures
        start <= s@.len(),
        s@.subrange(start as int, s@.len() as int) == without_leading_slashes(s@),
{
    let n = s.unicode_len();
    let mut start: usize = 0;
    proof {
        assert(s@.subrange(0, n as int) =~= s@);
    }
    while start < n && s.get_char(start) == '/'
        invariant
            start <= n,
            n == s@.len(),
            without_leading_slashes(s@) == without_leading_slashes(
                s@.subrange(start as int, n as int),
            ),
        decreases n - start,
    {
        proof {
            let t = s@.subrange(start as int, n as int);
            assert(t.first() == '/');
            assert(t.drop_first() =~= s@.subrange(start as int + 1, n as int));
        }
        start = start + 1;
    }
    proof {
        let t = s@.subrange(start as int, n as int);
        assert(start < n ==> t.first() == s@[start as int]);
    }
    start
}

/// Joins a base address and a path by exactly one slash, with no slash at
/// the end.
pub fn join_url(base: &str, path: &str) -> (r: String)
    ensures
        r@ == joined(base@, path@),
{
    let end = end_without_slashes(base);
    let start = start_without_slashes(path);
    let mut whole = String::new();
    whole.append(base.substring_char(0, end));
    whole.append("/");
    whole.append(path.substring_char(start, path.unicode_len()));
    proof {
        reveal_strlit("/");
        assert("/"@ =~= seq!['/']);
        assert(whole@ =~= without_trailing_slashes(base@) + seq!['/'] + without_leading_slashes(
            path@,
        ));
    }
    let cut = end_without_slashes(whole.as_str());
    whole.as_str().substring_char(0, cut).to_owned()
}

/// The address of the service and the key of the caller.
#[derive(Clone, PartialEq, Eq)]
pub struct Config {
    api_base: Option<String>,
    api_key: String,
}

/// The content of a [`Config`].
pub struct ConfigView {
    pub api_base: Option<Seq<char>>,
    pub api_key: Seq<char>,
}

impl View for Config {
    type V = ConfigView;

    closed spec fn view(&self) -> ConfigView {
        ConfigView {
            api_base: match self.api_base {
                Some(b) => Some(b@),
                None => None,
            },
            api_key: self.api_key@,
        }
    }
}

impl ConfigView {
    /// The address of the service: the one that was named, else the standard one.
    pub open spec fn base(self) -> Seq<char> {
        match self.api_base {
            Some(b) => b,
            None => default_base(),
        }
    }

    /// The headers of every request, by name and value: the content type,
    /// the switch that lets the service resolve uploaded files, and the key
    /// as a bearer credential.
    pub open spec fn headers(self) -> Seq<(Seq<char>, Seq<char>)> {
        seq![
            ("Content-Type"@, "application/json"@),
            ("X-DashScope-OssResourceResolve"@, "enable"@),
            ("Authorization"@, "Bearer "@ + self.api_key),
        ]
    }
}

/// The contents of a run of headers.
pub open spec fn headers_view(hs: Seq<(String, String)>) -> Seq<(Seq<char>, Seq<char>)> {
    Seq::new(hs.len(), |i: int| (hs[i].0@, hs[i].1@))
}

impl Config {
    /// A configuration for the service at `api_base` (the standard address,
    /// where none is given) with the key `api_key`.
    pub fn new(api_base: Option<String>, api_key: String) -> (r: Config)
        ensures
            r@ == (ConfigView {
                api_base: match api_base {
                    Some(b) => Some(b@),
                    None => None,
                },
                api_key: api_key@,
            }),
    {
        Config { api_base, api_key }
    }

    /// The address of `path` at the service.
    pub fn url(&self, path: &str) -> (r: String)
        ensures
            r@ == joined(self@.base(), path@),
    {
        match &self.api_base {
            Some(b) => join_url(b.as_str(), path),
            None => join_url(DASHSCOPE_API_BASE, path),
        }
    }

    /// The headers of every request, by name and value.
    pub fn headers(&self) -> (r: Vec<(String, String)>)
        ensures
            headers_view(r@) == self@.headers(),
    {
        let mut bearer = String::new();
        bearer.append("Bearer ");
        bearer.append(self.api_key.as_str());
        let mut hs: Vec<(String, String)> = Vec::new();
        hs.push(("Content-Type".to_owned(), "application/json".to_owned()));
        hs.push(("X-DashScope-OssResourceResolve".to_owned(), "enable".to_owned()));
        hs.push(("Authorization".to_owned(), bearer));
        proof {
            assert(bearer@ =~= "Bearer "@ + self.api_key@);
            assert(headers_view(hs@) =~= self@.headers());
        }
        hs
    }

    /// Replaces the key.
    pub fn set_api_key(&mut self, api_key: String)
        ensures
            final(self)@ == (ConfigView { api_base: old(self)@.api_base, api_key: api_key@ }),
    {
        self.api_key = api_key;
    }

    /// The key.
    pub fn api_key(&self) -> (r: &str)
        ensures
            r@ == self@.api_key,
    {
        self.api_key.as_str()
    }
}

/// Collects the members of a [`Config`] one by one.
#[derive(Clone)]
pub struct ConfigBuilder {
    api_base: Option<String>,
    api_key: Option<String>,
}

impl Default for ConfigBuilder {
    /// A builder in which nothing is set.
    fn default() -> (r: ConfigBuilder)
        ensures
            r.address() is None,
            r.key() is None,
    {
        ConfigBuilder { api_base: None, api_key: None }
    }
}

impl ConfigBuilder {
    /// The address that was set.
    pub closed spec fn address(self) -> Option<Seq<char>> {
        match self.api_base {
            Some(b) => Some(b@),
            None => None,
        }
    }

    /// The key that was set.
    pub closed spec fn key(self) -> Option<Seq<char>> {
        match self.api_key {
            Some(k) => Some(k@),
            None => None,
        }
    }

    /// The address of the service where the caller names none.
    pub fn default_base_url(&self) -> (r: Option<String>)
        ensures
            r is Some,
            r->0@ == default_base(),
    {
        Some(DASHSCOPE_API_BASE.to_owned())
    }

    /// Sets the address of the service.
    pub fn api_base(self, value: &str) -> (r: ConfigBuilder)
        ensures
            r.address() == Some(value@),
            r.key() == self.key(),
    {
        ConfigBuilder { api_base: Some(value.to_owned()), api_key: self.api_key }
    }

    /// Sets the key.
    pub fn api_key(self, value: &str) -> (r: ConfigBuilder)
        ensures
            r.key() == Some(value@),
            r.address() == self.address(),
    {
        ConfigBuilder { api_base: self.api_base, api_key: Some(value.to_owned()) }
    }

    /// Builds the configuration. The key must be set; the address is the
    /// standard one where none was set.
    pub fn build(self) -> (r: Result<Config, BuilderError>)
        ensures
            match r {
                Ok(c) => self.key() is Some && c@ == (ConfigView {
                    api_base: Some(
                        match self.address() {
                            Some(b) => b,
                            None => default_base(),
                        },
                    ),
                    api_key: self.key()->0,
                }),
                Err(e) => self.key() is None && e.field() == "api_key"@,
            },
    {
        let api_key = match self.api_key {
            Some(k) => k,
            None => return Err(BuilderError::UninitializedField("api_key")),
        };
        let api_base = match self.api_base {
            Some(b) => Some(b),
            None => Some(DASHSCOPE_API_BASE.to_owned()),
        };
        Ok(Config { api_base, api_key })
    }
}

} // verus!
