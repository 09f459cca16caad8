//! The routing decision for one request and the reply it leads to.

use vstd::prelude::*;
use crate::command::{command_with_options, lookup_cmd};
use crate::geo::{country_label, country_of};
use crate::headers::{
    find_name, has_name, is_host_name, projection_keys_law, pairs_view, project, projection, pretty_json_of, strip_quotes, unquoted,
    Entry, HeaderProjection,
};
use crate::text::str_eq;

verus! {

/// The content type of a reply.
#[derive(Clone, Copy, Debug, PartialEq, Eq, Structural)]
pub enum ContentType {
    TextPlain,
    TextHtml,
    ApplicationJson,
}

/// What is known of one request once its connection and headers are read.
pub struct RequestContext {
    /// The peer address of the connection, without its port.
    pub remote_address: String,
    /// Whether the user agent is a command-line fetch tool.
    pub is_cli_client: bool,
    /// The request's headers, names and raw values, in request order.
    pub headers: Vec<(String, String)>,
    /// The single path segment, absent for the root path.
    pub path: Option<String>,
    /// The `cmd` query parameter, if given.
    pub query_cmd: Option<String>,
}

/// The terminal branch that a request takes.
#[derive(Clone, Copy, Debug, PartialEq, Eq, Structural)]
pub enum Route {
    /// The root path for a command-line client: the address as text.
    CliAddress,
    /// The root path for a browser: the index page.
    IndexPage,
    /// `/country`: the country label as text.
    Country,
    /// `/all.json`: the header projection as JSON.
    AllJson,
    /// A path that names a request header: that header's value, at the
    /// given position of the request's headers.
    HeaderEcho(usize),
    /// An unknown path for a command-line client: an empty body.
    CliMiss,
    /// An unknown path for a browser: the not-found page.
    NotFoundPage,
}

/// The option's characters.
pub open spec fn opt_view(o: Option<String>) -> Option<Seq<char>> {
    match o {
        Some(s) => Some(s@),
        None => None,
    }
}

/// `i` is the first position in `hs` of a header named `name`.
pub open spec fn first_named(hs: Seq<Entry>, name: Seq<char>, i: int) -> bool {
    &&& 0 <= i < hs.len()
    &&& hs[i].0 == name
    &&& forall|j: int| 0 <= j < i ==> hs[j].0 != name
}

/// `r` is the branch for a request with these discriminators: the root path
/// by client kind; else `country`, then `all.json`, then a header named by
/// the path (names compared exactly), then the miss by client kind.
pub open spec fn routes_to(is_cli: bool, path: Option<Seq<char>>, hs: Seq<Entry>, r: Route) -> bool {
    match path {
        None => r == if is_cli { Route::CliAddress } else { Route::IndexPage },
        Some(p) => if p == "country"@ {
            r == Route::Country
        } else if p == "all.json"@ {
            r == Route::AllJson
        } else if has_name(hs, p) {
            r matches Route::HeaderEcho(i) && first_named(hs, p, i as int)
        } else {
            r == if is_cli { Route::CliMiss } else { Route::NotFoundPage }
        },
    }
}

impl RequestContext {
    /// The headers' characters.
    pub open spec fn headers_view(&self) -> Seq<Entry> {
        pairs_view(self.headers@)
    }

    /// Chooses the branch that this request takes.
    pub fn route(&self) -> (r: Route)
        ensures
            routes_to(self.is_cli_client, opt_view(self.path), self.headers_view(), r),
    {
        match &self.path {
            None => if self.is_cli_client {
                Route::CliAddress
            } else {
                Route::IndexPage
            },
            Some(p) => {
                if str_eq(p.as_str(), "country") {
                    Route::Country
                } else if str_eq(p.as_str(), "all.json") {
                    Route::AllJson
                } else {
                    match find_name(&self.headers, p.as_str()) {
                        Some(i) => {
                            assert forall|j: int| 0 <= j < i implies self.headers_view()[j].0 != p@ by {
                                assert(self.headers_view()[j].0 == self.headers@[j].0@);
                            }
                            Route::HeaderEcho(i)
                        },
                        None => if self.is_cli_client {
                            Route::CliMiss
                        } else {
                            Route::NotFoundPage
                        },
                    }
                }
            },
        }
    }
}

/// Whether the branch reports the client's country, so that it must be
/// looked up before the reply is made.
pub fn needs_country(r: Route) -> (b: bool)
    ensures
        b <==> (r == Route::IndexPage || r == Route::Country || r == Route::AllJson),
{
    match r {
        Route::IndexPage | Route::Country | Route::AllJson => true,
        _ => false,
    }
}

/// What the index page shows.
pub struct IndexPage {
    /// The command that the page shows, from the query (`curl` by default).
    pub cmd: String,
    /// Its invocation with options, empty for an unknown command.
    pub cmd_with_options: String,
    pub ip_address: String,
    pub headers: HeaderProjection,
    pub country: String,
}

/// The reply to a request.
pub enum Reply {
    /// A body ready to send with status 200.
    Text { content_type: ContentType, body: String },
    /// The index page, still to be rendered as HTML.
    Index(IndexPage),
    /// The not-found page, still to be rendered as HTML.
    NotFoundPage,
    /// A generic internal server error.
    ServerError,
}

/// `r` is a ready body of content type `ct` and characters `body`.
pub open spec fn is_text(r: Reply, ct: ContentType, body: Seq<char>) -> bool {
    match r {
        Reply::Text { content_type, body: b } => content_type == ct && b@ == body,
        _ => false,
    }
}

/// The command that the index page shows for the query's `cmd`.
pub open spec fn shown_cmd(query_cmd: Option<Seq<char>>) -> Seq<char> {
    match query_cmd {
        Some(c) => c,
        None => "curl"@,
    }
}

/// `page` shows a browser at `address`, in `country`, with headers `hs` and
/// query command `query_cmd`.
pub open spec fn index_shows(
    page: IndexPage,
    query_cmd: Option<Seq<char>>,
    hs: Seq<Entry>,
    address: Seq<char>,
    country: Seq<char>,
) -> bool {
    &&& page.cmd@ == shown_cmd(query_cmd)
    &&& page.cmd_with_options@ == command_with_options(shown_cmd(query_cmd))
    &&& page.ip_address@ == address
    &&& page.country@ == country
    &&& page.headers@ == projection(hs, address, country)
    &&& page.headers.wf()
}

/// `r` is the reply owed on branch `route` to a client at `address` with
/// headers `hs` and query command `query_cmd`, whose country lookup came to
/// `found`.
pub open spec fn replies(
    route: Route,
    address: Seq<char>,
    hs: Seq<Entry>,
    query_cmd: Option<Seq<char>>,
    found: Option<Seq<char>>,
    r: Reply,
) -> bool {
    let country = country_of(found);
    match route {
        Route::CliAddress => is_text(r, ContentType::TextPlain, address + "\n"@),
        Route::IndexPage => match r {
            Reply::Index(page) => index_shows(page, query_cmd, hs, address, country),
            _ => false,
        },
        Route::Country => is_text(r, ContentType::TextPlain, country),
        Route::AllJson => is_text(
            r,
            ContentType::ApplicationJson,
            pretty_json_of(projection(hs, address, country)),
        ),
        Route::HeaderEcho(i) => 0 <= i < hs.len() && is_text(
            r,
            ContentType::TextPlain,
            unquoted(hs[i as int].1),
        ),
        Route::CliMiss => is_text(r, ContentType::TextHtml, Seq::empty()),
        Route::NotFoundPage => r is NotFoundPage,
    }
}

impl RequestContext {
    /// Makes the reply to this request, given the outcome of the country
    /// lookup for its address (`None` when it failed or was not made; only
    /// the branches that `needs_country` names read it).
    pub fn respond(&self, found: Option<String>) -> (r: Reply)
        ensures
            exists|route: Route|
                routes_to(self.is_cli_client, opt_view(self.path), self.headers_view(), route)
                    && replies(
                    route,
                    self.remote_address@,
                    self.headers_view(),
                    opt_view(self.query_cmd),
                    opt_view(found),
                    r,
                ),
    {
        let route = self.route();
        let r = match route {
            Route::CliAddress => {
                let mut body = self.remote_address.clone();
                body.append("\n");
                Reply::Text { content_type: ContentType::TextPlain, body }
            },
            Route::IndexPage => {
                let country = country_label(found);
                let cmd = match &self.query_cmd {
                    Some(c) => c.clone(),
                    None => String::from_str("curl"),
                };
                let options = lookup_cmd(cmd.as_str());
                let headers = project(&self.headers, self.remote_address.as_str(), country.as_str());
                assert(cmd@ == shown_cmd(opt_view(self.query_cmd)));
                Reply::Index(
                    IndexPage {
                        cmd,
                        cmd_with_options: options.to_owned(),
                        ip_address: self.remote_address.clone(),
                        headers,
                        country,
                    },
                )
            },
            Route::Country => {
                Reply::Text { content_type: ContentType::TextPlain, body: country_label(found) }
            },
            Route::AllJson => {
                let country = country_label(found);
                let headers = project(&self.headers, self.remote_address.as_str(), country.as_str());
                Reply::Text { content_type: ContentType::ApplicationJson, body: headers.to_json() }
            },
            Route::HeaderEcho(i) => {
                let body = strip_quotes(self.headers[i as usize].1.as_str());
                assert(self.headers_view()[i as int].1 == self.headers@[i as int].1@);
                Reply::Text { content_type: ContentType::TextPlain, body }
            },
            Route::CliMiss => Reply::Text { content_type: ContentType::TextHtml, body: String::new() },
            Route::NotFoundPage => Reply::NotFoundPage,
        };
        assert(replies(
            route,
            self.remote_address@,
            self.headers_view(),
            opt_view(self.query_cmd),
            opt_view(found),
            r,
        ));
        r
    }
}

/// On `/all.json`, the reply is JSON text, written by serde_json from
/// entries that hold `country` and `ip-address` and no `host`, whatever
/// headers the request carried.
pub proof fn all_json_law(
    is_cli: bool,
    address: Seq<char>,
    hs: Seq<Entry>,
    query_cmd: Option<Seq<char>>,
    found: Option<Seq<char>>,
    route: Route,
    r: Reply,
)
    requires
        routes_to(is_cli, Some("all.json"@), hs, route),
        replies(route, address, hs, query_cmd, found, r),
    ensures
        exists|m: Seq<Entry>|
            #![trigger pretty_json_of(m)]
            is_text(r, ContentType::ApplicationJson, pretty_json_of(m))
                && has_name(m, "country"@)
                && has_name(m, "ip-address"@)
                && forall|i: int| 0 <= i < m.len() ==> !is_host_name((#[trigger] m[i]).0),
{
    reveal_strlit("all.json");
    reveal_strlit("country");
    assert("all.json"@[0] != "country"@[0]);
    let m = projection(hs, address, country_of(found));
    projection_keys_law(hs, address, country_of(found));
    assert(is_text(r, ContentType::ApplicationJson, pretty_json_of(m)));
}

/// On a path other than `country` and `all.json` that names no request
/// header, a browser gets the not-found page and a command-line client an
/// empty HTML body.
pub proof fn not_found_law(
    is_cli: bool,
    path: Seq<char>,
    address: Seq<char>,
    hs: Seq<Entry>,
    query_cmd: Option<Seq<char>>,
    found: Option<Seq<char>>,
    route: Route,
    r: Reply,
)
    requires
        path != "country"@,
        path != "all.json"@,
        !has_name(hs, path),
        routes_to(is_cli, Some(path), hs, route),
        replies(route, address, hs, query_cmd, found, r),
    ensures
        is_cli ==> is_text(r, ContentType::TextHtml, Seq::empty()),
        !is_cli ==> r is NotFoundPage,
{
}

/// The reply for a page whose rendering came to `page`: the HTML, or a
/// server error where rendering failed.
pub fn rendered(page: Option<String>) -> (r: Reply)
    ensures
        match page {
            Some(s) => is_text(r, ContentType::TextHtml, s@),
            None => r is ServerError,
        },
{
    match page {
        Some(body) => Reply::Text { content_type: ContentType::TextHtml, body },
        None => Reply::ServerError,
    }
}

} // verus!
