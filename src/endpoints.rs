use vstd::prelude::*;

use crate::digits::{decimal, push_decimal};

verus! {

/// Root of the Open Cloud v2 API.
pub const BASE_URL: &'static str = "https://apis.roblox.com/cloud/v2";

/// Identifies this client to the API.
pub const USER_AGENT: &'static str = "Dekkonot/OpenCloudExecutionApp 0.0.0";

/// The header that carries the API key.
pub const API_KEY_HEADER: &'static str = "x-api-key";

/// The endpoint that runs scripts in a place: its live version when no version
/// is given, else that published version.
pub open spec fn spec_task_url(
    place_id: Seq<char>,
    universe_id: Seq<char>,
    version_number: Option<Seq<char>>,
) -> Seq<char> {
    let places = BASE_URL@ + "/universes/"@ + universe_id + "/places/"@ + place_id;
    match version_number {
        Some(v) => places + "/versions/"@ + v + "/luau-execution-session-tasks"@,
        None => places + "/luau-execution-session-tasks"@,
    }
}

pub fn create_task_url(place_id: &str, universe_id: &str, version_number: Option<&str>) -> (r:
    String)
    ensures
        r@ == spec_task_url(
            place_id@,
            universe_id@,
            match version_number {
                Some(v) => Some(v@),
                None => None,
            },
        ),
{
    let mut url = String::from_str(BASE_URL);
    url.append("/universes/");
    url.append(universe_id);
    url.append("/places/");
    url.append(place_id);
    if let Some(number) = version_number {
        url.append("/versions/");
        url.append(number);
    }
    url.append("/luau-execution-session-tasks");
    url
}

/// The positions at which the identifiers stand in a task URL.
pub open spec fn universe_start() -> int {
    (BASE_URL@ + "/universes/"@).len() as int
}

/// A task URL holds the universe id, the place id and, when given, the version
/// unchanged, each at a position that depends only on the lengths before it, so
/// each can be read back from the URL.
pub proof fn lemma_task_url_keeps_ids(
    place_id: Seq<char>,
    universe_id: Seq<char>,
    version_number: Option<Seq<char>>,
)
    ensures
        ({
            let url = spec_task_url(place_id, universe_id, version_number);
            let u = universe_start();
            let p = u + universe_id.len() + "/places/"@.len();
            &&& url.subrange(u, u + universe_id.len()) == universe_id
            &&& url.subrange(p, p + place_id.len()) == place_id
            &&& match version_number {
                Some(v) => {
                    let s = p + place_id.len() + "/versions/"@.len();
                    &&& url.subrange(s, s + v.len()) == v
                    &&& url.len() == s + v.len() + "/luau-execution-session-tasks"@.len()
                },
                None => url.len() == p + place_id.len() + "/luau-execution-session-tasks"@.len(),
            }
        }),
{
    let url = spec_task_url(place_id, universe_id, version_number);
    let u = universe_start();
    let p = u + universe_id.len() + "/places/"@.len();
    let head = BASE_URL@ + "/universes/"@;
    let places = head + universe_id + "/places/"@ + place_id;
    assert(places.subrange(u, u + universe_id.len()) =~= universe_id);
    assert(places.subrange(p, p + place_id.len()) =~= place_id);
    match version_number {
        Some(v) => {
            let s = p + place_id.len() + "/versions/"@.len();
            assert(url.subrange(u, u + universe_id.len()) =~= universe_id);
            assert(url.subrange(p, p + place_id.len()) =~= place_id);
            assert(url.subrange(s, s + v.len()) =~= v);
        },
        None => {
            assert(url.subrange(u, u + universe_id.len()) =~= universe_id);
            assert(url.subrange(p, p + place_id.len()) =~= place_id);
        },
    }
}

/// The endpoint of an existing task, named by its resource path.
pub open spec fn spec_resource_url(path: Seq<char>) -> Seq<char> {
    BASE_URL@ + "/"@ + path
}

pub fn task_query_url(path: &str) -> (r: String)
    ensures
        r@ == spec_resource_url(path@),
{
    let mut url = String::from_str(BASE_URL);
    url.append("/");
    url.append(path);
    url
}

/// The two views in which the logs endpoint returns a task's logs.
#[derive(Debug, Clone, Copy, PartialEq, Eq)]
pub enum LogView {
    Flat,
    Structured,
}

pub open spec fn spec_view_name(view: LogView) -> Seq<char> {
    match view {
        LogView::Flat => "FLAT"@,
        LogView::Structured => "STRUCTURED"@,
    }
}

pub open spec fn spec_logs_url(path: Seq<char>, view: LogView) -> Seq<char> {
    spec_resource_url(path) + "/logs?view="@ + spec_view_name(view)
}

pub fn task_logs_url(path: &str, view: LogView) -> (r: String)
    ensures
        r@ == spec_logs_url(path@, view),
{
    let mut url = task_query_url(path);
    url.append("/logs?view=");
    match view {
        LogView::Flat => url.append("FLAT"),
        LogView::Structured => url.append("STRUCTURED"),
    }
    url
}

/// Statuses in the 2xx range mean the request succeeded.
pub open spec fn spec_is_success(status: u16) -> bool {
    200 <= status < 300
}

pub fn is_success_status(status: u16) -> (r: bool)
    ensures
        r == spec_is_success(status),
{
    200 <= status && status < 300
}

/// The diagnostic line for one finished request: its outcome, status and URL.
pub open spec fn spec_exchange_report(status: u16, url: Seq<char>) -> Seq<char> {
    let tag = if spec_is_success(status) { "[SUCCESS] "@ } else { "[ERROR  ] "@ };
    tag + decimal(status as nat) + " "@ + url
}

pub fn exchange_report(status: u16, url: &str) -> (r: String)
    ensures
        r@ == spec_exchange_report(status, url@),
{
    let mut line = if is_success_status(status) {
        String::from_str("[SUCCESS] ")
    } else {
        String::from_str("[ERROR  ] ")
    };
    push_decimal(&mut line, status as u64);
    line.append(" ");
    line.append(url);
    line
}

} // verus!
