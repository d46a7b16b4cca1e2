//! The handle of one device and the requests that query and command it.
//!
//! An operation does not send anything. It resolves the path of its endpoint
//! against the address of the device and returns the request that a
//! transport has to carry out; an operation that finds its argument wanting
//! returns an error and no request.

use crate::address::url_join;
use crate::error::{Error, ErrorView};
use crate::key::Key;
use crate::models::App;
use crate::search::{pair_texts, Search};
use url::Url;
use vstd::prelude::*;
use vstd::string::*;

verus! {

/// The method of a request.
#[derive(Debug, Clone, Copy, PartialEq, Eq, Structural)]
pub enum Method {
    Get,
    Post,
}

/// A request to a device: the method, the address of the endpoint, and the
/// query parameters to attach to it, in order and as given.
#[derive(Debug)]
pub struct Request {
    pub method: Method,
    pub url: Url,
    pub query: Vec<(String, String)>,
}

/// What a request holds.
pub struct RequestView {
    pub method: Method,
    pub url: Url,
    pub query: Seq<(Seq<char>, Seq<char>)>,
}

impl View for Request {
    type V = RequestView;

    open spec fn view(&self) -> RequestView {
        RequestView { method: self.method, url: self.url, query: pair_texts(self.query@) }
    }
}

/// What an operation returned: the request, or the error.
pub open spec fn planned(result: Result<Request, Error>) -> Result<RequestView, ErrorView> {
    match result {
        Ok(request) => Ok(request@),
        Err(error) => Err(error@),
    }
}

/// The request that goes to a path below a base address: the path resolved
/// against the base, or the error of the resolution.
pub open spec fn request_to(
    base: Url,
    method: Method,
    path: Seq<char>,
    query: Seq<(Seq<char>, Seq<char>)>,
) -> Result<RequestView, ErrorView> {
    match url_join(base, path) {
        Ok(url) => Ok(RequestView { method, url, query }),
        Err(source) => Err(ErrorView::URLParse(source)),
    }
}

/// The command for an application, at an endpoint: the request that goes to
/// the identifier below the endpoint, or an argument error where the
/// application has no identifier.
pub open spec fn app_command(base: Url, endpoint: Seq<char>, id: Option<String>) -> Result<
    RequestView,
    ErrorView,
> {
    match id {
        Some(id) => request_to(base, Method::Post, endpoint + seq!['/'] + id@, Seq::empty()),
        None => Err(ErrorView::Argument("app.id required"@)),
    }
}

/// One device, known by its base address.
#[derive(Debug)]
pub struct Device {
    url: Url,
}

impl View for Device {
    type V = Url;

    closed spec fn view(&self) -> Url {
        self.url
    }
}

impl Device {
    /// The handle of the device at a base address.
    pub fn new(url: Url) -> (device: Device)
        ensures
            device@ == url,
    {
        Device { url }
    }

    /// The base address of the device.
    pub fn address(&self) -> (url: &Url)
        ensures
            *url == self@,
    {
        &self.url
    }

    fn request(&self, method: Method, path: &str, query: Vec<(String, String)>) -> (result: Result<
        Request,
        Error,
    >)
        ensures
            planned(result) == request_to(self@, method, path@, pair_texts(query@)),
    {
        match self.url.join(path) {
            Ok(url) => Ok(Request { method, url, query }),
            Err(source) => Err(Error::URLParse(source)),
        }
    }

    /// A request without query parameters.
    fn plain(&self, method: Method, path: &str) -> (result: Result<Request, Error>)
        ensures
            planned(result) == request_to(self@, method, path@, Seq::empty()),
    {
        let query: Vec<(String, String)> = Vec::new();
        assert(pair_texts(query@) =~= Seq::empty());
        self.request(method, path, query)
    }

    /// A command whose path is an endpoint and, below it, a token.
    fn command(&self, endpoint: &str, token: &str) -> (result: Result<Request, Error>)
        ensures
            planned(result) == request_to(
                self@,
                Method::Post,
                endpoint@ + seq!['/'] + token@,
                Seq::empty(),
            ),
    {
        let mut path = String::from_str(endpoint);
        path.append("/");
        path.append(token);
        proof {
            reveal_strlit("/");
            assert(path@ =~= endpoint@ + seq!['/'] + token@);
        }
        self.plain(Method::Post, path.as_str())
    }

    /// The query for the installed applications.
    pub fn apps(&self) -> (result: Result<Request, Error>)
        ensures
            planned(result) == request_to(self@, Method::Get, "query/apps"@, Seq::empty()),
    {
        self.plain(Method::Get, "query/apps")
    }

    /// The query for the application in the foreground.
    pub fn active_app(&self) -> (result: Result<Request, Error>)
        ensures
            planned(result) == request_to(self@, Method::Get, "query/active-app"@, Seq::empty()),
    {
        self.plain(Method::Get, "query/active-app")
    }

    /// The query for the state of the media player.
    pub fn media_player(&self) -> (result: Result<Request, Error>)
        ensures
            planned(result) == request_to(
                self@,
                Method::Get,
                "query/media-player"@,
                Seq::empty(),
            ),
    {
        self.plain(Method::Get, "query/media-player")
    }

    /// The query for what the device reports of itself.
    pub fn device_info(&self) -> (result: Result<Request, Error>)
        ensures
            planned(result) == request_to(self@, Method::Get, "query/device-info"@, Seq::empty()),
    {
        self.plain(Method::Get, "query/device-info")
    }

    /// The command that holds a key down.
    pub fn keydown(&self, key: &Key) -> (result: Result<Request, Error>)
        ensures
            planned(result) == request_to(
                self@,
                Method::Post,
                "keydown"@ + seq!['/'] + key.token(),
                Seq::empty(),
            ),
    {
        self.command("keydown", key.to_string().as_str())
    }

    /// The command that releases a key.
    pub fn keyup(&self, key: &Key) -> (result: Result<Request, Error>)
        ensures
            planned(result) == request_to(
                self@,
                Method::Post,
                "keyup"@ + seq!['/'] + key.token(),
                Seq::empty(),
            ),
    {
        self.command("keyup", key.to_string().as_str())
    }

    /// The command that presses and releases a key.
    pub fn keypress(&self, key: &Key) -> (result: Result<Request, Error>)
        ensures
            planned(result) == request_to(
                self@,
                Method::Post,
                "keypress"@ + seq!['/'] + key.token(),
                Seq::empty(),
            ),
    {
        self.command("keypress", key.to_string().as_str())
    }

    /// The command that launches an application. An application without an
    /// identifier cannot be launched: the result is then an argument error,
    /// and there is no request to send.
    pub fn launch(&self, app: &App) -> (result: Result<Request, Error>)
        ensures
            planned(result) == app_command(self@, "launch"@, app.id),
    {
        match &app.id {
            Some(id) => self.command("launch", id.as_str()),
            None => Err(Error::Argument(String::from_str("app.id required"))),
        }
    }

    /// The command that installs an application. An application without an
    /// identifier cannot be installed: the result is then an argument error,
    /// and there is no request to send.
    pub fn install(&self, app: &App) -> (result: Result<Request, Error>)
        ensures
            planned(result) == app_command(self@, "install"@, app.id),
    {
        match &app.id {
            Some(id) => self.command("install", id.as_str()),
            None => Err(Error::Argument(String::from_str("app.id required"))),
        }
    }

    /// The command that sends input: the pairs become the query parameters,
    /// in order and as they are.
    pub fn input(&self, input: &[(String, String)]) -> (result: Result<Request, Error>)
        ensures
            planned(result) == request_to(self@, Method::Post, "input"@, pair_texts(input@)),
    {
        let mut query: Vec<(String, String)> = Vec::new();
        let mut i: usize = 0;
        while i < input.len()
            invariant
                i <= input.len(),
                pair_texts(query@) == pair_texts(input@.take(i as int)),
            decreases input.len() - i,
        {
            let ghost before = query@;
            let pair = &input[i];
            query.push((pair.0.clone(), pair.1.clone()));
            proof {
                let copied = pair_texts(query@);
                let given = pair_texts(input@.take(i + 1));
                assert(pair_texts(before).len() == pair_texts(input@.take(i as int)).len());
                assert forall|j: int| 0 <= j < copied.len() implies copied[j] == given[j] by {
                    if j < i {
                        assert(pair_texts(before)[j] == pair_texts(input@.take(i as int))[j]);
                    }
                }
                assert(copied =~= given);
            }
            i += 1;
        }
        assert(input@.take(i as int) =~= input@);
        self.request(Method::Post, "input", query)
    }

    /// The command that searches: the wire form of the search becomes the
    /// query parameters.
    pub fn search(&self, search: Search) -> (result: Result<Request, Error>)
        ensures
            planned(result) == request_to(self@, Method::Post, "search"@, search@.pairs()),
    {
        let query = search.build();
        self.request(Method::Post, "search", query)
    }
}

/// An application without an identifier cannot be commanded: the result is
/// an argument error whatever the address of the device and the endpoint, so
/// no request comes back and nothing is sent.
pub proof fn lemma_identifier_required(base: Url, endpoint: Seq<char>, id: Option<String>)
    ensures
        id is None ==> app_command(base, endpoint, id) == Err::<RequestView, ErrorView>(
            ErrorView::Argument("app.id required"@),
        ),
        id is Some ==> app_command(base, endpoint, id) == request_to(
            base,
            Method::Post,
            endpoint + seq!['/'] + id->0@,
            Seq::empty(),
        ),
{
}

} // verus!
