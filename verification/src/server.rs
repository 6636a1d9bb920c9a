//! The serving layer: which route a request takes, and what each route
//! answers, given what the cache held and what the renderer made of it.

use vstd::prelude::*;
use crate::json::escape;
use crate::json::escape_text;
use crate::json::escaped_text_reads_back;
use crate::json::unescape;
use crate::text::same_text;

verus! {

/// The method of a request, as far as the routes tell methods apart.
#[derive(Clone, Copy, Debug, PartialEq, Eq, Structural)]
pub enum Method {
    Get,
    Other,
}

/// A source whose artifact is served.
#[derive(Clone, Copy, Debug, PartialEq, Eq, Structural)]
pub enum Source {
    Weather,
    Crypto,
}

/// Where a request goes.
#[derive(Clone, Copy, Debug, PartialEq, Eq, Structural)]
pub enum Route {
    /// `GET /admin/stats`
    Stats,
    /// `GET /api/{source}`, for a known source
    Api { source: Source },
    /// Anything else.
    NotFound,
}

impl Source {
    /// The name of the source: the key of its artifact and the last part of
    /// its route.
    pub open spec fn name_spec(self) -> Seq<char> {
        match self {
            Source::Weather => "weather"@,
            Source::Crypto => "crypto"@,
        }
    }

    /// The name of the source as error messages spell it.
    pub open spec fn label_spec(self) -> Seq<char> {
        match self {
            Source::Weather => "Weather"@,
            Source::Crypto => "Crypto"@,
        }
    }

    /// The name of the source: `weather` or `crypto`.
    pub fn name(self) -> (name: &'static str)
        ensures
            name@ == self.name_spec(),
    {
        match self {
            Source::Weather => "weather",
            Source::Crypto => "crypto",
        }
    }

    /// The name of the source as error messages spell it: `Weather` or
    /// `Crypto`.
    pub fn label(self) -> (label: &'static str)
        ensures
            label@ == self.label_spec(),
    {
        match self {
            Source::Weather => "Weather",
            Source::Crypto => "Crypto",
        }
    }
}

/// The source that goes by `name`, if there is one.
pub open spec fn known_source(name: Seq<char>) -> Option<Source> {
    if name == Source::Weather.name_spec() {
        Some(Source::Weather)
    } else if name == Source::Crypto.name_spec() {
        Some(Source::Crypto)
    } else {
        None
    }
}

/// The route of a request for `url` by `method`.
pub open spec fn route_of(method: Method, url: Seq<char>) -> Route {
    if method != Method::Get {
        Route::NotFound
    } else if url == "/admin/stats"@ {
        Route::Stats
    } else if "/api/"@.is_prefix_of(url) {
        match known_source(url.skip("/api/"@.len() as int)) {
            Some(source) => Route::Api { source },
            None => Route::NotFound,
        }
    } else {
        Route::NotFound
    }
}

/// The route of a request.
pub fn route(method: Method, url: &str) -> (route: Route)
    ensures
        route == route_of(method, url@),
{
    proof {
        reveal_strlit("/admin/stats");
        reveal_strlit("/api/");
        reveal_strlit("/api/weather");
        reveal_strlit("/api/crypto");
        reveal_strlit("weather");
        reveal_strlit("crypto");
        assert("/api/weather"@ =~= "/api/"@ + "weather"@);
        assert("/api/crypto"@ =~= "/api/"@ + "crypto"@);
        assert("/api/weather"@.skip(5) =~= "weather"@);
        assert("/api/crypto"@.skip(5) =~= "crypto"@);
        if "/api/"@.is_prefix_of(url@) {
            assert(url@ =~= "/api/"@ + url@.skip(5));
        }
    }
    match method {
        Method::Get => {
            if same_text(url, "/admin/stats") {
                Route::Stats
            } else if same_text(url, "/api/weather") {
                Route::Api { source: Source::Weather }
            } else if same_text(url, "/api/crypto") {
                Route::Api { source: Source::Crypto }
            } else {
                Route::NotFound
            }
        },
        Method::Other => Route::NotFound,
    }
}

/// A name that belongs to no known source has no route: a request for
/// `/api/{name}` is not found, by any method.
pub proof fn unknown_source_is_not_found(method: Method, name: Seq<char>)
    requires
        known_source(name) is None,
    ensures
        route_of(method, "/api/"@ + name) == Route::NotFound,
{
    reveal_strlit("/admin/stats");
    reveal_strlit("/api/");
    let url = "/api/"@ + name;
    assert(url[1] == 'a');
    assert("/admin/stats"@[1] == 'a');
    assert(url[2] == 'p');
    assert("/admin/stats"@[2] == 'd');
    assert(url.skip(5) =~= name);
}

/// What the cache and the renderer made of the artifact of a source.
#[derive(Debug)]
pub enum Artifact {
    /// There is no artifact, or it cannot be read.
    Unreadable,
    /// The artifact is no JSON document; `message` says why.
    Malformed { message: String },
    /// The renderer has made `body` of the artifact.
    Rendered { body: String },
    /// The renderer has failed, with `message`.
    Failed { message: String },
}

/// An [`Artifact`] as plain values.
pub enum ArtifactView {
    Unreadable,
    Malformed { message: Seq<char> },
    Rendered { body: Seq<char> },
    Failed { message: Seq<char> },
}

impl View for Artifact {
    type V = ArtifactView;

    open spec fn view(&self) -> ArtifactView {
        match *self {
            Artifact::Unreadable => ArtifactView::Unreadable,
            Artifact::Malformed { message } => ArtifactView::Malformed { message: message@ },
            Artifact::Rendered { body } => ArtifactView::Rendered { body: body@ },
            Artifact::Failed { message } => ArtifactView::Failed { message: message@ },
        }
    }
}

/// The answer to a request: the status, the content type where the answer
/// names one, and the body.
#[derive(Debug)]
pub struct Reply {
    pub status: u16,
    pub content_type: Option<&'static str>,
    pub body: String,
}

/// A [`Reply`] as plain values.
pub struct ReplyView {
    pub status: u16,
    pub content_type: Option<Seq<char>>,
    pub body: Seq<char>,
}

impl View for Reply {
    type V = ReplyView;

    open spec fn view(&self) -> ReplyView {
        ReplyView {
            status: self.status,
            content_type: match self.content_type {
                Some(kind) => Some(kind@),
                None => None,
            },
            body: self.body@,
        }
    }
}

/// The answer to a request that has no route.
pub open spec fn not_found() -> ReplyView {
    ReplyView { status: 404, content_type: None, body: "404"@ }
}

/// The answer where the server cannot serve what was asked for.
pub open spec fn server_error() -> ReplyView {
    ReplyView { status: 500, content_type: None, body: "500"@ }
}

/// The answer that carries a rendered artifact.
pub open spec fn json(body: Seq<char>) -> ReplyView {
    ReplyView { status: 200, content_type: Some("application/json; charset=utf-8"@), body }
}

/// The words of the tooltip where the artifact of `source` could not be
/// rendered, for the reason that `message` gives.
pub open spec fn failure_tooltip(source: Source, message: Seq<char>) -> Seq<char> {
    source.label_spec() + " service failed: "@ + message + "!"@
}

/// What stands before the tooltip in the body that shows an error: the
/// text is the error glyph.
pub open spec fn error_head() -> Seq<char> {
    "{\"text\":\"⛓️‍💥\", \"tooltip\":\""@
}

/// What stands behind the tooltip in the body that shows an error.
pub open spec fn error_tail() -> Seq<char> {
    "\"}"@
}

/// The body that stands in for the artifact of `source` where it could not
/// be rendered: a JSON object of the same shape, whose text is the error
/// glyph and whose tooltip holds the message, written as a JSON string.
pub open spec fn error_body(source: Source, message: Seq<char>) -> Seq<char> {
    error_head() + escape(failure_tooltip(source, message)) + error_tail()
}

/// The answer to a request for the artifact of `source`.
pub open spec fn api_reply(source: Source, artifact: ArtifactView) -> ReplyView {
    match artifact {
        ArtifactView::Unreadable => server_error(),
        ArtifactView::Malformed { message } => json(error_body(source, message)),
        ArtifactView::Rendered { body } => json(body),
        ArtifactView::Failed { message } => json(error_body(source, message)),
    }
}

/// The answer to a request that has no route: status 404.
pub fn serve_404() -> (reply: Reply)
    ensures
        reply@ == not_found(),
{
    Reply { status: 404, content_type: None, body: "404".to_owned() }
}

/// The answer where the server cannot serve what was asked for: status 500.
pub fn serve_500() -> (reply: Reply)
    ensures
        reply@ == server_error(),
{
    Reply { status: 500, content_type: None, body: "500".to_owned() }
}

/// The answer that carries `body` as a JSON document: status 200.
pub fn serve_json(body: String) -> (reply: Reply)
    ensures
        reply@ == json(body@),
{
    Reply { status: 200, content_type: Some("application/json; charset=utf-8"), body }
}

/// The body that shows that the artifact of `source` could not be rendered.
pub fn serve_error_body(source: Source, message: &str) -> (body: String)
    ensures
        body@ == error_body(source, message@),
{
    let mut tooltip = source.label().to_owned();
    tooltip.append(" service failed: ");
    tooltip.append(message);
    tooltip.append("!");
    let mut body = "{\"text\":\"⛓️‍💥\", \"tooltip\":\"".to_owned();
    body.append(escape_text(tooltip.as_str()).as_str());
    body.append("\"}");
    body
}

/// The answer to a request for the artifact of `source`: the rendered
/// artifact; a body of the same shape that shows the error, with status 200
/// all the same, where the artifact is no JSON document or the renderer
/// failed; status 500 where there is no artifact to read.
pub fn serve_api(source: Source, artifact: Artifact) -> (reply: Reply)
    ensures
        reply@ == api_reply(source, artifact@),
{
    match artifact {
        Artifact::Unreadable => serve_500(),
        Artifact::Malformed { message } => serve_json(serve_error_body(source, message.as_str())),
        Artifact::Rendered { body } => serve_json(body),
        Artifact::Failed { message } => serve_json(serve_error_body(source, message.as_str())),
    }
}

/// The answer to `GET /api/weather`.
pub fn serve_api_weather(artifact: Artifact) -> (reply: Reply)
    ensures
        reply@ == api_reply(Source::Weather, artifact@),
{
    serve_api(Source::Weather, artifact)
}

/// The answer to `GET /api/crypto`.
pub fn serve_api_crypto(artifact: Artifact) -> (reply: Reply)
    ensures
        reply@ == api_reply(Source::Crypto, artifact@),
{
    serve_api(Source::Crypto, artifact)
}

/// The diagnostics of the server.
#[derive(Clone, Copy, Debug, PartialEq, Eq, Structural)]
pub struct Stats {
    pub served_requests: usize,
}

impl Default for Stats {
    fn default() -> (stats: Stats)
        ensures
            stats.served_requests == 0,
    {
        Stats { served_requests: 0 }
    }
}

/// The answer to a request for the diagnostics.
pub open spec fn stats_reply(document: Option<Seq<char>>) -> ReplyView {
    match document {
        Some(body) => ReplyView { status: 200, content_type: Some("application/json"@), body },
        None => server_error(),
    }
}

/// The answer to `GET /admin/stats`. `document` is the diagnostics as a
/// JSON document, or `None` where they could not be written as one.
pub fn serve_api_stats(document: Option<String>) -> (reply: Reply)
    ensures
        reply@ == stats_reply(
            match document {
                Some(body) => Some(body@),
                None => None,
            },
        ),
{
    match document {
        Some(body) => Reply { status: 200, content_type: Some("application/json"), body },
        None => serve_500(),
    }
}

/// What a request needs beside its route: nothing, the diagnostics as a
/// JSON document where they could be written as one, or the artifact of the
/// source.
#[derive(Debug)]
pub enum Loaded {
    Nothing,
    Stats { document: Option<String> },
    Artifact { artifact: Artifact },
}

/// A [`Loaded`] as plain values.
pub enum LoadedView {
    Nothing,
    Stats { document: Option<Seq<char>> },
    Artifact { artifact: ArtifactView },
}

impl View for Loaded {
    type V = LoadedView;

    open spec fn view(&self) -> LoadedView {
        match *self {
            Loaded::Nothing => LoadedView::Nothing,
            Loaded::Stats { document } => LoadedView::Stats {
                document: match document {
                    Some(body) => Some(body@),
                    None => None,
                },
            },
            Loaded::Artifact { artifact } => LoadedView::Artifact { artifact: artifact@ },
        }
    }
}

/// The answer to a request on `route`: not found where there is no route,
/// the diagnostics or the artifact where the route asks for them, and a
/// server error where what was loaded is not what the route asks for.
pub open spec fn request_reply(route: Route, loaded: LoadedView) -> ReplyView {
    match route {
        Route::NotFound => not_found(),
        Route::Stats => match loaded {
            LoadedView::Stats { document } => stats_reply(document),
            _ => server_error(),
        },
        Route::Api { source } => match loaded {
            LoadedView::Artifact { artifact } => api_reply(source, artifact),
            _ => server_error(),
        },
    }
}

/// The answer to a request on `route`, given what was loaded for it.
pub fn serve_request(route: Route, loaded: Loaded) -> (reply: Reply)
    ensures
        reply@ == request_reply(route, loaded@),
{
    match route {
        Route::NotFound => serve_404(),
        Route::Stats => match loaded {
            Loaded::Stats { document } => serve_api_stats(document),
            _ => serve_500(),
        },
        Route::Api { source } => match loaded {
            Loaded::Artifact { artifact } => serve_api(source, artifact),
            _ => serve_500(),
        },
    }
}

/// A request for a name that belongs to no known source is answered with
/// status 404, whatever was loaded.
pub proof fn unknown_source_is_answered_404(method: Method, name: Seq<char>, loaded: LoadedView)
    requires
        known_source(name) is None,
    ensures
        request_reply(route_of(method, "/api/"@ + name), loaded) == not_found(),
        not_found().status == 404,
{
    unknown_source_is_not_found(method, name);
}

/// A known source without an artifact is answered with status 500.
pub proof fn missing_artifact_is_server_error(source: Source)
    ensures
        api_reply(source, ArtifactView::Unreadable).status == 500,
        request_reply(
            Route::Api { source },
            LoadedView::Artifact { artifact: ArtifactView::Unreadable },
        ).status == 500,
{
}

/// Where the artifact is no JSON document, or the renderer fails, the
/// answer has status 200. Between the head and the tail of its body stands
/// the tooltip as a JSON string, which reads back as the words of the
/// tooltip, and these hold the message, whole, `at` characters in.
pub proof fn render_failure_shows_message(source: Source, message: Seq<char>) -> (at: int)
    ensures
        api_reply(source, ArtifactView::Failed { message }).status == 200,
        api_reply(source, ArtifactView::Malformed { message }) == api_reply(
            source,
            ArtifactView::Failed { message },
        ),
        api_reply(source, ArtifactView::Failed { message }).body == error_head() + escape(
            failure_tooltip(source, message),
        ) + error_tail(),
        unescape(escape(failure_tooltip(source, message))) == Some(
            failure_tooltip(source, message),
        ),
        0 <= at,
        at + message.len() <= failure_tooltip(source, message).len(),
        failure_tooltip(source, message).subrange(at, at + message.len()) == message,
{
    escaped_text_reads_back(failure_tooltip(source, message));
    let front = source.label_spec() + " service failed: "@;
    let tooltip = failure_tooltip(source, message);
    assert(tooltip == front + message + "!"@);
    assert(tooltip.subrange(front.len() as int, front.len() as int + message.len() as int)
        =~= message);
    front.len() as int
}

} // verus!
