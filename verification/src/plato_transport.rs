//! The PLATO room that carries whispers: where they are submitted and polled,
//! the shape of the tiles exchanged with it, and how its answers are judged.

use vstd::prelude::*;
use crate::whisper::Whisper;

verus! {

/// Where the PLATO room server listens unless told otherwise.
pub const PLATO_BASE: &'static str = "http://localhost:8847";

/// Seconds an HTTP request to the PLATO server may take.
pub const REQUEST_TIMEOUT_SECS: u64 = 10u64;

#[verifier::external_type_specification]
#[verifier::external_body]
pub struct ExHttpClient(reqwest::Client);

#[verifier::external_type_specification]
#[verifier::external_body]
pub struct ExHttpError(reqwest::Error);

/// Builds the HTTP client with reqwest's
/// `Client::builder().timeout(Duration::from_secs(timeout_secs)).build()` and
/// `expect`s it: reqwest documents that building fails only when a TLS backend
/// cannot be initialized or the resolver cannot load the system configuration,
/// and then this panics. Nothing is claimed of the client, which is opaque.
#[verifier::external_body]
fn build_http_client(timeout_secs: u64) -> reqwest::Client {
    reqwest::Client::builder().timeout(std::time::Duration::from_secs(timeout_secs)).build().expect(
        "PlatoTransport client build",
    )
}

/// The PLATO endpoint: an HTTP client, the server's base URL, and the
/// seconds after which the client gives up on a request (the client is built
/// with that timeout).
pub struct PlatoTransport {
    client: reqwest::Client,
    base_url: String,
    timeout_secs: u64,
}

/// The path, below the base URL, at which whispers are submitted.
pub open spec fn submit_path() -> Seq<char> {
    "/room/fleet_whispers/submit"@
}

/// The query URL that polls the whisper room for tiles since `since` carrying
/// `tag` (the tag `whisper` when none is given).
pub open spec fn poll_url_of(base: Seq<char>, since: Seq<char>, tag: Option<Seq<char>>) -> Seq<char> {
    let t = match tag {
        Some(t) => t,
        None => "whisper"@,
    };
    base + "/room/fleet_whispers/tiles?since="@ + since + "&tag="@ + t
}

impl PlatoTransport {
    /// The server's base URL.
    pub closed spec fn base(self) -> Seq<char> {
        self.base_url@
    }

    /// A transport to the default server, `http://localhost:8847`, whose
    /// requests time out after 10 seconds.
    pub fn new() -> (res: PlatoTransport)
        ensures
            res.base() == PLATO_BASE@,
            res.request_timeout() == REQUEST_TIMEOUT_SECS,
    {
        let timeout_secs = REQUEST_TIMEOUT_SECS;
        PlatoTransport { client: build_http_client(timeout_secs), base_url: String::from_str(PLATO_BASE), timeout_secs }
    }

    /// A transport to the server at `base_url`, whose requests time out after 10 seconds.
    pub fn new_with_base(base_url: &str) -> (res: PlatoTransport)
        ensures
            res.base() == base_url@,
            res.request_timeout() == REQUEST_TIMEOUT_SECS,
    {
        let timeout_secs = REQUEST_TIMEOUT_SECS;
        PlatoTransport { client: build_http_client(timeout_secs), base_url: String::from_str(base_url), timeout_secs }
    }

    /// The seconds after which a request gives up.
    pub closed spec fn request_timeout(self) -> u64 {
        self.timeout_secs
    }

    /// The seconds after which a request gives up.
    pub fn timeout_secs(&self) -> (res: u64)
        ensures
            res == self.request_timeout(),
    {
        self.timeout_secs
    }

    /// The server's base URL.
    pub fn base_url(&self) -> (res: &str)
        ensures
            res@ == self.base(),
    {
        self.base_url.as_str()
    }

    /// The HTTP client through which requests are sent: the transport's own.
    pub fn client(&self) -> (res: &reqwest::Client)
        ensures
            *res == self.http_client(),
    {
        &self.client
    }

    /// The HTTP client that the transport holds.
    pub closed spec fn http_client(self) -> reqwest::Client {
        self.client
    }

    /// The URL to which a whisper tile is posted.
    pub fn submit_url(&self) -> (res: String)
        ensures
            res@ == self.base() + submit_path(),
    {
        self.base_url.clone().concat("/room/fleet_whispers/submit")
    }

    /// The URL from which tiles since `since` carrying `tag` (by default
    /// `whisper`) are polled.
    pub fn poll_url(&self, since: &str, tag: Option<&str>) -> (res: String)
        ensures
            res@ == poll_url_of(self.base(), since@, match tag {
                Some(t) => Some(t@),
                None => None,
            }),
    {
        let t = match tag {
            Some(t) => t,
            None => "whisper",
        };
        self.base_url.clone().concat("/room/fleet_whispers/tiles?since=").concat(since).concat("&tag=").concat(t)
    }
}

/// A tile as the PLATO room hands it out.
#[derive(Debug)]
pub struct PlatoTile {
    pub id: String,
    pub tags: Vec<String>,
    pub content: String,
    pub created_at: Option<String>,
}

/// A whisper as it is submitted to the room: its tags, its serialized
/// content, and its addressee.
#[derive(Debug)]
pub struct WhisperTile {
    pub tags: Vec<String>,
    pub content: String,
    pub to: Option<String>,
}

impl WhisperTile {
    /// The tile for `whisper`, whose serialized form is `content`.
    pub fn from_whisper(whisper: &Whisper, content: String) -> (res: WhisperTile)
        ensures
            res.tags@.map_values(|s: String| s@) == whisper.tags_of(),
            res.content == content,
            res.to == whisper.to,
    {
        let to = match &whisper.to {
            Some(t) => Some(t.clone()),
            None => None,
        };
        WhisperTile { tags: whisper.tags(), content, to }
    }
}

/// Why an exchange with the PLATO room failed.
#[derive(Debug)]
pub enum PlatoError {
    /// The request could not be made or answered.
    Request(reqwest::Error),
    /// The server answered with a status other than success; its text.
    Server(String),
    /// The answer could not be read; why.
    Parse(String),
}

/// `text` describes `e`: `request error: <the HTTP error's own text>`,
/// `server error: <status>` or `parse error: <reason>`.
pub open spec fn describes(e: PlatoError, text: Seq<char>) -> bool {
    match e {
        PlatoError::Request(_) => exists|t: Seq<char>| text == "request error: "@ + t,
        PlatoError::Server(s) => text == "server error: "@ + s@,
        PlatoError::Parse(r) => text == "parse error: "@ + r@,
    }
}

impl PlatoError {
    /// The error's description.
    pub fn message(&self) -> (res: String)
        ensures
            describes(*self, res@),
    {
        match self {
            PlatoError::Request(e) => {
                let text = e.to_string();
                let res = String::from_str("request error: ").concat(text.as_str());
                assert(res@ == "request error: "@ + text@);
                res
            },
            PlatoError::Server(s) => String::from_str("server error: ").concat(s.as_str()),
            PlatoError::Parse(e) => String::from_str("parse error: ").concat(e.as_str()),
        }
    }
}

/// An HTTP status counts as success when it is in `200..300`.
pub open spec fn is_success_status(code: u16) -> bool {
    200 <= code < 300
}

/// Judges the server's answer by its status: success passes, any other
/// status is a server error carrying the status's text.
pub fn check_status(code: u16, status_text: String) -> (res: Result<(), PlatoError>)
    ensures
        res is Ok <==> is_success_status(code),
        res matches Err(e) ==> e == PlatoError::Server(status_text),
{
    if 200 <= code && code < 300 {
        Ok(())
    } else {
        Err(PlatoError::Server(status_text))
    }
}

} // verus!
