//! Setting an application up: finding the frontend and getting it to the webview.
//!
//! The setup is a state machine. In each state it asks the host for one thing;
//! the host does it and reports back; the report decides the next state. The
//! machine settles in a served asset or in an error.

use crate::cli::QuarkArgs;
use crate::config::{ConfigView, QuarkConfig};
use crate::error::QuarkError;
use crate::text::{decimal, decimal_text};
use vstd::prelude::*;
use vstd::string::*;
use vstd::utf8::*;

verus! {

/// The name of the loopback host, on which the development server listens.
pub open spec fn loopback() -> Seq<char> {
    "127.0.0.1"@
}

/// The address at which a server on `host` and `port` is reached.
pub open spec fn url_of(host: Seq<char>, port: nat) -> Seq<char> {
    "http://"@ + host + ":"@ + decimal(port) + "/"@
}

/// The address at which the development server on `host` and `port` is reached:
/// `http://<host>:<port>/`.
pub fn server_url(host: &str, port: u16) -> (url: String)
    ensures
        url@ == url_of(host@, port as nat),
{
    let mut url = "http://".to_owned();
    url.append(host);
    url.append(":");
    let digits = decimal_text(port as usize);
    url.append(digits.as_str());
    url.append("/");
    url
}

/// What the webview shows first: exactly one per application.
#[derive(Debug)]
pub enum ServedAsset {
    /// The text of the entry document, loaded without any network.
    Content(String),
    /// The address of the local development server.
    Url(String),
}

/// The mathematical content of a [`ServedAsset`].
pub enum AssetView {
    Content(Seq<char>),
    Url(Seq<char>),
}

impl View for ServedAsset {
    type V = AssetView;

    open spec fn view(&self) -> AssetView {
        match self {
            ServedAsset::Content(text) => AssetView::Content(text@),
            ServedAsset::Url(url) => AssetView::Url(url@),
        }
    }
}

/// What the setup asks of the host.
#[derive(Debug)]
pub enum HostRequest {
    /// Say whether the directory `path` exists and can be read.
    Probe { path: String },
    /// Read the document `file` in the directory `dir`.
    Read { dir: String, file: String },
    /// Bind a listener to a free port on `host`.
    Bind { host: String },
    /// Serve the directory `root` over HTTP on the bound `port`, in the background.
    Serve { root: String, port: u16 },
    /// Nothing is left to do: the setup has settled.
    Nothing,
}

/// The mathematical content of a [`HostRequest`].
pub enum RequestView {
    Probe { path: Seq<char> },
    Read { dir: Seq<char>, file: Seq<char> },
    Bind { host: Seq<char> },
    Serve { root: Seq<char>, port: u16 },
    Nothing,
}

impl View for HostRequest {
    type V = RequestView;

    open spec fn view(&self) -> RequestView {
        match self {
            HostRequest::Probe { path } => RequestView::Probe { path: path@ },
            HostRequest::Read { dir, file } => RequestView::Read { dir: dir@, file: file@ },
            HostRequest::Bind { host } => RequestView::Bind { host: host@ },
            HostRequest::Serve { root, port } => RequestView::Serve { root: root@, port: *port },
            HostRequest::Nothing => RequestView::Nothing,
        }
    }
}

/// What the host reports back.
#[derive(Debug)]
pub enum HostEvent {
    /// Whether the probed directory exists and can be read.
    Probed { exists: bool },
    /// The bytes of the document, or `None` if it could not be read.
    Read { bytes: Option<Vec<u8>> },
    /// The port that was bound, or `None` if no port was free.
    Bound { port: Option<u16> },
    /// Whether the server is now serving.
    Served { started: bool },
}

/// The mathematical content of a [`HostEvent`].
pub enum EventView {
    Probed { exists: bool },
    Read { bytes: Option<Seq<u8>> },
    Bound { port: Option<u16> },
    Served { started: bool },
}

impl View for HostEvent {
    type V = EventView;

    open spec fn view(&self) -> EventView {
        match self {
            HostEvent::Probed { exists } => EventView::Probed { exists: *exists },
            HostEvent::Read { bytes } => EventView::Read {
                bytes: match bytes {
                    Some(b) => Some(b@),
                    None => None,
                },
            },
            HostEvent::Bound { port } => EventView::Bound { port: *port },
            HostEvent::Served { started } => EventView::Served { started: *started },
        }
    }
}

/// Where a setup stands.
pub enum StageView {
    /// Waiting to hear whether the frontend directory exists.
    Probing,
    /// Static mode: waiting for the entry document.
    Reading,
    /// Live mode: waiting for a port.
    Binding,
    /// Live mode: waiting for the server on `port` to start.
    Starting { port: u16 },
    /// Settled: the asset is ready for the webview.
    Loaded(AssetView),
    /// Settled: the setup has failed.
    Failed(QuarkError),
}

/// The mathematical content of a [`Setup`].
pub struct SetupView {
    pub config: ConfigView,
    pub live: bool,
    pub stage: StageView,
}

/// The name of the entry document inside the frontend directory.
pub open spec fn entry_document() -> Seq<char> {
    "index.html"@
}

impl SetupView {
    /// The setup before the host has reported anything.
    pub open spec fn start(config: ConfigView, live: bool) -> SetupView {
        SetupView { config, live, stage: StageView::Probing }
    }

    /// Whether the setup has come to its end, in an asset or in an error.
    pub open spec fn settled(self) -> bool {
        self.stage is Loaded || self.stage is Failed
    }

    /// What the host is to do in this state.
    pub open spec fn request(self) -> RequestView {
        match self.stage {
            StageView::Probing => RequestView::Probe { path: self.config.frontend },
            StageView::Reading => RequestView::Read {
                dir: self.config.frontend,
                file: entry_document(),
            },
            StageView::Binding => RequestView::Bind { host: loopback() },
            StageView::Starting { port } => RequestView::Serve { root: self.config.frontend, port },
            StageView::Loaded(_) => RequestView::Nothing,
            StageView::Failed(_) => RequestView::Nothing,
        }
    }

    /// The stage that follows when the host reports `event`.
    ///
    /// A report that does not answer the pending request changes nothing.
    pub open spec fn next_stage(self, event: EventView) -> StageView {
        match (self.stage, event) {
            (StageView::Probing, EventView::Probed { exists }) => if !exists {
                StageView::Failed(QuarkError::FrontendPathMissing)
            } else if self.live {
                StageView::Binding
            } else {
                StageView::Reading
            },
            (StageView::Reading, EventView::Read { bytes }) => match bytes {
                None => StageView::Failed(QuarkError::FrontendPathMissing),
                Some(b) => if valid_utf8(b) {
                    StageView::Loaded(AssetView::Content(decode_utf8(b)))
                } else {
                    StageView::Failed(QuarkError::IncludeDirCouldntConvertToUTF8)
                },
            },
            (StageView::Binding, EventView::Bound { port }) => match port {
                None => StageView::Failed(QuarkError::ServerPortIsntAvailable),
                Some(p) => StageView::Starting { port: p },
            },
            (StageView::Starting { port }, EventView::Served { started }) => if started {
                StageView::Loaded(AssetView::Url(url_of(loopback(), port as nat)))
            } else {
                StageView::Failed(QuarkError::ServerError)
            },
            _ => self.stage,
        }
    }

    /// The setup after the host has reported `event`.
    pub open spec fn advance(self, event: EventView) -> SetupView {
        SetupView { stage: self.next_stage(event), ..self }
    }

    /// The setup after the host has reported each of `events` in turn.
    pub open spec fn run(self, events: Seq<EventView>) -> SetupView
        decreases events.len(),
    {
        if events.len() == 0 {
            self
        } else {
            self.advance(events[0]).run(events.subrange(1, events.len() as int))
        }
    }

    /// How the setup ends if the host reports nothing more: a request that is
    /// never answered counts as failed.
    pub open spec fn outcome(self) -> Result<AssetView, QuarkError> {
        match self.stage {
            StageView::Probing => Err(QuarkError::FrontendPathMissing),
            StageView::Reading => Err(QuarkError::FrontendPathMissing),
            StageView::Binding => Err(QuarkError::ServerPortIsntAvailable),
            StageView::Starting { port } => Err(QuarkError::ServerError),
            StageView::Loaded(asset) => Ok(asset),
            StageView::Failed(error) => Err(error),
        }
    }
}

/// A setup that has settled stays as it is, whatever the host reports.
pub proof fn settled_is_final(setup: SetupView, events: Seq<EventView>)
    requires
        setup.settled(),
    ensures
        setup.run(events) == setup,
    decreases events.len(),
{
    if events.len() > 0 {
        assert(setup.advance(events[0]) == setup);
        settled_is_final(setup, events.subrange(1, events.len() as int));
    }
}

/// Decodes `bytes` as UTF-8 with `String::from_utf8`.
///
/// Trusted: the result is `Some` exactly when the bytes are well-formed UTF-8,
/// and the text is then the characters that they encode.
#[verifier::external_body]
fn decode(bytes: Vec<u8>) -> (text: Option<String>)
    ensures
        text is Some <==> valid_utf8(bytes@),
        text matches Some(t) ==> t@ == decode_utf8(bytes@),
{
    match String::from_utf8(bytes) {
        Ok(text) => Some(text),
        Err(_) => None,
    }
}

enum Stage {
    Probing,
    Reading,
    Binding,
    Starting { port: u16 },
    Loaded(ServedAsset),
    Failed(QuarkError),
}

impl View for Stage {
    type V = StageView;

    closed spec fn view(&self) -> StageView {
        match self {
            Stage::Probing => StageView::Probing,
            Stage::Reading => StageView::Reading,
            Stage::Binding => StageView::Binding,
            Stage::Starting { port } => StageView::Starting { port: *port },
            Stage::Loaded(asset) => StageView::Loaded(asset@),
            Stage::Failed(error) => StageView::Failed(*error),
        }
    }
}

/// The setup of one application: its configuration, its mode, and how far the
/// host has come.
pub struct Setup {
    config: QuarkConfig,
    live: bool,
    stage: Stage,
}

impl View for Setup {
    type V = SetupView;

    closed spec fn view(&self) -> SetupView {
        SetupView { config: self.config@, live: self.live, stage: self.stage@ }
    }
}

impl Setup {
    /// Begins the setup of an application in the mode that `args` selects.
    pub fn new(config: QuarkConfig, args: QuarkArgs) -> (setup: Setup)
        ensures
            setup@ == SetupView::start(config@, args.live),
    {
        Setup { config, live: args.live, stage: Stage::Probing }
    }

    /// Whether the setup has come to its end.
    pub fn settled(&self) -> (done: bool)
        ensures
            done == self@.settled(),
    {
        match &self.stage {
            Stage::Loaded(_) => true,
            Stage::Failed(_) => true,
            _ => false,
        }
    }

    /// What the host is to do next.
    pub fn request(&self) -> (request: HostRequest)
        ensures
            request@ == self@.request(),
    {
        match &self.stage {
            Stage::Probing => HostRequest::Probe { path: self.config.frontend.clone() },
            Stage::Reading => HostRequest::Read {
                dir: self.config.frontend.clone(),
                file: "index.html".to_owned(),
            },
            Stage::Binding => HostRequest::Bind { host: "127.0.0.1".to_owned() },
            Stage::Starting { port } => HostRequest::Serve {
                root: self.config.frontend.clone(),
                port: *port,
            },
            Stage::Loaded(_) => HostRequest::Nothing,
            Stage::Failed(_) => HostRequest::Nothing,
        }
    }

    /// Takes the host's report and moves to the next state.
    pub fn advance(self, event: HostEvent) -> (next: Setup)
        ensures
            next@ == self@.advance(event@),
    {
        let Setup { config, live, stage } = self;
        let stage = match (stage, event) {
            (Stage::Probing, HostEvent::Probed { exists }) => if !exists {
                Stage::Failed(QuarkError::FrontendPathMissing)
            } else if live {
                Stage::Binding
            } else {
                Stage::Reading
            },
            (Stage::Reading, HostEvent::Read { bytes }) => match bytes {
                None => Stage::Failed(QuarkError::FrontendPathMissing),
                Some(b) => match decode(b) {
                    Some(text) => Stage::Loaded(ServedAsset::Content(text)),
                    None => Stage::Failed(QuarkError::IncludeDirCouldntConvertToUTF8),
                },
            },
            (Stage::Binding, HostEvent::Bound { port }) => match port {
                None => Stage::Failed(QuarkError::ServerPortIsntAvailable),
                Some(p) => Stage::Starting { port: p },
            },
            (Stage::Starting { port }, HostEvent::Served { started }) => if started {
                Stage::Loaded(ServedAsset::Url(server_url("127.0.0.1", port)))
            } else {
                Stage::Failed(QuarkError::ServerError)
            },
            (stage, _) => stage,
        };
        Setup { config, live, stage }
    }

    /// Ends the setup and hands out the configuration with the asset, or the error.
    pub(crate) fn finish(self) -> (end: Result<(QuarkConfig, ServedAsset), QuarkError>)
        ensures
            match end {
                Ok((config, asset)) => config@ == self@.config && self@.outcome() == Ok::<
                    AssetView,
                    QuarkError,
                >(asset@),
                Err(error) => self@.outcome() == Err::<AssetView, QuarkError>(error),
            },
    {
        match self.stage {
            Stage::Probing => Err(QuarkError::FrontendPathMissing),
            Stage::Reading => Err(QuarkError::FrontendPathMissing),
            Stage::Binding => Err(QuarkError::ServerPortIsntAvailable),
            Stage::Starting { port } => Err(QuarkError::ServerError),
            Stage::Loaded(asset) => Ok((self.config, asset)),
            Stage::Failed(error) => Err(error),
        }
    }
}

} // verus!
