//! Verified core of Quark, a small shell for desktop applications that show a
//! web frontend in a system webview.
//!
//! The core decides; it performs no input or output. The embedding shell reads
//! the command line, the file system and the network, and reports what it found.

pub mod cli;
pub mod config;
pub mod error;
pub mod prelude;
pub mod server;
pub mod setup;
pub mod text;
pub mod webview;

pub use config::QuarkConfig;
pub use error::QuarkError;
pub use webview::SizeHint;

use config::ConfigView;
use setup::{AssetView, EventView, ServedAsset, Setup, SetupView};
use vstd::prelude::*;
use vstd::utf8::*;

verus! {

/// An application that has been set up: its configuration and the asset that its
/// webview shows.
///
/// There is no other way to an instance than a setup that has settled in an
/// asset, so an instance never stands for a frontend that was not found.
pub struct Quark {
    config: QuarkConfig,
    asset: ServedAsset,
}

/// The mathematical content of a [`Quark`].
pub struct QuarkView {
    pub config: ConfigView,
    pub asset: AssetView,
}

impl QuarkView {
    /// The application that a setup yields, or the error in which it ends.
    pub open spec fn construct(setup: SetupView) -> Result<QuarkView, QuarkError> {
        match setup.outcome() {
            Ok(asset) => Ok(QuarkView { config: setup.config, asset }),
            Err(error) => Err(error),
        }
    }
}

impl View for Quark {
    type V = QuarkView;

    closed spec fn view(&self) -> QuarkView {
        QuarkView { config: self.config@, asset: self.asset@ }
    }
}

impl Quark {
    /// Creates a `Quark` from a setup.
    ///
    /// The application keeps the configuration that the setup began with. A setup
    /// that failed gives its error; one that the host left unfinished fails as if
    /// the pending request had been refused.
    pub fn new(setup: Setup) -> (made: Result<Quark, QuarkError>)
        ensures
            match made {
                Ok(quark) => QuarkView::construct(setup@) == Ok::<QuarkView, QuarkError>(quark@),
                Err(error) => QuarkView::construct(setup@) == Err::<QuarkView, QuarkError>(error),
            },
    {
        match setup.finish() {
            Ok((config, asset)) => Ok(Quark { config, asset }),
            Err(error) => Err(error),
        }
    }

    /// The configuration that the application was constructed with.
    pub fn config(&self) -> (config: &QuarkConfig)
        ensures
            config@ == self@.config,
    {
        &self.config
    }

    /// The asset that the webview is to show.
    pub fn asset(&self) -> (asset: &ServedAsset)
        ensures
            asset@ == self@.asset,
    {
        &self.asset
    }
}

/// In static mode, a frontend that exists and whose entry document is valid
/// UTF-8 always gives an application: it keeps the configuration and shows the
/// decoded document.
pub proof fn static_setup_succeeds(config: ConfigView, document: Seq<u8>)
    requires
        valid_utf8(document),
    ensures
        QuarkView::construct(
            SetupView::start(config, false).advance(EventView::Probed { exists: true }).advance(
                EventView::Read { bytes: Some(document) },
            ),
        ) == Ok::<QuarkView, QuarkError>(
            QuarkView { config, asset: AssetView::Content(decode_utf8(document)) },
        ),
{
}

/// In live mode, a frontend that exists, a port that could be bound and a server
/// that started always give an application: it keeps the configuration and
/// shows the server's address on the loopback host.
pub proof fn live_setup_succeeds(config: ConfigView, port: u16)
    ensures
        QuarkView::construct(
            SetupView::start(config, true).advance(EventView::Probed { exists: true }).advance(
                EventView::Bound { port: Some(port) },
            ).advance(EventView::Served { started: true }),
        ) == Ok::<QuarkView, QuarkError>(
            QuarkView {
                config,
                asset: AssetView::Url(setup::url_of(setup::loopback(), port as nat)),
            },
        ),
{
}

/// A frontend path that does not exist ends the construction with
/// `FrontendPathMissing`, in static and in live mode, whatever the host reports
/// afterwards.
pub proof fn missing_frontend_fails(config: ConfigView, live: bool, later: Seq<EventView>)
    ensures
        QuarkView::construct(
            SetupView::start(config, live).advance(EventView::Probed { exists: false }).run(later),
        ) == Err::<QuarkView, QuarkError>(QuarkError::FrontendPathMissing),
{
    let failed = SetupView::start(config, live).advance(EventView::Probed { exists: false });
    setup::settled_is_final(failed, later);
}

/// In live mode, if no local port can be bound the construction ends with
/// `ServerPortIsntAvailable`, whatever the host reports afterwards.
pub proof fn unavailable_port_fails(config: ConfigView, later: Seq<EventView>)
    ensures
        QuarkView::construct(
            SetupView::start(config, true).advance(EventView::Probed { exists: true }).advance(
                EventView::Bound { port: None },
            ).run(later),
        ) == Err::<QuarkView, QuarkError>(QuarkError::ServerPortIsntAvailable),
{
    let failed = SetupView::start(config, true).advance(EventView::Probed { exists: true }).advance(
        EventView::Bound { port: None },
    );
    setup::settled_is_final(failed, later);
}

/// Whether the first report on the frontend directory among `events` is at
/// index `i`, and says that the directory exists.
pub open spec fn found_at(events: Seq<EventView>, i: int) -> bool {
    &&& 0 <= i < events.len()
    &&& events[i] == EventView::Probed { exists: true }
    &&& forall|j: int| 0 <= j < i ==> !(#[trigger] events[j] is Probed)
}

/// There is no application without a frontend: whatever the host reports, if an
/// application is constructed then the first report on the frontend directory
/// said that it exists.
pub proof fn application_implies_frontend(config: ConfigView, live: bool, events: Seq<EventView>)
    requires
        QuarkView::construct(SetupView::start(config, live).run(events)) is Ok,
    ensures
        exists|i: int| found_at(events, i),
    decreases events.len(),
{
    let start = SetupView::start(config, live);
    let first = events[0];
    let rest = events.subrange(1, events.len() as int);
    if first is Probed {
        if first == (EventView::Probed { exists: true }) {
            assert(found_at(events, 0));
        } else {
            setup::settled_is_final(start.advance(first), rest);
        }
    } else {
        assert(start.advance(first) == start);
        application_implies_frontend(config, live, rest);
        let i = choose|i: int| found_at(rest, i);
        assert forall|j: int| 0 <= j < i + 1 implies !(#[trigger] events[j] is Probed) by {
            if j > 0 {
                assert(events[j] == rest[j - 1]);
            }
        }
        assert(events[i + 1] == rest[i]);
        assert(found_at(events, i + 1));
    }
}

} // verus!
