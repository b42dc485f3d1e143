//! The configuration of an application, built by chained setters.

use crate::webview::SizeHint;
use vstd::prelude::*;

verus! {

/// The mathematical content of a [`QuarkConfig`].
pub struct ConfigView {
    pub frontend: Seq<char>,
    pub title: Seq<char>,
    pub width: nat,
    pub height: nat,
    pub debug: bool,
    pub resizable: SizeHint,
}

impl ConfigView {
    /// The configuration that a fresh builder holds.
    pub open spec fn initial() -> ConfigView {
        ConfigView {
            frontend: "src_quark"@,
            title: "Quark Application"@,
            width: 800,
            height: 600,
            debug: true,
            resizable: SizeHint::MAX,
        }
    }

    pub open spec fn with_frontend(self, frontend: Seq<char>) -> ConfigView {
        ConfigView { frontend, ..self }
    }

    pub open spec fn with_title(self, title: Seq<char>) -> ConfigView {
        ConfigView { title, ..self }
    }

    pub open spec fn with_width(self, width: nat) -> ConfigView {
        ConfigView { width, ..self }
    }

    pub open spec fn with_height(self, height: nat) -> ConfigView {
        ConfigView { height, ..self }
    }

    pub open spec fn with_debug(self, debug: bool) -> ConfigView {
        ConfigView { debug, ..self }
    }

    pub open spec fn with_resizable(self, resizable: SizeHint) -> ConfigView {
        ConfigView { resizable, ..self }
    }
}

/// Defines the primary configuration for a Quark application.
///
/// A configuration starts from the defaults and is changed by chained setters,
/// each of which takes the configuration and returns the updated one. Nothing is
/// validated here: the frontend path is examined when the application is
/// constructed.
pub struct QuarkConfig {
    pub frontend: String,
    pub title: String,
    pub width: usize,
    pub height: usize,
    pub debug: bool,
    pub resizable: SizeHint,
}

impl View for QuarkConfig {
    type V = ConfigView;

    open spec fn view(&self) -> ConfigView {
        ConfigView {
            frontend: self.frontend@,
            title: self.title@,
            width: self.width as nat,
            height: self.height as nat,
            debug: self.debug,
            resizable: self.resizable,
        }
    }
}

impl QuarkConfig {
    /// Creates a new default `QuarkConfig`.
    ///
    /// This method is identical to `QuarkConfig::default()`, but is included as a
    /// matter of convenience.
    #[must_use]
    pub fn new() -> (config: Self)
        ensures
            config@ == ConfigView::initial(),
    {
        QuarkConfig {
            frontend: "src_quark".to_owned(),
            title: "Quark Application".to_owned(),
            width: 800,
            height: 600,
            debug: true,
            resizable: SizeHint::MAX,
        }
    }

    /// Sets the directory that holds the web frontend.
    #[must_use]
    pub fn frontend(self, frontend: &str) -> (config: Self)
        ensures
            config@ == self@.with_frontend(frontend@),
    {
        let mut config = self;
        config.frontend = frontend.to_owned();
        config
    }

    /// Sets the title that the operating system shows for the window.
    #[must_use]
    pub fn title(self, title: &str) -> (config: Self)
        ensures
            config@ == self@.with_title(title@),
    {
        let mut config = self;
        config.title = title.to_owned();
        config
    }

    /// Sets the width at which the webview renders.
    #[must_use]
    pub fn width(self, width: usize) -> (config: Self)
        ensures
            config@ == self@.with_width(width as nat),
    {
        let mut config = self;
        config.width = width;
        config
    }

    /// Sets the height at which the webview renders.
    #[must_use]
    pub fn height(self, height: usize) -> (config: Self)
        ensures
            config@ == self@.with_height(height as nat),
    {
        let mut config = self;
        config.height = height;
        config
    }

    /// Sets whether the webview offers its developer tools.
    #[must_use]
    pub fn debug(self, debug: bool) -> (config: Self)
        ensures
            config@ == self@.with_debug(debug),
    {
        let mut config = self;
        config.debug = debug;
        config
    }

    /// Sets the resizing conditions for the window.
    #[must_use]
    pub fn resizable(self, resizable: SizeHint) -> (config: Self)
        ensures
            config@ == self@.with_resizable(resizable),
    {
        let mut config = self;
        config.resizable = resizable;
        config
    }
}

impl Default for QuarkConfig {
    fn default() -> (config: Self)
        ensures
            config@ == ConfigView::initial(),
    {
        QuarkConfig::new()
    }
}

/// Setters of different fields can be applied in either order: the resulting
/// configuration is the same.
pub proof fn setters_commute(
    c: ConfigView,
    frontend: Seq<char>,
    title: Seq<char>,
    width: nat,
    height: nat,
    debug: bool,
    resizable: SizeHint,
)
    ensures
        c.with_frontend(frontend).with_title(title) == c.with_title(title).with_frontend(frontend),
        c.with_frontend(frontend).with_width(width) == c.with_width(width).with_frontend(frontend),
        c.with_frontend(frontend).with_height(height) == c.with_height(height).with_frontend(frontend),
        c.with_frontend(frontend).with_debug(debug) == c.with_debug(debug).with_frontend(frontend),
        c.with_frontend(frontend).with_resizable(resizable) == c.with_resizable(resizable).with_frontend(frontend),
        c.with_title(title).with_width(width) == c.with_width(width).with_title(title),
        c.with_title(title).with_height(height) == c.with_height(height).with_title(title),
        c.with_title(title).with_debug(debug) == c.with_debug(debug).with_title(title),
        c.with_title(title).with_resizable(resizable) == c.with_resizable(resizable).with_title(title),
        c.with_width(width).with_height(height) == c.with_height(height).with_width(width),
        c.with_width(width).with_debug(debug) == c.with_debug(debug).with_width(width),
        c.with_width(width).with_resizable(resizable) == c.with_resizable(resizable).with_width(width),
        c.with_height(height).with_debug(debug) == c.with_debug(debug).with_height(height),
        c.with_height(height).with_resizable(resizable) == c.with_resizable(resizable).with_height(height),
        c.with_debug(debug).with_resizable(resizable) == c.with_resizable(resizable).with_debug(debug),
{
}

} // verus!
