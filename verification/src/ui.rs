//! What the full-screen terminal front end shows.

use vstd::prelude::*;
use vstd::string::*;

use crate::error::Error;
use crate::session::Report;
use crate::text::joined;

verus! {

/// Where the camera connection attempt currently stands.
#[derive(Debug, PartialEq, Eq)]
pub enum Connection {
    /// Still trying to reach a camera.
    Connecting,
    /// Connected, with the version-inquiry summary to show.
    Connected {
        /// How the connection was made, already phrased for display.
        link: String,
        /// A human-readable version summary.
        version: String,
    },
    /// Nothing answered.
    Failed(String),
}

impl Default for Connection {
    fn default() -> (connection: Connection)
        ensures
            connection is Connecting,
    {
        Connection::Connecting
    }
}

/// Everything the screen shows.
#[derive(Debug, PartialEq, Eq)]
pub struct AppState {
    /// Connection status, shown in the header.
    pub connection: Connection,
    /// The most recently polled camera state, if any.
    pub camera_state: Option<String>,
    /// The result of the last command sent, shown in the footer in place of
    /// the key legend when present.
    pub status: Option<String>,
}

impl Default for AppState {
    fn default() -> (state: AppState)
        ensures
            state.connection is Connecting,
            state.camera_state is None,
            state.status is None,
    {
        AppState { connection: Connection::Connecting, camera_state: None, status: None }
    }
}

/// The one line of help, sized to be read rather than to list everything: it
/// names one way to reach each control and leaves the synonyms to be
/// discovered.
pub const KEY_LEGEND: &'static str = "hold to move: arrows  []zoom  ,.focus  shift=fast  1-6 preset  f auto  q quit";

/// The narrowest terminal [`KEY_LEGEND`] is expected to fit in.
pub const MIN_COLUMNS: usize = 80;

/// The key legend fits a narrow terminal whole.
pub proof fn the_legend_fits()
    ensures
        KEY_LEGEND@.len() <= MIN_COLUMNS,
{
    reveal_strlit(
        "hold to move: arrows  []zoom  ,.focus  shift=fast  1-6 preset  f auto  q quit",
    );
}

/// The header that a connection is shown by.
pub open spec fn header_words(connection: Connection) -> Seq<char> {
    match connection {
        Connection::Connecting => "Connecting..."@,
        Connection::Connected { link, version } => link@ + " \u{2014} "@ + version@,
        Connection::Failed(reason) => "Connection failed: "@ + reason@,
    }
}

/// A text, or what stands in its place while there is none.
pub open spec fn text_or(text: Option<String>, otherwise: Seq<char>) -> Seq<char> {
    match text {
        Some(text) => text@,
        None => otherwise,
    }
}

impl AppState {
    /// The header: what the camera is connected by.
    pub fn header(&self) -> (text: String)
        ensures
            text@ == header_words(self.connection),
    {
        match &self.connection {
            Connection::Connecting => "Connecting...".to_owned(),
            Connection::Connected { link, version } => {
                let mut text = joined(link.as_str(), " \u{2014} ");
                text.append(version.as_str());
                text
            },
            Connection::Failed(reason) => joined("Connection failed: ", reason.as_str()),
        }
    }

    /// The body: what the camera last said about itself.
    pub fn body(&self) -> (text: &str)
        ensures
            text@ == text_or(self.camera_state, "(no state yet)"@),
    {
        match &self.camera_state {
            Some(text) => text.as_str(),
            None => "(no state yet)",
        }
    }

    /// The footer: the last result, or the key legend until there is one.
    pub fn footer(&self) -> (text: &str)
        ensures
            text@ == text_or(self.status, KEY_LEGEND@),
    {
        match &self.status {
            Some(text) => text.as_str(),
            None => KEY_LEGEND,
        }
    }
}

impl Report for AppState {
    fn refresh(&mut self) -> (refreshed: Result<(), Error>)
        ensures
            refreshed is Ok,
            *final(self) == *old(self),
    {
        Ok(())
    }

    fn status(&mut self, text: &str) -> (reported: Result<(), Error>)
        ensures
            reported is Ok,
            text_or(final(self).status, KEY_LEGEND@) == text@,
            final(self).connection == old(self).connection,
            final(self).camera_state == old(self).camera_state,
    {
        self.status = Some(text.to_owned());
        Ok(())
    }

    fn camera_state(&mut self, text: &str) -> (reported: Result<(), Error>)
        ensures
            reported is Ok,
            text_or(final(self).camera_state, "(no state yet)"@) == text@,
            final(self).connection == old(self).connection,
            final(self).status == old(self).status,
    {
        self.camera_state = Some(text.to_owned());
        Ok(())
    }
}

/// The header says that a camera is being reached, what it is reached by and
/// what it said of itself, or why it wasn't reached. A text that is there is
/// shown as it is.
pub proof fn the_header_says_where_things_stand(
    link: String,
    version: String,
    reason: String,
    otherwise: Seq<char>,
)
    ensures
        header_words(Connection::Connecting) == "Connecting..."@,
        header_words(Connection::Connected { link, version }) == link@ + " \u{2014} "@ + version@,
        header_words(Connection::Failed(reason)) == "Connection failed: "@ + reason@,
        text_or(Some(reason), otherwise) == reason@,
        text_or(None, otherwise) == otherwise,
{
}

} // verus!
