//! The command model: the closed vocabulary of mixer actions, and the query string that asks
//! the mixer's API for each of them.

use crate::decimal::{decimal, render_decimal};
use vstd::prelude::*;
use vstd::string::StringExecFns;
use vstd::utf8::encode_utf8;

verus! {

/// One validated mixer action, ready for delivery.
#[derive(Debug, PartialEq, Eq)]
pub enum Command {
    /// Set the transition fader to a level.
    SetFader(i32),
    /// Cut directly to an input.
    Cut(String),
    /// Put an input on preview.
    Preview(String),
    /// Send a query fragment as it stands.
    Raw(String),
    /// Trigger quick play.
    QuickPlay,
    /// Fade to black.
    FadeToBlack,
    /// Restart an input.
    Restart(String),
    /// Advance an input's list to its next item.
    NextItem(String),
    /// Take an input's list back to its previous item.
    PreviousItem(String),
}

/// A command as a mathematical value: texts are sequences of characters.
pub enum CommandView {
    SetFader(int),
    Cut(Seq<char>),
    Preview(Seq<char>),
    Raw(Seq<char>),
    QuickPlay,
    FadeToBlack,
    Restart(Seq<char>),
    NextItem(Seq<char>),
    PreviousItem(Seq<char>),
}

impl View for Command {
    type V = CommandView;

    open spec fn view(&self) -> CommandView {
        match self {
            Command::SetFader(level) => CommandView::SetFader(*level as int),
            Command::Cut(input) => CommandView::Cut(input@),
            Command::Preview(input) => CommandView::Preview(input@),
            Command::Raw(query) => CommandView::Raw(query@),
            Command::QuickPlay => CommandView::QuickPlay,
            Command::FadeToBlack => CommandView::FadeToBlack,
            Command::Restart(input) => CommandView::Restart(input@),
            Command::NextItem(input) => CommandView::NextItem(input@),
            Command::PreviousItem(input) => CommandView::PreviousItem(input@),
        }
    }
}

impl CommandView {
    /// The query fragment of the command: one fixed template for each action, with the payload
    /// put in as it stands. A raw command is its own fragment.
    pub open spec fn fragment(self) -> Seq<char> {
        match self {
            CommandView::SetFader(level) => "Function=SetFader&Value="@ + decimal(level),
            CommandView::Cut(input) => "Function=CutDirect&Input="@ + input,
            CommandView::Preview(input) => "Function=PreviewInput&Input="@ + input,
            CommandView::Raw(query) => query,
            CommandView::QuickPlay => "Function=QuickPlay"@,
            CommandView::FadeToBlack => "Function=FadeToBlack"@,
            CommandView::Restart(input) => "Function=Restart&Input="@ + input,
            CommandView::NextItem(input) => "Function=NextItem&Input="@ + input,
            CommandView::PreviousItem(input) => "Function=PreviousItem&Input="@ + input,
        }
    }

    /// The address of the request that delivers the command to the mixer at `server`
    /// (`host:port`).
    pub open spec fn request_url(self, server: Seq<char>) -> Seq<char> {
        "http://"@ + server + "/api?"@ + self.fragment()
    }
}

fn with_payload(template: &str, payload: &str) -> (text: String)
    ensures
        text@ == template@ + payload@,
{
    let mut text = String::from_str(template);
    text.append(payload);
    text
}

impl Command {
    /// Renders the query fragment of the command.
    pub fn fragment(&self) -> (text: String)
        ensures
            text@ == self@.fragment(),
    {
        match self {
            Command::SetFader(level) => {
                let value = render_decimal(*level);
                with_payload("Function=SetFader&Value=", value.as_str())
            },
            Command::Cut(input) => with_payload("Function=CutDirect&Input=", input.as_str()),
            Command::Preview(input) => with_payload("Function=PreviewInput&Input=", input.as_str()),
            Command::Raw(query) => query.clone(),
            Command::QuickPlay => String::from_str("Function=QuickPlay"),
            Command::FadeToBlack => String::from_str("Function=FadeToBlack"),
            Command::Restart(input) => with_payload("Function=Restart&Input=", input.as_str()),
            Command::NextItem(input) => with_payload("Function=NextItem&Input=", input.as_str()),
            Command::PreviousItem(input) => with_payload(
                "Function=PreviousItem&Input=",
                input.as_str(),
            ),
        }
    }

    /// Renders the address of the request that delivers the command to the mixer at `server`.
    pub fn request_url(&self, server: &str) -> (url: String)
        ensures
            url@ == self@.request_url(server@),
    {
        let fragment = self.fragment();
        let mut url = String::from_str("http://");
        url.append(server);
        url.append("/api?");
        url.append(fragment.as_str());
        url
    }
}

/// Rendering is repeatable. The query fragment is a function of the command alone, so two
/// renderings of one command, or of two commands with the same value, are the same text, byte
/// for byte.
pub proof fn lemma_rendering_is_repeatable(
    command: Command,
    again: Command,
    first: String,
    second: String,
)
    requires
        command@ == again@,
        first@ == command@.fragment(),
        second@ == again@.fragment(),
    ensures
        first@ == second@,
        encode_utf8(first@) == encode_utf8(second@),
{
}

} // verus!
