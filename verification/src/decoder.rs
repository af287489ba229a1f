//! The decoder: from an addressed message to one command, or to the reason why there is none.
//!
//! | address               | arguments | accepted kinds      | command        |
//! |-----------------------|-----------|---------------------|----------------|
//! | `/vmix/fader`         | 1         | integer or real     | `SetFader`     |
//! | `/vmix/cut`           | 1         | integer or text     | `Cut`          |
//! | `/vmix/preview`       | 1         | integer or text     | `Preview`      |
//! | `/vmix/raw`           | 1         | text                | `Raw`          |
//! | `/vmix/quickplay`     | 0         |                     | `QuickPlay`    |
//! | `/vmix/ftb`           | 0         |                     | `FadeToBlack`  |
//! | `/vmix/restart`       | 1         | integer or text     | `Restart`      |
//! | `/vmix/nextitem`      | 1         | integer or text     | `NextItem`     |
//! | `/vmix/previousitem`  | 1         | integer or text     | `PreviousItem` |
//!
//! A level given as a real number is truncated toward zero. An input given as an integer is
//! named by the integer's decimal text.

use crate::binary32::{truncate, truncated};
use crate::command::{Command, CommandView};
use crate::decimal::{decimal, render_decimal};
use crate::message::{Arg, ArgView, Message, MessageView};
use crate::text::same_text;
use vstd::prelude::*;

verus! {

/// The kinds of argument that an action takes.
#[derive(Debug, Clone, Copy, PartialEq, Eq, Structural)]
pub enum Expected {
    IntegerOrFloat,
    IntegerOrString,
    StringOnly,
}

impl Expected {
    /// Whether an argument is of one of these kinds.
    pub open spec fn admits(self, arg: ArgView) -> bool {
        match self {
            Expected::IntegerOrFloat => arg is Int || arg is Float,
            Expected::IntegerOrString => arg is Int || arg is Str,
            Expected::StringOnly => arg is Str,
        }
    }
}

/// Why a datagram gave no command.
#[derive(Debug, PartialEq, Eq)]
pub enum Rejection {
    /// A known address with the wrong number of arguments.
    WrongArity { addr: String, expected: usize, actual: usize },
    /// A known address with an argument of a kind that the action does not take.
    WrongType { addr: String, received: Arg, kinds: Expected },
    /// An address outside the vocabulary.
    UnknownAddress { addr: String },
    /// A bundle of messages.
    Bundle,
    /// Bytes that are no OSC packet, with the decoder's complaint.
    Malformed { reason: String },
}

/// A rejection as a mathematical value.
pub enum RejectionView {
    WrongArity { addr: Seq<char>, expected: nat, actual: nat },
    WrongType { addr: Seq<char>, received: ArgView, kinds: Expected },
    UnknownAddress { addr: Seq<char> },
    Bundle,
    Malformed { reason: Seq<char> },
}

impl View for Rejection {
    type V = RejectionView;

    open spec fn view(&self) -> RejectionView {
        match self {
            Rejection::WrongArity { addr, expected, actual } => RejectionView::WrongArity {
                addr: addr@,
                expected: *expected as nat,
                actual: *actual as nat,
            },
            Rejection::WrongType { addr, received, kinds } => RejectionView::WrongType {
                addr: addr@,
                received: received@,
                kinds: *kinds,
            },
            Rejection::UnknownAddress { addr } => RejectionView::UnknownAddress { addr: addr@ },
            Rejection::Bundle => RejectionView::Bundle,
            Rejection::Malformed { reason } => RejectionView::Malformed { reason: reason@ },
        }
    }
}

/// The actions of the vocabulary, without their payloads.
#[derive(Debug, Clone, Copy, PartialEq, Eq, Structural)]
pub enum Action {
    SetFader,
    Cut,
    Preview,
    Raw,
    QuickPlay,
    FadeToBlack,
    Restart,
    NextItem,
    PreviousItem,
}

/// The action that an address asks for, if it is one of the vocabulary.
pub open spec fn action_at(addr: Seq<char>) -> Option<Action> {
    if addr == "/vmix/fader"@ {
        Some(Action::SetFader)
    } else if addr == "/vmix/cut"@ {
        Some(Action::Cut)
    } else if addr == "/vmix/preview"@ {
        Some(Action::Preview)
    } else if addr == "/vmix/raw"@ {
        Some(Action::Raw)
    } else if addr == "/vmix/quickplay"@ {
        Some(Action::QuickPlay)
    } else if addr == "/vmix/ftb"@ {
        Some(Action::FadeToBlack)
    } else if addr == "/vmix/restart"@ {
        Some(Action::Restart)
    } else if addr == "/vmix/nextitem"@ {
        Some(Action::NextItem)
    } else if addr == "/vmix/previousitem"@ {
        Some(Action::PreviousItem)
    } else {
        None
    }
}

impl Action {
    /// The kinds of argument that the action takes; `None` where it takes no argument.
    pub open spec fn accepts(self) -> Option<Expected> {
        match self {
            Action::SetFader => Some(Expected::IntegerOrFloat),
            Action::Raw => Some(Expected::StringOnly),
            Action::QuickPlay | Action::FadeToBlack => None,
            Action::Cut | Action::Preview | Action::Restart | Action::NextItem
            | Action::PreviousItem => Some(Expected::IntegerOrString),
        }
    }

    /// The number of arguments that the action takes.
    pub open spec fn arity(self) -> nat {
        if self.accepts() is None {
            0
        } else {
            1
        }
    }
}

/// The level that an integer or a real argument gives: an integer as it is, a real number
/// truncated toward zero.
pub open spec fn level_of(arg: ArgView) -> int
    recommends
        arg is Int || arg is Float,
{
    match arg {
        ArgView::Int(n) => n,
        ArgView::Float(bits) => truncated(bits),
        _ => 0,
    }
}

/// The text that an integer or a text argument gives: a text as it is, an integer by its
/// decimal text.
pub open spec fn text_of(arg: ArgView) -> Seq<char>
    recommends
        arg is Int || arg is Str,
{
    match arg {
        ArgView::Int(n) => decimal(n),
        ArgView::Str(text) => text,
        _ => Seq::<char>::empty(),
    }
}

impl Action {
    /// The command of the action with the payload that the arguments give.
    pub open spec fn command(self, args: Seq<ArgView>) -> CommandView
        recommends
            args.len() == self.arity(),
            self.accepts() matches Some(kinds) ==> kinds.admits(args[0]),
    {
        match self {
            Action::SetFader => CommandView::SetFader(level_of(args[0])),
            Action::Cut => CommandView::Cut(text_of(args[0])),
            Action::Preview => CommandView::Preview(text_of(args[0])),
            Action::Raw => CommandView::Raw(text_of(args[0])),
            Action::QuickPlay => CommandView::QuickPlay,
            Action::FadeToBlack => CommandView::FadeToBlack,
            Action::Restart => CommandView::Restart(text_of(args[0])),
            Action::NextItem => CommandView::NextItem(text_of(args[0])),
            Action::PreviousItem => CommandView::PreviousItem(text_of(args[0])),
        }
    }
}

/// What a message with the address of `action` gives. The number of its arguments is held
/// against the action first, then the kind of its argument; a message that passes both gives
/// the action's command, and one that fails gives the rejection that names the fault.
pub open spec fn validate(action: Action, m: MessageView) -> Result<CommandView, RejectionView> {
    if m.args.len() != action.arity() {
        Err(
            RejectionView::WrongArity {
                addr: m.addr,
                expected: action.arity(),
                actual: m.args.len(),
            },
        )
    } else if action.accepts() matches Some(kinds) && !kinds.admits(m.args[0]) {
        Err(
            RejectionView::WrongType {
                addr: m.addr,
                received: m.args[0],
                kinds: action.accepts()->0,
            },
        )
    } else {
        Ok(action.command(m.args))
    }
}

/// What a message gives: for an address of the vocabulary what `validate` says, for any other
/// address the rejection that names it.
pub open spec fn decode(m: MessageView) -> Result<CommandView, RejectionView> {
    match action_at(m.addr) {
        Some(action) => validate(action, m),
        None => Err(RejectionView::UnknownAddress { addr: m.addr }),
    }
}

/// The view of a decoder's result.
pub open spec fn outcome_view(r: Result<Command, Rejection>) -> Result<CommandView, RejectionView> {
    match r {
        Ok(command) => Ok(command@),
        Err(rejection) => Err(rejection@),
    }
}

/// Finds the action that an address asks for.
pub fn action_of(addr: &str) -> (action: Option<Action>)
    ensures
        action == action_at(addr@),
{
    if same_text(addr, "/vmix/fader") {
        Some(Action::SetFader)
    } else if same_text(addr, "/vmix/cut") {
        Some(Action::Cut)
    } else if same_text(addr, "/vmix/preview") {
        Some(Action::Preview)
    } else if same_text(addr, "/vmix/raw") {
        Some(Action::Raw)
    } else if same_text(addr, "/vmix/quickplay") {
        Some(Action::QuickPlay)
    } else if same_text(addr, "/vmix/ftb") {
        Some(Action::FadeToBlack)
    } else if same_text(addr, "/vmix/restart") {
        Some(Action::Restart)
    } else if same_text(addr, "/vmix/nextitem") {
        Some(Action::NextItem)
    } else if same_text(addr, "/vmix/previousitem") {
        Some(Action::PreviousItem)
    } else {
        None
    }
}

/// Parts a message that must have no argument from its address.
fn no_argument(msg: Message) -> (r: Result<(), Rejection>)
    ensures
        match r {
            Ok(_) => msg@.args.len() == 0,
            Err(rejection) => msg@.args.len() != 0 && rejection@ == (RejectionView::WrongArity {
                addr: msg@.addr,
                expected: 0,
                actual: msg@.args.len(),
            }),
        },
{
    let Message { addr, args } = msg;
    let actual = args.len();
    if actual == 0 {
        Ok(())
    } else {
        Err(Rejection::WrongArity { addr, expected: 0, actual })
    }
}

/// Takes the one argument that a message must have, and the message's address with it.
fn sole_argument(msg: Message) -> (r: Result<(String, Arg), Rejection>)
    ensures
        match r {
            Ok((addr, arg)) => msg@.args.len() == 1 && addr@ == msg@.addr && arg@ == msg@.args[0],
            Err(rejection) => msg@.args.len() != 1 && rejection@ == (RejectionView::WrongArity {
                addr: msg@.addr,
                expected: 1,
                actual: msg@.args.len(),
            }),
        },
{
    let Message { addr, mut args } = msg;
    let actual = args.len();
    match args.pop() {
        Some(arg) => {
            if actual == 1 {
                Ok((addr, arg))
            } else {
                Err(Rejection::WrongArity { addr, expected: 1, actual })
            }
        },
        None => Err(Rejection::WrongArity { addr, expected: 1, actual }),
    }
}

/// Takes the input that the one argument of a message names.
fn input_argument(msg: Message) -> (r: Result<String, Rejection>)
    ensures
        match r {
            Ok(input) => {
                &&& msg@.args.len() == 1
                &&& Expected::IntegerOrString.admits(msg@.args[0])
                &&& input@ == text_of(msg@.args[0])
            },
            Err(rejection) => if msg@.args.len() != 1 {
                rejection@ == (RejectionView::WrongArity {
                    addr: msg@.addr,
                    expected: 1,
                    actual: msg@.args.len(),
                })
            } else {
                &&& !Expected::IntegerOrString.admits(msg@.args[0])
                &&& rejection@ == (RejectionView::WrongType {
                    addr: msg@.addr,
                    received: msg@.args[0],
                    kinds: Expected::IntegerOrString,
                })
            },
        },
{
    match sole_argument(msg) {
        Ok((addr, arg)) => match arg {
            Arg::Int(n) => Ok(render_decimal(n)),
            Arg::Str(text) => Ok(text),
            other => Err(
                Rejection::WrongType { addr, received: other, kinds: Expected::IntegerOrString },
            ),
        },
        Err(rejection) => Err(rejection),
    }
}

/// Decodes a message sent to `/vmix/fader`.
pub fn handle_fader_message(msg: Message) -> (r: Result<Command, Rejection>)
    ensures
        outcome_view(r) == validate(Action::SetFader, msg@),
{
    match sole_argument(msg) {
        Ok((addr, arg)) => match arg {
            Arg::Int(level) => Ok(Command::SetFader(level)),
            Arg::Float(bits) => Ok(Command::SetFader(truncate(bits))),
            other => Err(
                Rejection::WrongType { addr, received: other, kinds: Expected::IntegerOrFloat },
            ),
        },
        Err(rejection) => Err(rejection),
    }
}

/// Decodes a message sent to `/vmix/cut`.
pub fn handle_cut_message(msg: Message) -> (r: Result<Command, Rejection>)
    ensures
        outcome_view(r) == validate(Action::Cut, msg@),
{
    match input_argument(msg) {
        Ok(input) => Ok(Command::Cut(input)),
        Err(rejection) => Err(rejection),
    }
}

/// Decodes a message sent to `/vmix/preview`.
pub fn handle_preview_message(msg: Message) -> (r: Result<Command, Rejection>)
    ensures
        outcome_view(r) == validate(Action::Preview, msg@),
{
    match input_argument(msg) {
        Ok(input) => Ok(Command::Preview(input)),
        Err(rejection) => Err(rejection),
    }
}

/// Decodes a message sent to `/vmix/raw`.
pub fn handle_raw_message(msg: Message) -> (r: Result<Command, Rejection>)
    ensures
        outcome_view(r) == validate(Action::Raw, msg@),
{
    match sole_argument(msg) {
        Ok((addr, arg)) => match arg {
            Arg::Str(query) => Ok(Command::Raw(query)),
            other => Err(
                Rejection::WrongType { addr, received: other, kinds: Expected::StringOnly },
            ),
        },
        Err(rejection) => Err(rejection),
    }
}

/// Decodes a message sent to `/vmix/quickplay`.
pub fn handle_quickplay_message(msg: Message) -> (r: Result<Command, Rejection>)
    ensures
        outcome_view(r) == validate(Action::QuickPlay, msg@),
{
    match no_argument(msg) {
        Ok(_) => Ok(Command::QuickPlay),
        Err(rejection) => Err(rejection),
    }
}

/// Decodes a message sent to `/vmix/ftb`.
pub fn handle_ftb_message(msg: Message) -> (r: Result<Command, Rejection>)
    ensures
        outcome_view(r) == validate(Action::FadeToBlack, msg@),
{
    match no_argument(msg) {
        Ok(_) => Ok(Command::FadeToBlack),
        Err(rejection) => Err(rejection),
    }
}

/// Decodes a message sent to `/vmix/restart`.
pub fn handle_restart_message(msg: Message) -> (r: Result<Command, Rejection>)
    ensures
        outcome_view(r) == validate(Action::Restart, msg@),
{
    match input_argument(msg) {
        Ok(input) => Ok(Command::Restart(input)),
        Err(rejection) => Err(rejection),
    }
}

/// Decodes a message sent to `/vmix/nextitem`.
pub fn handle_nextitem_message(msg: Message) -> (r: Result<Command, Rejection>)
    ensures
        outcome_view(r) == validate(Action::NextItem, msg@),
{
    match input_argument(msg) {
        Ok(input) => Ok(Command::NextItem(input)),
        Err(rejection) => Err(rejection),
    }
}

/// Decodes a message sent to `/vmix/previousitem`.
pub fn handle_previousitem_message(msg: Message) -> (r: Result<Command, Rejection>)
    ensures
        outcome_view(r) == validate(Action::PreviousItem, msg@),
{
    match input_argument(msg) {
        Ok(input) => Ok(Command::PreviousItem(input)),
        Err(rejection) => Err(rejection),
    }
}

/// Decodes a message: finds the action that its address asks for and lets the action's own
/// function hold the arguments against it.
pub fn decode_message(msg: Message) -> (r: Result<Command, Rejection>)
    ensures
        outcome_view(r) == decode(msg@),
{
    match action_of(msg.addr.as_str()) {
        Some(Action::SetFader) => handle_fader_message(msg),
        Some(Action::Cut) => handle_cut_message(msg),
        Some(Action::Preview) => handle_preview_message(msg),
        Some(Action::Raw) => handle_raw_message(msg),
        Some(Action::QuickPlay) => handle_quickplay_message(msg),
        Some(Action::FadeToBlack) => handle_ftb_message(msg),
        Some(Action::Restart) => handle_restart_message(msg),
        Some(Action::NextItem) => handle_nextitem_message(msg),
        Some(Action::PreviousItem) => handle_previousitem_message(msg),
        None => Err(Rejection::UnknownAddress { addr: msg.addr }),
    }
}

impl Action {
    /// The fixed text with which the query fragment of the action begins.
    pub open spec fn template(self) -> Seq<char> {
        match self {
            Action::SetFader => "Function=SetFader&Value="@,
            Action::Cut => "Function=CutDirect&Input="@,
            Action::Preview => "Function=PreviewInput&Input="@,
            Action::Raw => Seq::<char>::empty(),
            Action::QuickPlay => "Function=QuickPlay"@,
            Action::FadeToBlack => "Function=FadeToBlack"@,
            Action::Restart => "Function=Restart&Input="@,
            Action::NextItem => "Function=NextItem&Input="@,
            Action::PreviousItem => "Function=PreviousItem&Input="@,
        }
    }
}

/// The text that an argument puts into a query fragment: an integer by its decimal text, a
/// real number by the decimal text of its whole part, a text as it is.
pub open spec fn payload(arg: ArgView) -> Seq<char> {
    match arg {
        ArgView::Int(n) => decimal(n),
        ArgView::Float(bits) => decimal(truncated(bits)),
        ArgView::Str(text) => text,
        ArgView::Other(_) => Seq::<char>::empty(),
    }
}

/// A message to an address of the vocabulary, with the number and the kind of arguments that
/// the action takes, gives a command, and the command's query fragment is the action's
/// template followed by what the argument puts in.
pub proof fn lemma_accepted_message_gives_its_fragment(m: MessageView)
    requires
        action_at(m.addr) is Some,
        m.args.len() == action_at(m.addr)->0.arity(),
        action_at(m.addr)->0.accepts() matches Some(expected) ==> expected.admits(m.args[0]),
    ensures
        decode(m) is Ok,
        decode(m)->Ok_0.fragment() == action_at(m.addr)->0.template() + (if m.args.len() == 0 {
            Seq::<char>::empty()
        } else {
            payload(m.args[0])
        }),
{
}

/// A message to an address of the vocabulary with another number of arguments than the action
/// takes gives no command, and the one rejection names the address and both numbers.
pub proof fn lemma_wrong_arity_is_rejected(m: MessageView)
    requires
        action_at(m.addr) is Some,
        m.args.len() != action_at(m.addr)->0.arity(),
    ensures
        decode(m) == Err::<CommandView, RejectionView>(
            RejectionView::WrongArity {
                addr: m.addr,
                expected: action_at(m.addr)->0.arity(),
                actual: m.args.len(),
            },
        ),
{
}

/// A message to an address of the vocabulary whose one argument is of a kind that the action
/// does not take gives no command, and the one rejection names the address, the argument and
/// the kinds that the action takes.
pub proof fn lemma_wrong_type_is_rejected(m: MessageView)
    requires
        action_at(m.addr) is Some,
        m.args.len() == 1,
        action_at(m.addr)->0.accepts() matches Some(expected) && !expected.admits(m.args[0]),
    ensures
        decode(m) == Err::<CommandView, RejectionView>(
            RejectionView::WrongType {
                addr: m.addr,
                received: m.args[0],
                kinds: action_at(m.addr)->0.accepts()->0,
            },
        ),
{
}

/// A message to an address outside the vocabulary gives no command, and the one rejection
/// names the address.
pub proof fn lemma_unknown_address_is_rejected(m: MessageView)
    requires
        action_at(m.addr) is None,
    ensures
        decode(m) == Err::<CommandView, RejectionView>(
            RejectionView::UnknownAddress { addr: m.addr },
        ),
{
}

} // verus!
