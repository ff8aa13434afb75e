//! The bot's decisions: which inbound envelopes are handled, how a message is
//! routed to a command or to free-form handling, and what the dispatch loop
//! does with each event.

use vstd::prelude::*;
use crate::cq_msg::recv::{
    mention_token, occurs_in, strip_markup, CQMessageType, CQPostMessageMsg, CQPostMessageType,
    CQPostMsg,
};
use crate::msg::{RecvMsg, SendMsg};
use crate::text::{chars_of, split_words, words};

verus! {

/// Where the gateway is and who the bot is.
#[derive(Debug, Clone, PartialEq, Eq)]
pub struct BotConfig {
    /// The gateway's websocket address.
    pub websocket: String,
    /// The bot's own account.
    pub bot_qq: u64,
    /// The administrator's account.
    pub root_qq: u64,
}

/// Whether a message envelope is for the bot: every private message, and a
/// group message only where it mentions the bot.
pub open spec fn is_for_bot(message_type: CQMessageType, mentioned: bool) -> bool {
    message_type == CQMessageType::Private || mentioned
}

/// Turns an envelope whose markup is already read into a message to handle,
/// or `None` where it is not for the bot.
pub fn classify(msg: CQPostMessageMsg, is_at: bool) -> (r: Option<RecvMsg>)
    ensures
        r is Some <==> is_for_bot(msg.message_type, is_at),
        r matches Some(m) ==> m.from_id == msg.user_id && m.content == msg.message && m.group_id
            == msg.group_id,
{
    match msg.message_type {
        CQMessageType::Private => Some(RecvMsg::from(msg)),
        CQMessageType::Group => {
            if is_at {
                Some(RecvMsg::from(msg))
            } else {
                None
            }
        },
    }
}

/// Decides whether an inbound frame is handled. `head` is the frame decoded as
/// a generic envelope and `body` as a message envelope, each `None` where that
/// decoding failed. Only message envelopes for the bot are kept, with their
/// markup stripped.
pub fn analyzer_msg(head: Option<CQPostMsg>, body: Option<CQPostMessageMsg>, bot_qq: u64) -> (r:
    Option<RecvMsg>)
    ensures
        match (head, body) {
            (Some(h), Some(b)) => if h.post_type == CQPostMessageType::Message && is_for_bot(
                b.message_type,
                occurs_in(mention_token(bot_qq), b.raw_message@),
            ) {
                (r matches Some(m) && m.from_id == b.user_id && m.content@ == strip_markup(
                    b.message@,
                ) && m.group_id == b.group_id)
            } else {
                r is None
            },
            _ => r is None,
        },
{
    match head {
        Some(h) => match h.post_type {
            CQPostMessageType::Message => match body {
                Some(b) => {
                    let (is_at, b) = b.parse_cq_code(bot_qq);
                    classify(b, is_at)
                },
                None => None,
            },
            _ => None,
        },
        None => None,
    }
}

/// The argument list of a command line: `None` where `content` does not start
/// with `#`; else an empty program name, then the words after the `#`.
pub open spec fn command_tokens(content: Seq<char>) -> Option<Seq<Seq<char>>> {
    if content.len() > 0 && content[0] == '#' {
        Some(seq![Seq::<char>::empty()] + words(content.drop_first()))
    } else {
        None
    }
}

/// The first step of routing a message.
#[derive(Debug, Clone, PartialEq, Eq)]
pub enum RouteStart {
    /// Parse these arguments as a command.
    Command(Vec<String>),
    /// Hand the message to free-form handling.
    Freeform,
}

/// What the argument parser made of a command line.
#[derive(Debug, Clone, PartialEq, Eq)]
pub enum ParseOutcome {
    /// It parsed; `authorized` is the handler's verdict on the sender.
    Parsed { authorized: bool },
    /// It did not; `rendered` is the parser's usage or error text.
    Rejected { rendered: String },
}

/// The end of routing a message.
#[derive(Debug, Clone, PartialEq, Eq)]
pub enum RouteAction {
    /// Run the handler on the parsed command.
    HandleCommand,
    /// Say nothing.
    Ignore,
    /// Send this message.
    Reply(SendMsg),
    /// Run the handler's free-form handling.
    HandleFreeform,
}

/// Whether `content` is a command line, and its arguments if so.
pub fn route_start(msg: &RecvMsg) -> (r: RouteStart)
    ensures
        match command_tokens(msg.content@) {
            Some(t) => (r matches RouteStart::Command(v) && v@.map_values(|w: String| w@) == t),
            None => r is Freeform,
        },
{
    let chars = chars_of(msg.content.as_str());
    if chars.len() > 0 && chars[0] == '#' {
        let found = split_words(&chars, 1);
        let mut args: Vec<String> = Vec::new();
        args.push(String::new());
        let mut k: usize = 0;
        assert(args@.map_values(|w: String| w@) =~= seq![Seq::<char>::empty()] + found@.map_values(
            |w: String| w@,
        ).take(0));
        while k < found.len()
            invariant
                0 <= k <= found.len(),
                args@.map_values(|w: String| w@) == seq![Seq::<char>::empty()] + found@.map_values(
                    |w: String| w@,
                ).take(k as int),
            decreases found.len() - k,
        {
            let w = found[k].clone();
            let ghost before = args@;
            args.push(w);
            assert(args@.map_values(|w: String| w@) =~= before.map_values(|w: String| w@).push(
                found@[k as int]@,
            ));
            assert(found@.map_values(|w: String| w@).take(k + 1) =~= found@.map_values(
                |w: String| w@,
            ).take(k as int).push(found@[k as int]@));
            k = k + 1;
        }
        assert(found@.map_values(|w: String| w@).take(found.len() as int) == found@.map_values(
            |w: String| w@,
        ));
        assert(chars@.drop_first() == chars@.subrange(1, chars.len() as int));
        RouteStart::Command(args)
    } else {
        RouteStart::Freeform
    }
}

/// Decides what follows the parsing of a command line of `msg`. An authorized
/// command is handled and an unauthorized one ignored. A line that does not
/// parse goes to free-form handling where `delegate` is set, and is otherwise
/// answered with the parser's text.
pub fn route_after_parse(msg: &RecvMsg, outcome: ParseOutcome, delegate: bool) -> (r: RouteAction)
    ensures
        match outcome {
            ParseOutcome::Parsed { authorized } => if authorized {
                r is HandleCommand
            } else {
                r is Ignore
            },
            ParseOutcome::Rejected { rendered } => if delegate {
                r is HandleFreeform
            } else {
                r matches RouteAction::Reply(m) && m.content == rendered && m.replay_id == Some(
                    msg.from_id,
                ) && m.group_id == msg.group_id
            },
        },
{
    match outcome {
        ParseOutcome::Parsed { authorized } => {
            if authorized {
                RouteAction::HandleCommand
            } else {
                RouteAction::Ignore
            }
        },
        ParseOutcome::Rejected { rendered } => {
            if delegate {
                RouteAction::HandleFreeform
            } else {
                RouteAction::Reply(msg.reply(rendered))
            }
        },
    }
}

/// An event the dispatch loop waits for.
#[derive(Debug, Clone, PartialEq, Eq)]
pub enum DispatchEvent {
    /// A message accepted for handling.
    Inbound(RecvMsg),
    /// A message injected from outside, to be sent as it is.
    Instant(SendMsg),
}

/// What the dispatch loop does next.
#[derive(Debug, Clone, PartialEq, Eq)]
pub enum DispatchAction {
    /// Start an independent execution that routes this message.
    Spawn(RecvMsg),
    /// Put this message on the outbound queue.
    Forward(SendMsg),
}

/// The dispatch loop's step: each inbound message gets its own execution, and
/// each instant message goes straight to the outbound queue.
pub fn dispatch(event: DispatchEvent) -> (r: DispatchAction)
    ensures
        match event {
            DispatchEvent::Inbound(m) => r == DispatchAction::Spawn(m),
            DispatchEvent::Instant(m) => r == DispatchAction::Forward(m),
        },
{
    match event {
        DispatchEvent::Inbound(m) => DispatchAction::Spawn(m),
        DispatchEvent::Instant(m) => DispatchAction::Forward(m),
    }
}

} // verus!
