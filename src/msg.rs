//! The bot's own message shapes, apart from the gateway's envelopes.

use vstd::prelude::*;
use crate::cq_msg::recv::CQPostMessageMsg;
use crate::cq_msg::send::{group_text, wire, CQSendMsg, CQSendMsgAction, WireAction};

verus! {

/// A message accepted for handling.
#[derive(Debug, Clone, PartialEq, Eq)]
pub struct RecvMsg {
    /// The sender's account.
    pub from_id: u64,
    /// The text, markup already stripped.
    pub content: String,
    /// The group it came from; `None` for a private message.
    pub group_id: Option<u64>,
}

/// A reply or any other message the bot sends.
#[derive(Debug, Clone, PartialEq, Eq)]
pub struct SendMsg {
    pub content: String,
    /// The account to answer; mentioned first in a group.
    pub replay_id: Option<u64>,
    pub group_id: Option<u64>,
}

/// Why a message cannot become a gateway action.
#[derive(Debug, Clone, Copy, PartialEq, Eq, Structural)]
pub enum ConvertError {
    /// Neither a group nor a user to deliver to.
    MissingTarget,
}

/// What the gateway is asked to do for `m`, as action, user, group and text;
/// `None` when `m` names neither a group nor a user.
pub open spec fn action_of(m: SendMsg) -> Option<WireAction> {
    match (m.group_id, m.replay_id) {
        (Some(g), u) => Some((CQSendMsgAction::SendGroupMsg, None, Some(g), group_text(u, m.content@))),
        (None, Some(u)) => Some((CQSendMsgAction::SendPrivateMsg, Some(u), None, m.content@)),
        (None, None) => None,
    }
}

impl RecvMsg {
    /// A reply to the sender, in the place the message came from.
    pub fn reply(&self, content: String) -> (r: SendMsg)
        ensures
            r.content == content,
            r.replay_id == Some(self.from_id),
            r.group_id == self.group_id,
    {
        SendMsg { content, replay_id: Some(self.from_id), group_id: self.group_id }
    }
}

impl From<CQPostMessageMsg> for RecvMsg {
    fn from(value: CQPostMessageMsg) -> (r: RecvMsg) {
        RecvMsg { from_id: value.user_id, content: value.message, group_id: value.group_id }
    }
}

impl vstd::std_specs::convert::FromSpecImpl<CQPostMessageMsg> for RecvMsg {
    open spec fn obeys_from_spec() -> bool {
        true
    }

    open spec fn from_spec(value: CQPostMessageMsg) -> RecvMsg {
        RecvMsg { from_id: value.user_id, content: value.message, group_id: value.group_id }
    }
}

impl CQSendMsg {
    /// The gateway action for `value`: to its group, mentioning its reply
    /// target if set; else privately to its reply target; else an error.
    pub fn try_from(value: SendMsg) -> (r: Result<CQSendMsg, ConvertError>)
        ensures
            match action_of(value) {
                Some(a) => (r matches Ok(s) && wire(s) == a),
                None => r == Err::<CQSendMsg, _>(ConvertError::MissingTarget),
            },
    {
        match (value.group_id, value.replay_id) {
            (Some(group_id), user_id) => Ok(CQSendMsg::new_group_msg(group_id, user_id, value.content)),
            (None, Some(user_id)) => Ok(CQSendMsg::new_private_msg(user_id, value.content)),
            (None, None) => Err(ConvertError::MissingTarget),
        }
    }
}

} // verus!
