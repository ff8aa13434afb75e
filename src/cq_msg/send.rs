//! Outbound actions sent to the gateway.

use vstd::prelude::*;
use vstd::string::*;
use crate::text::{decimal, push_decimal};

verus! {

/// Which gateway action an outbound envelope asks for.
#[derive(Debug, Clone, Copy, PartialEq, Eq, Structural)]
pub enum CQSendMsgAction {
    SendPrivateMsg,
    SendGroupMsg,
}

/// The parameters of an outbound action.
#[derive(Debug, Clone, PartialEq, Eq)]
pub struct CQSendMsgParams {
    pub user_id: Option<u64>,
    pub group_id: Option<u64>,
    pub message: String,
}

/// An outbound envelope: an action and its parameters.
#[derive(Debug, Clone, PartialEq, Eq)]
pub struct CQSendMsg {
    pub action: CQSendMsgAction,
    pub params: CQSendMsgParams,
}

/// The markup that mentions `user` at the head of a group message: `[CQ:at,qq=<user>] `.
pub open spec fn at_prefix(user: u64) -> Seq<char> {
    seq!['[', 'C', 'Q', ':', 'a', 't', ',', 'q', 'q', '='] + decimal(user as nat) + seq![']', ' ']
}

/// The text of a group message, with the mention of `user_id` if one is set.
pub open spec fn group_text(user_id: Option<u64>, message: Seq<char>) -> Seq<char> {
    match user_id {
        Some(u) => at_prefix(u) + message,
        None => message,
    }
}

/// An outbound action as plain values: action, user, group and text.
pub type WireAction = (CQSendMsgAction, Option<u64>, Option<u64>, Seq<char>);

/// The plain values an outbound envelope carries.
pub open spec fn wire(s: CQSendMsg) -> WireAction {
    (s.action, s.params.user_id, s.params.group_id, s.params.message@)
}

impl CQSendMsg {
    /// A private message to `user_id`.
    pub fn new_private_msg(user_id: u64, message: String) -> (r: Self)
        ensures
            r.action == CQSendMsgAction::SendPrivateMsg,
            r.params.user_id == Some(user_id),
            r.params.group_id == None::<u64>,
            r.params.message@ == message@,
    {
        CQSendMsg {
            action: CQSendMsgAction::SendPrivateMsg,
            params: CQSendMsgParams { user_id: Some(user_id), group_id: None, message },
        }
    }

    /// A message to group `group_id`, mentioning `user_id` first if it is set.
    pub fn new_group_msg(group_id: u64, user_id: Option<u64>, message: String) -> (r: Self)
        ensures
            r.action == CQSendMsgAction::SendGroupMsg,
            r.params.user_id == None::<u64>,
            r.params.group_id == Some(group_id),
            r.params.message@ == group_text(user_id, message@),
    {
        let message = match user_id {
            Some(user_id) => {
                let mut text = String::from_str("[CQ:at,qq=");
                proof {
                    reveal_strlit("[CQ:at,qq=");
                    reveal_strlit("] ");
                }
                push_decimal(&mut text, user_id);
                text.append("] ");
                text.append(message.as_str());
                assert(text@ == group_text(Some(user_id), message@));
                text
            },
            None => message,
        };
        CQSendMsg {
            action: CQSendMsgAction::SendGroupMsg,
            params: CQSendMsgParams { user_id: None, group_id: Some(group_id), message },
        }
    }
}

} // verus!
