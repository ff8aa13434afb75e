use cqbot::bot::{
    analyzer_msg, classify, dispatch, route_after_parse, route_start, BotConfig, DispatchAction,
    DispatchEvent, ParseOutcome, RouteAction, RouteStart,
};
use cqbot::cq_msg::recv::{CQMessageType, CQPostMessageMsg, CQPostMessageType, CQPostMsg};
use cqbot::cq_msg::send::{CQSendMsg, CQSendMsgAction};
use cqbot::msg::{ConvertError, RecvMsg, SendMsg};
use cqbot::text::{chars_of, push_decimal, split_words, trim_text};

fn envelope(kind: CQMessageType, message: &str, raw: &str, group: Option<u64>) -> CQPostMessageMsg {
    CQPostMessageMsg {
        post_type: CQPostMessageType::Message,
        message_type: kind,
        time: 1700000000,
        self_id: 123,
        user_id: 42,
        message: message.to_string(),
        raw_message: raw.to_string(),
        message_id: 7,
        group_id: group,
    }
}

fn head(post_type: CQPostMessageType) -> Option<CQPostMsg> {
    Some(CQPostMsg { post_type })
}

fn send(content: &str, replay_id: Option<u64>, group_id: Option<u64>) -> SendMsg {
    SendMsg { content: content.to_string(), replay_id, group_id }
}

fn strings(words: &[&str]) -> Vec<String> {
    words.iter().map(|w| w.to_string()).collect()
}

#[test]
fn reply_addresses_sender() {
    let m = RecvMsg { from_id: 42, content: "hi".to_string(), group_id: Some(5) };
    let r = m.reply("pong".to_string());
    assert_eq!(r, send("pong", Some(42), Some(5)));
}

#[test]
fn recv_msg_from_envelope() {
    let e = envelope(CQMessageType::Group, "text", "raw", Some(5));
    let m = RecvMsg::from(e);
    assert_eq!(m, RecvMsg { from_id: 42, content: "text".to_string(), group_id: Some(5) });
}

#[test]
fn private_action_fields() {
    let s = CQSendMsg::new_private_msg(9, "hi".to_string());
    assert_eq!(s.action, CQSendMsgAction::SendPrivateMsg);
    assert_eq!(s.params.user_id, Some(9));
    assert_eq!(s.params.group_id, None);
    assert_eq!(s.params.message, "hi");
}

#[test]
fn group_action_with_mention() {
    let s = CQSendMsg::new_group_msg(5, Some(9), "hi".to_string());
    assert_eq!(s.action, CQSendMsgAction::SendGroupMsg);
    assert_eq!(s.params.user_id, None);
    assert_eq!(s.params.group_id, Some(5));
    assert_eq!(s.params.message, "[CQ:at,qq=9] hi");
}

#[test]
fn group_action_without_mention() {
    let s = CQSendMsg::new_group_msg(5, None, "hi".to_string());
    assert_eq!(s.params.message, "hi");
    assert_eq!(s.params.group_id, Some(5));
}

#[test]
fn convert_group_with_reply_target() {
    let s = CQSendMsg::try_from(send("hi", Some(9), Some(5))).unwrap();
    assert_eq!(s.action, CQSendMsgAction::SendGroupMsg);
    assert_eq!(s.params.group_id, Some(5));
    assert_eq!(s.params.message, "[CQ:at,qq=9] hi");
}

#[test]
fn convert_private() {
    let s = CQSendMsg::try_from(send("hi", Some(9), None)).unwrap();
    assert_eq!(s.action, CQSendMsgAction::SendPrivateMsg);
    assert_eq!(s.params.user_id, Some(9));
    assert_eq!(s.params.group_id, None);
    assert_eq!(s.params.message, "hi");
}

#[test]
fn convert_without_target_fails() {
    let r = CQSendMsg::try_from(send("hi", None, None));
    assert_eq!(r, Err(ConvertError::MissingTarget));
}

#[test]
fn markup_read_and_stripped() {
    let e = envelope(
        CQMessageType::Group,
        "[CQ:at,qq=123] hello [CQ:face,id=1] ",
        "[CQ:at,qq=123] hello [CQ:face,id=1] ",
        Some(5),
    );
    let (at, m) = e.parse_cq_code(123);
    assert!(at);
    assert_eq!(m.message, "hello");
    assert_eq!(m.raw_message, "[CQ:at,qq=123] hello [CQ:face,id=1] ");
}

#[test]
fn mention_of_another_account() {
    let e = envelope(CQMessageType::Group, "x", "[CQ:at,qq=456] x", Some(5));
    let (at, _) = e.parse_cq_code(123);
    assert!(!at);
}

#[test]
fn markup_code_does_not_span_lines() {
    let e = envelope(CQMessageType::Private, "[CQ:a\nb] x [CQ:c]", "", None);
    let (_, m) = e.parse_cq_code(1);
    assert_eq!(m.message, "[CQ:a\nb] x");
}

#[test]
fn stripping_twice_is_stripping_once() {
    let e = envelope(CQMessageType::Private, "  [CQ:face,id=1]a [CQ:x] b  ", "", None);
    let (_, once) = e.parse_cq_code(1);
    let again = once.clone().parse_cq_code(1).1;
    assert_eq!(once.message, "a  b");
    assert_eq!(again.message, once.message);
}

#[test]
fn codes_joined_by_removal_are_stripped_too() {
    let e = envelope(CQMessageType::Private, "[CQ[CQ:x]:y]", "", None);
    let (_, once) = e.parse_cq_code(1);
    assert_eq!(once.message, "");
    let e = envelope(CQMessageType::Private, "a [[CQ:a]CQ:b] c", "", None);
    let (_, once) = e.parse_cq_code(1);
    assert_eq!(once.message, "a  c");
    let (_, twice) = once.clone().parse_cq_code(1);
    assert_eq!(twice.message, once.message);
}

#[test]
fn plain_trimmed_text_unchanged() {
    let e = envelope(CQMessageType::Private, "just [text] here", "just [text] here", None);
    let (at, m) = e.clone().parse_cq_code(42);
    assert!(!at);
    assert_eq!(m, e);
}

#[test]
fn mention_examples() {
    let e = envelope(CQMessageType::Group, "[CQ:at,qq=42] hello", "[CQ:at,qq=42] hello", Some(5));
    let (at, m) = e.parse_cq_code(42);
    assert!(at);
    assert_eq!(m.message, "hello");
    let e = envelope(CQMessageType::Group, "hi [CQ:at,qq=7]", "hi [CQ:at,qq=7]", Some(5));
    let (at, m) = e.parse_cq_code(42);
    assert!(!at);
    assert_eq!(m.message, "hi");
}

#[test]
fn non_message_envelopes_dropped() {
    for kind in [CQPostMessageType::MetaEvent, CQPostMessageType::Request, CQPostMessageType::Notice] {
        let e = envelope(CQMessageType::Private, "hi", "hi", None);
        assert_eq!(analyzer_msg(head(kind), Some(e), 123), None);
    }
}

#[test]
fn undecodable_frames_dropped() {
    let e = envelope(CQMessageType::Private, "hi", "hi", None);
    assert_eq!(analyzer_msg(None, Some(e), 123), None);
    assert_eq!(analyzer_msg(head(CQPostMessageType::Message), None, 123), None);
}

#[test]
fn unaddressed_group_message_dropped() {
    let e = envelope(CQMessageType::Group, "hello", "hello", Some(5));
    assert_eq!(analyzer_msg(head(CQPostMessageType::Message), Some(e), 123), None);
}

#[test]
fn addressed_group_message_kept() {
    let e = envelope(CQMessageType::Group, "[CQ:at,qq=123] #ban 9", "[CQ:at,qq=123] #ban 9", Some(5));
    let m = analyzer_msg(head(CQPostMessageType::Message), Some(e), 123);
    assert_eq!(m, Some(RecvMsg { from_id: 42, content: "#ban 9".to_string(), group_id: Some(5) }));
}

#[test]
fn private_message_always_kept() {
    let e = envelope(CQMessageType::Private, " hello ", " hello ", None);
    let m = analyzer_msg(head(CQPostMessageType::Message), Some(e), 123);
    assert_eq!(m, Some(RecvMsg { from_id: 42, content: "hello".to_string(), group_id: None }));
    let e = envelope(CQMessageType::Private, "[CQ:at,qq=9] x", "[CQ:at,qq=9] x", None);
    assert!(analyzer_msg(head(CQPostMessageType::Message), Some(e), 123).is_some());
}

#[test]
fn classify_by_kind_and_mention() {
    let g = envelope(CQMessageType::Group, "m", "m", Some(5));
    assert!(classify(g.clone(), true).is_some());
    assert_eq!(classify(g, false), None);
    let p = envelope(CQMessageType::Private, "m", "m", None);
    assert!(classify(p.clone(), false).is_some());
    assert!(classify(p, true).is_some());
}

#[test]
fn command_line_tokens() {
    let m = RecvMsg { from_id: 42, content: "#ban 9".to_string(), group_id: Some(5) };
    assert_eq!(route_start(&m), RouteStart::Command(strings(&["", "ban", "9"])));
    let m = RecvMsg { from_id: 42, content: "#  a\tb  ".to_string(), group_id: None };
    assert_eq!(route_start(&m), RouteStart::Command(strings(&["", "a", "b"])));
    let m = RecvMsg { from_id: 42, content: "#".to_string(), group_id: None };
    assert_eq!(route_start(&m), RouteStart::Command(strings(&[""])));
}

#[test]
fn free_form_line() {
    let m = RecvMsg { from_id: 42, content: "hello #ban".to_string(), group_id: None };
    assert_eq!(route_start(&m), RouteStart::Freeform);
    let m = RecvMsg { from_id: 42, content: String::new(), group_id: None };
    assert_eq!(route_start(&m), RouteStart::Freeform);
}

#[test]
fn authorized_command_handled() {
    let m = RecvMsg { from_id: 42, content: "#ban 9".to_string(), group_id: Some(5) };
    let r = route_after_parse(&m, ParseOutcome::Parsed { authorized: true }, false);
    assert_eq!(r, RouteAction::HandleCommand);
    let r = route_after_parse(&m, ParseOutcome::Parsed { authorized: true }, true);
    assert_eq!(r, RouteAction::HandleCommand);
}

#[test]
fn unauthorized_command_ignored() {
    let m = RecvMsg { from_id: 42, content: "#ban 9".to_string(), group_id: Some(5) };
    let r = route_after_parse(&m, ParseOutcome::Parsed { authorized: false }, false);
    assert_eq!(r, RouteAction::Ignore);
}

#[test]
fn rejected_command_answered_with_usage() {
    let m = RecvMsg { from_id: 42, content: "#bogus".to_string(), group_id: Some(5) };
    let outcome = ParseOutcome::Rejected { rendered: "error: unrecognized subcommand 'bogus'".to_string() };
    let r = route_after_parse(&m, outcome, false);
    assert_eq!(
        r,
        RouteAction::Reply(send("error: unrecognized subcommand 'bogus'", Some(42), Some(5)))
    );
}

#[test]
fn rejected_command_delegated() {
    let m = RecvMsg { from_id: 42, content: "#bogus".to_string(), group_id: None };
    let outcome = ParseOutcome::Rejected { rendered: "usage".to_string() };
    assert_eq!(route_after_parse(&m, outcome, true), RouteAction::HandleFreeform);
}

#[test]
fn dispatch_spawns_and_forwards() {
    let m = RecvMsg { from_id: 1, content: "a".to_string(), group_id: None };
    assert_eq!(dispatch(DispatchEvent::Inbound(m.clone())), DispatchAction::Spawn(m));
    let s = send("b", Some(1), None);
    assert_eq!(dispatch(DispatchEvent::Instant(s.clone())), DispatchAction::Forward(s));
}

#[test]
fn every_inbound_message_gets_its_own_execution() {
    let mut spawned = 0;
    for i in 0..10u64 {
        let m = RecvMsg { from_id: i, content: "slow".to_string(), group_id: None };
        if let DispatchAction::Spawn(x) = dispatch(DispatchEvent::Inbound(m)) {
            assert_eq!(x.from_id, i);
            spawned += 1;
        }
        let s = send("now", Some(i), None);
        assert!(matches!(dispatch(DispatchEvent::Instant(s)), DispatchAction::Forward(_)));
    }
    assert_eq!(spawned, 10);
}

#[test]
fn text_helpers() {
    assert_eq!(trim_text("\t a b \u{3000}"), "a b");
    assert_eq!(trim_text("   "), "");
    let v = chars_of(" one  two\nthree ");
    assert_eq!(split_words(&v, 0), strings(&["one", "two", "three"]));
    assert_eq!(split_words(&v, 5), strings(&["two", "three"]));
    let mut s = String::from("n=");
    push_decimal(&mut s, 0);
    assert_eq!(s, "n=0");
    let mut s = String::new();
    push_decimal(&mut s, u64::MAX);
    assert_eq!(s, "18446744073709551615");
}

#[test]
fn config_fields() {
    let c = BotConfig { websocket: "ws://127.0.0.1:8080".to_string(), bot_qq: 123, root_qq: 1 };
    assert_eq!(c.bot_qq, 123);
    assert_eq!(c.clone(), c);
}

#[test]
fn example_frames_classified() {
    let mut e = envelope(CQMessageType::Private, "[CQ:face,id=1] hi", "[CQ:face,id=1] hi", None);
    e.user_id = 7;
    let m = analyzer_msg(head(CQPostMessageType::Message), Some(e), 42);
    assert_eq!(m, Some(RecvMsg { from_id: 7, content: "hi".to_string(), group_id: None }));
    let mut e = envelope(CQMessageType::Group, "[CQ:at,qq=42] ping", "[CQ:at,qq=42] ping", Some(5));
    e.user_id = 7;
    let m = analyzer_msg(head(CQPostMessageType::Message), Some(e), 42);
    assert_eq!(m, Some(RecvMsg { from_id: 7, content: "ping".to_string(), group_id: Some(5) }));
}
