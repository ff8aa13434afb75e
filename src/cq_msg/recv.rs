//! Inbound envelopes, and the reading of their inline markup.

use vstd::prelude::*;
use vstd::string::*;
use crate::text::{decimal, digit, is_ws, push_decimal, trim, trim_end, trim_start, trim_text};

verus! {

/// The kind of event an inbound envelope carries.
#[derive(Debug, Clone, Copy, PartialEq, Eq, Structural)]
pub enum CQPostMessageType {
    Message,
    MetaEvent,
    Request,
    Notice,
}

/// Where a chat message was posted.
#[derive(Debug, Clone, Copy, PartialEq, Eq, Structural)]
pub enum CQMessageType {
    Group,
    Private,
}

/// The head of any inbound envelope: only its event kind.
#[derive(Debug, Clone, Copy, PartialEq, Eq, Structural)]
pub struct CQPostMsg {
    pub post_type: CQPostMessageType,
}

/// An inbound chat message envelope.
#[derive(Debug, Clone, PartialEq, Eq)]
pub struct CQPostMessageMsg {
    pub post_type: CQPostMessageType,
    pub message_type: CQMessageType,
    /// Unix timestamp of the message.
    pub time: u64,
    /// The bot's own account.
    pub self_id: u64,
    /// The sender's account.
    pub user_id: u64,
    pub message: String,
    pub raw_message: String,
    pub message_id: i64,
    /// Set for group messages.
    pub group_id: Option<u64>,
}

/// Whether `t` occurs in `s` as a contiguous run.
pub open spec fn occurs_in(t: Seq<char>, s: Seq<char>) -> bool {
    exists|i: int| 0 <= i && i + t.len() <= s.len() && #[trigger] s.subrange(i, i + t.len()) == t
}

/// The text that marks a mention of account `id`.
pub open spec fn mention_token(id: u64) -> Seq<char> {
    seq!['C', 'Q', ':', 'a', 't', ',', 'q', 'q', '='] + decimal(id as nat)
}

/// Characters that a regular expression reads as themselves.
pub open spec fn is_plain_char(c: char) -> bool {
    ('a' <= c && c <= 'z') || ('A' <= c && c <= 'Z') || ('0' <= c && c <= '9') || c == ':'
        || c == ',' || c == '='
}

/// A pattern without any metacharacter.
pub open spec fn is_literal_pattern(p: Seq<char>) -> bool {
    forall|i: int| 0 <= i < p.len() ==> is_plain_char(#[trigger] p[i])
}

/// The pattern `\[CQ:.*?\]` of an inline markup code.
pub open spec fn markup_pattern() -> Seq<char> {
    seq!['\\', '[', 'C', 'Q', ':', '.', '*', '?', '\\', ']']
}

/// Where the first `]` of `t` stands, if no line feed comes before it.
pub open spec fn closing(t: Seq<char>) -> Option<int>
    decreases t.len(),
{
    if t.len() == 0 {
        None
    } else if t[0] == ']' {
        Some(0)
    } else if t[0] == '\n' {
        None
    } else {
        match closing(t.drop_first()) {
            Some(k) => Some(k + 1),
            None => None,
        }
    }
}

/// Whether `s` opens with `[CQ:`.
pub open spec fn opens_code(s: Seq<char>) -> bool {
    s.len() >= 4 && s[0] == '[' && s[1] == 'C' && s[2] == 'Q' && s[3] == ':'
}

/// Whether a whole markup code starts at the front of `s`.
pub open spec fn code_at_front(s: Seq<char>) -> bool {
    opens_code(s) && closing(s.subrange(4, s.len() as int)) is Some
}

/// `s` with each markup code removed, matched leftmost first and each one
/// ending at its first `]`.
pub open spec fn remove_markup(s: Seq<char>) -> Seq<char>
    decreases s.len(),
{
    if s.len() == 0 {
        s
    } else if code_at_front(s) {
        let k = closing(s.subrange(4, s.len() as int))->0;
        if 0 <= k && 5 + k <= s.len() {
            remove_markup(s.subrange(5 + k, s.len() as int))
        } else {
            s
        }
    } else {
        seq![s[0]] + remove_markup(s.drop_first())
    }
}

/// Whether no markup code starts anywhere in `s`.
pub open spec fn no_markup(s: Seq<char>) -> bool
    decreases s.len(),
{
    s.len() == 0 || (!code_at_front(s) && no_markup(s.drop_first()))
}

/// `s` with markup codes removed again and again, until none is left.
pub open spec fn clear_markup(s: Seq<char>) -> Seq<char>
    decreases s.len(),
    via clear_markup_decreases
{
    if no_markup(s) {
        s
    } else {
        clear_markup(remove_markup(s))
    }
}

#[via_fn]
proof fn clear_markup_decreases(s: Seq<char>) {
    lemma_remove_markup_len(s);
}

/// The handleable text of a message: every markup code removed, then trimmed.
pub open spec fn strip_markup(s: Seq<char>) -> Seq<char> {
    trim(clear_markup(s))
}

proof fn lemma_closing_range(t: Seq<char>)
    ensures
        closing(t) matches Some(k) ==> 0 <= k < t.len(),
    decreases t.len(),
{
    if t.len() > 0 && t[0] != ']' && t[0] != '\n' {
        lemma_closing_range(t.drop_first());
    }
}

/// Removing codes never lengthens a text, and shortens it where a code is left.
proof fn lemma_remove_markup_len(s: Seq<char>)
    ensures
        remove_markup(s).len() <= s.len(),
        !no_markup(s) ==> remove_markup(s).len() < s.len(),
    decreases s.len(),
{
    if s.len() > 0 {
        if code_at_front(s) {
            let t = s.subrange(4, s.len() as int);
            lemma_closing_range(t);
            let k = closing(t)->0;
            lemma_remove_markup_len(s.subrange(5 + k, s.len() as int));
        } else {
            lemma_remove_markup_len(s.drop_first());
        }
    }
}

proof fn lemma_clear_markup_clean(s: Seq<char>)
    ensures
        no_markup(clear_markup(s)),
        clear_markup(remove_markup(s)) == clear_markup(s),
    decreases s.len(),
{
    if no_markup(s) {
        lemma_no_markup_unchanged(s);
    } else {
        lemma_remove_markup_len(s);
        lemma_clear_markup_clean(remove_markup(s));
    }
}

proof fn lemma_no_markup_unchanged(s: Seq<char>)
    requires
        no_markup(s),
    ensures
        remove_markup(s) == s,
    decreases s.len(),
{
    if s.len() > 0 {
        lemma_no_markup_unchanged(s.drop_first());
        assert(seq![s[0]] + s.drop_first() == s);
    }
}

proof fn lemma_closing_extends(t: Seq<char>)
    requires
        t.len() > 0,
        closing(t.drop_last()) is Some,
    ensures
        closing(t) is Some,
    decreases t.len(),
{
    if t[0] != ']' && t[0] != '\n' {
        assert(t.drop_last().drop_first() == t.drop_first().drop_last());
        lemma_closing_extends(t.drop_first());
    }
}

proof fn lemma_no_markup_drop_last(s: Seq<char>)
    requires
        s.len() > 0,
        no_markup(s),
    ensures
        no_markup(s.drop_last()),
    decreases s.len(),
{
    let p = s.drop_last();
    if p.len() > 0 {
        if opens_code(p) {
            assert(p.subrange(4, p.len() as int) == s.subrange(4, s.len() as int).drop_last());
            if closing(p.subrange(4, p.len() as int)) is Some {
                lemma_closing_extends(s.subrange(4, s.len() as int));
            }
        }
        assert(p.drop_first() == s.drop_first().drop_last());
        lemma_no_markup_drop_last(s.drop_first());
    }
}

proof fn lemma_no_markup_trim_start(s: Seq<char>)
    requires
        no_markup(s),
    ensures
        no_markup(trim_start(s)),
    decreases s.len(),
{
    if s.len() > 0 && is_ws(s[0]) {
        lemma_no_markup_trim_start(s.drop_first());
    }
}

proof fn lemma_no_markup_trim_end(s: Seq<char>)
    requires
        no_markup(s),
    ensures
        no_markup(trim_end(s)),
    decreases s.len(),
{
    if s.len() > 0 && is_ws(s.last()) {
        lemma_no_markup_drop_last(s);
        lemma_no_markup_trim_end(s.drop_last());
    }
}

proof fn lemma_trim_start_front(s: Seq<char>)
    ensures
        trim_start(s).len() == 0 || !is_ws(trim_start(s)[0]),
    decreases s.len(),
{
    if s.len() > 0 && is_ws(s[0]) {
        lemma_trim_start_front(s.drop_first());
    }
}

proof fn lemma_trim_end_ends(s: Seq<char>)
    ensures
        trim_end(s).len() == 0 || !is_ws(trim_end(s).last()),
        s.len() > 0 && !is_ws(s[0]) ==> trim_end(s).len() > 0 && trim_end(s)[0] == s[0],
    decreases s.len(),
{
    if s.len() > 0 && is_ws(s.last()) {
        lemma_trim_end_ends(s.drop_last());
    }
}

/// Trimming twice gives what trimming once gives.
pub proof fn lemma_trim_idempotent(s: Seq<char>)
    ensures
        trim(trim(s)) == trim(s),
{
    let y = trim(s);
    lemma_trim_start_front(s);
    lemma_trim_end_ends(trim_start(s));
    assert(trim_start(y) == y);
    assert(trim_end(y) == y);
}

/// Stripping the markup of an already stripped text changes nothing.
pub proof fn lemma_strip_markup_idempotent(s: Seq<char>)
    ensures
        strip_markup(strip_markup(s)) == strip_markup(s),
        no_markup(strip_markup(s)),
{
    let r = clear_markup(s);
    lemma_clear_markup_clean(s);
    lemma_no_markup_trim_start(r);
    lemma_no_markup_trim_end(trim_start(r));
    lemma_no_markup_unchanged(trim(r));
    assert(clear_markup(trim(r)) == trim(r));
    lemma_trim_idempotent(r);
}

/// Relies on `regex::Regex::new` and `Regex::is_match`: a pattern made only of
/// letters, digits, `:`, `,` and `=` holds no metacharacter, so it compiles
/// (a short one stays far below the size limit) and matches exactly where the
/// haystack holds it literally.
#[verifier::external_body]
fn find_literal(pattern: &str, haystack: &str) -> (r: bool)
    requires
        is_literal_pattern(pattern@),
        pattern@.len() <= 32,
    ensures
        r == occurs_in(pattern@, haystack@),
{
    regex::Regex::new(pattern).unwrap().is_match(haystack)
}

/// Relies on `regex::Regex::new` and `Regex::replace_all` with an empty
/// replacement: the fixed pattern `\[CQ:.*?\]` compiles, and all of its
/// non-overlapping leftmost-first matches are removed, where `.` matches
/// anything but a line feed and `*?` takes the shortest run.
#[verifier::external_body]
fn remove_matches(pattern: &str, text: &str) -> (r: String)
    requires
        pattern@ == markup_pattern(),
    ensures
        r@ == remove_markup(text@),
{
    regex::Regex::new(pattern).unwrap().replace_all(text, "").into_owned()
}

proof fn lemma_digit(d: nat)
    requires
        d < 10,
    ensures
        '0' <= digit(d) <= '9',
{
    assert((d + 48) as u8 as char as u32 == d + 48);
}

proof fn lemma_decimal_digits(n: nat)
    ensures
        forall|i: int| 0 <= i < decimal(n).len() ==> '0' <= #[trigger] decimal(n)[i] <= '9',
    decreases n,
{
    if n >= 10 {
        lemma_decimal_digits(n / 10);
        lemma_digit(n % 10);
        let d = decimal(n / 10).push(digit(n % 10));
        assert(decimal(n) == d);
        assert forall|i: int| 0 <= i < d.len() implies '0' <= #[trigger] d[i] <= '9' by {
            if i < d.len() - 1 {
                assert(d[i] == decimal(n / 10)[i]);
            }
        }
    } else {
        lemma_digit(n);
    }
}

/// Ten to the power `k`.
pub open spec fn pow10(k: nat) -> nat
    decreases k,
{
    if k == 0 {
        1
    } else {
        10 * pow10((k - 1) as nat)
    }
}

proof fn lemma_decimal_len(n: nat, k: nat)
    requires
        1 <= k,
        n < pow10(k),
    ensures
        decimal(n).len() <= k,
    decreases k,
{
    if n >= 10 {
        let p = pow10((k - 1) as nat);
        assert(k >= 2) by {
            if k == 1 {
                assert(pow10(1) == 10 * pow10(0));
            }
        }
        assert(n / 10 < p) by (nonlinear_arith)
            requires
                n < 10 * p,
        ;
        lemma_decimal_len(n / 10, (k - 1) as nat);
    }
}

/// Builds the pattern that finds a mention of `id`.
fn mention_pattern(id: u64) -> (r: String)
    ensures
        r@ == mention_token(id),
        is_literal_pattern(r@),
        r@.len() <= 29,
{
    let mut p = String::from_str("CQ:at,qq=");
    proof {
        reveal_strlit("CQ:at,qq=");
        lemma_decimal_digits(id as nat);
        reveal_with_fuel(pow10, 21);
        assert(pow10(20) == 100000000000000000000nat);
        lemma_decimal_len(id as nat, 20);
    }
    push_decimal(&mut p, id);
    assert(p@ == mention_token(id));
    p
}

impl CQPostMessageMsg {
    /// Reads the markup of the message: whether its raw text mentions `bot_id`,
    /// and the message with every markup code stripped and the text trimmed.
    pub fn parse_cq_code(self, bot_id: u64) -> (r: (bool, Self))
        ensures
            r.0 == occurs_in(mention_token(bot_id), self.raw_message@),
            r.1.message@ == strip_markup(self.message@),
            r.1.post_type == self.post_type,
            r.1.message_type == self.message_type,
            r.1.time == self.time,
            r.1.self_id == self.self_id,
            r.1.user_id == self.user_id,
            r.1.raw_message == self.raw_message,
            r.1.message_id == self.message_id,
            r.1.group_id == self.group_id,
    {
        let pattern = mention_pattern(bot_id);
        let at = find_literal(pattern.as_str(), self.raw_message.as_str());
        let code = "\\[CQ:.*?\\]";
        proof {
            reveal_strlit("\\[CQ:.*?\\]");
        }
        assert(code@ =~= markup_pattern());
        let mut text = remove_matches(code, self.message.as_str());
        let mut len = text.as_str().unicode_len();
        proof {
            lemma_clear_markup_clean(self.message@);
        }
        loop
            invariant
                code@ == markup_pattern(),
                len == text@.len(),
                clear_markup(text@) == clear_markup(self.message@),
            ensures
                clear_markup(text@) == clear_markup(self.message@),
                no_markup(text@),
            decreases text@.len(),
        {
            let next = remove_matches(code, text.as_str());
            let next_len = next.as_str().unicode_len();
            proof {
                lemma_remove_markup_len(text@);
                lemma_clear_markup_clean(text@);
            }
            if next_len == len {
                break;
            }
            text = next;
            len = next_len;
        }
        assert(clear_markup(text@) == text@);
        let mut m = self;
        m.message = trim_text(text.as_str());
        (at, m)
    }
}

} // verus!
