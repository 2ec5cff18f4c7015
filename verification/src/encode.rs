//! Framing of outbound requests: builds the provider's JSON request body for
//! a chat completion, character by character, against an exact specification
//! of the produced text.

use vstd::prelude::*;

use crate::messages::{ChatMessage, MessageModel, Role, history_view};
use crate::text::push_char;

verus! {

/// JSON escape of one character: quote, backslash and the common control
/// characters get a two-character escape, everything else stands as itself.
pub open spec fn spec_escape_char(c: char) -> Seq<char> {
    if c == '"' {
        seq!['\\', '"']
    } else if c == '\\' {
        seq!['\\', '\\']
    } else if c == '\n' {
        seq!['\\', 'n']
    } else if c == '\r' {
        seq!['\\', 'r']
    } else if c == '\t' {
        seq!['\\', 't']
    } else {
        seq![c]
    }
}

/// JSON escape of a whole text.
pub open spec fn spec_escape(s: Seq<char>) -> Seq<char>
    decreases s.len(),
{
    if s.len() == 0 {
        Seq::empty()
    } else {
        spec_escape_char(s[0]) + spec_escape(s.skip(1))
    }
}

/// Appends the escape of one character.
fn push_escape_char(out: &mut String, c: char)
    ensures
        final(out)@ == old(out)@ + spec_escape_char(c),
{
    if c == '"' {
        push_char(out, '\\');
        push_char(out, '"');
    } else if c == '\\' {
        push_char(out, '\\');
        push_char(out, '\\');
    } else if c == '\n' {
        push_char(out, '\\');
        push_char(out, 'n');
    } else if c == '\r' {
        push_char(out, '\\');
        push_char(out, 'r');
    } else if c == '\t' {
        push_char(out, '\\');
        push_char(out, 't');
    } else {
        push_char(out, c);
    }
    proof {
        assert(final(out)@ =~= old(out)@ + spec_escape_char(c));
    }
}

/// Appends the escape of `s` from character `i` on.
pub(crate) fn push_escaped_from(out: &mut String, s: &str, i: usize)
    requires
        i <= s@.len(),
        s@.len() <= usize::MAX,
    ensures
        final(out)@ == old(out)@ + spec_escape(s@.skip(i as int)),
    decreases s@.len() - i,
{
    let n = s.unicode_len();
    if i < n {
        let c = s.get_char(i);
        push_escape_char(out, c);
        push_escaped_from(out, s, i + 1);
        proof {
            assert(s@.skip(i as int).skip(1) =~= s@.skip(i as int + 1));
            assert(s@.skip(i as int)[0] == s@[i as int]);
            assert(final(out)@ =~= old(out)@ + spec_escape(s@.skip(i as int)));
        }
    } else {
        proof {
            assert(s@.skip(i as int).len() == 0);
            assert(final(out)@ =~= old(out)@ + spec_escape(s@.skip(i as int)));
        }
    }
}

/// The wire name of a role.
pub open spec fn spec_role_name(r: Role) -> Seq<char> {
    match r {
        Role::System => "system"@,
        Role::User => "user"@,
        Role::Assistant => "assistant"@,
    }
}

/// The wire name of a role, as a string slice.
pub fn role_name(r: &Role) -> (s: &'static str)
    ensures
        s@ == spec_role_name(*r),
{
    match r {
        Role::System => "system",
        Role::User => "user",
        Role::Assistant => "assistant",
    }
}

/// Decimal digit character for one digit value.
pub open spec fn spec_digit_char(d: int) -> char {
    if d == 0 {
        '0'
    } else if d == 1 {
        '1'
    } else if d == 2 {
        '2'
    } else if d == 3 {
        '3'
    } else if d == 4 {
        '4'
    } else if d == 5 {
        '5'
    } else if d == 6 {
        '6'
    } else if d == 7 {
        '7'
    } else if d == 8 {
        '8'
    } else {
        '9'
    }
}

/// Decimal digit string of a non-negative integer, most significant first,
/// no leading zeros (a single zero for 0).
pub open spec fn spec_decimal(n: int) -> Seq<char>
    decreases n,
{
    if n < 10 {
        seq![spec_digit_char(n)]
    } else {
        spec_decimal(n / 10) + seq![spec_digit_char(n % 10)]
    }
}

fn digit_char(d: u32) -> (c: char)
    requires
        d < 10,
    ensures
        c == spec_digit_char(d as int),
{
    if d == 0 {
        '0'
    } else if d == 1 {
        '1'
    } else if d == 2 {
        '2'
    } else if d == 3 {
        '3'
    } else if d == 4 {
        '4'
    } else if d == 5 {
        '5'
    } else if d == 6 {
        '6'
    } else if d == 7 {
        '7'
    } else if d == 8 {
        '8'
    } else {
        '9'
    }
}

/// Appends the decimal digits of `n`.
pub(crate) fn push_decimal(out: &mut String, n: u32)
    ensures
        final(out)@ == old(out)@ + spec_decimal(n as int),
    decreases n,
{
    if n < 10 {
        push_char(out, digit_char(n));
    } else {
        push_decimal(out, n / 10);
        push_char(out, digit_char(n % 10));
        proof {
            assert(final(out)@ =~= old(out)@ + spec_decimal(n as int));
        }
    }
}

/// One message in the provider's request shape.
pub open spec fn spec_encode_message(m: MessageModel) -> Seq<char> {
    "{\"role\":\""@ + spec_role_name(m.role) + "\",\"content\":\""@ + spec_escape(m.content)
        + "\"}"@
}

/// A message list in the provider's request shape, comma separated, in order.
pub open spec fn spec_encode_messages(ms: Seq<MessageModel>) -> Seq<char>
    decreases ms.len(),
{
    if ms.len() == 0 {
        Seq::empty()
    } else if ms.len() == 1 {
        spec_encode_message(ms[0])
    } else {
        spec_encode_messages(ms.drop_last()) + ","@ + spec_encode_message(ms.last())
    }
}

/// Appends one message object.
fn push_message(out: &mut String, m: &ChatMessage)
    requires
        m.content@.len() <= usize::MAX,
    ensures
        final(out)@ == old(out)@ + spec_encode_message(m@),
{
    out.append("{\"role\":\"");
    out.append(role_name(&m.role));
    out.append("\",\"content\":\"");
    push_escaped_from(out, m.content.as_str(), 0);
    out.append("\"}");
    proof {
        assert(m.content@.skip(0) =~= m.content@);
        assert(final(out)@ =~= old(out)@ + spec_encode_message(m@));
    }
}

/// The serialized transcript of a whole history.
pub open spec fn spec_encode_history(h: Seq<ChatMessage>) -> Seq<char> {
    spec_encode_messages(history_view(h))
}

/// Appends the comma-separated message list of `msgs`.
fn push_messages(out: &mut String, msgs: &Vec<ChatMessage>)
    requires
        forall|i: int| 0 <= i < msgs@.len() ==> (#[trigger] msgs@[i]).content@.len() <= usize::MAX,
    ensures
        final(out)@ == old(out)@ + spec_encode_history(msgs@),
{
    let ghost base = out@;
    let mut i: usize = 0;
    while i < msgs.len()
        invariant
            i <= msgs@.len(),
            forall|k: int|
                0 <= k < msgs@.len() ==> (#[trigger] msgs@[k]).content@.len() <= usize::MAX,
            out@ == base + spec_encode_messages(history_view(msgs@).take(i as int)),
        decreases msgs@.len() - i,
    {
        if i > 0 {
            out.append(",");
        }
        push_message(out, &msgs[i]);
        proof {
            let hv = history_view(msgs@);
            assert(hv.take(i as int + 1).drop_last() =~= hv.take(i as int));
            assert(hv.take(i as int + 1).last() == hv[i as int]);
            assert(hv[i as int] == msgs@[i as int]@);
            if i == 0 {
                assert(spec_encode_messages(hv.take(1)) == spec_encode_message(hv[0]));
            }
            assert(out@ =~= base + spec_encode_messages(hv.take(i as int + 1)));
        }
        i += 1;
    }
    proof {
        assert(history_view(msgs@).take(msgs@.len() as int) =~= history_view(msgs@));
    }
}

/// The provider's full chat-completion request body:
/// `{"model":…,"messages":[…],"max_tokens":…}`.
pub open spec fn spec_encode_request(model: Seq<char>, msgs: Seq<ChatMessage>, max_tokens: int) -> Seq<
    char,
> {
    "{\"model\":\""@ + spec_escape(model) + "\",\"messages\":["@ + spec_encode_history(msgs)
        + "],\"max_tokens\":"@ + spec_decimal(max_tokens) + "}"@
}

/// Serializes a transcript and budget into the provider's request body.
pub fn encode_chat_request(model: &String, msgs: &Vec<ChatMessage>, max_tokens: u32) -> (r: String)
    requires
        model@.len() <= usize::MAX,
        forall|i: int| 0 <= i < msgs@.len() ==> (#[trigger] msgs@[i]).content@.len() <= usize::MAX,
    ensures
        r@ == spec_encode_request(model@, msgs@, max_tokens as int),
{
    let mut out = String::new();
    out.append("{\"model\":\"");
    push_escaped_from(&mut out, model.as_str(), 0);
    out.append("\",\"messages\":[");
    push_messages(&mut out, msgs);
    out.append("],\"max_tokens\":");
    push_decimal(&mut out, max_tokens);
    out.append("}");
    proof {
        assert(model@.skip(0) =~= model@);
        assert(out@ =~= spec_encode_request(model@, msgs@, max_tokens as int));
    }
    out
}

} // verus!
