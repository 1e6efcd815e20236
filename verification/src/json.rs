//! The outbound control-channel text grammar: a JSON object holding the
//! method tag and the list of topic strings. Serialization is total — the
//! escaper handles every character — so building a frame cannot fail.

use vstd::prelude::*;
use crate::subscription::{method_tag, MexcWsSub};
use crate::text::{chars_to_string, digit_char, str_to_chars};

verus! {

/// The lowercase hexadecimal digit character for a value below 16.
pub open spec fn hex_digit_char(d: nat) -> char {
    if d < 10 {
        digit_char(d)
    } else if d == 10 {
        'a'
    } else if d == 11 {
        'b'
    } else if d == 12 {
        'c'
    } else if d == 13 {
        'd'
    } else if d == 14 {
        'e'
    } else {
        'f'
    }
}

/// How one character appears inside a JSON string literal: quotes and
/// backslashes are escaped, control characters take the six-character
/// `\u00XX` form, and everything else stands as itself.
pub open spec fn escape_char(c: char) -> Seq<char> {
    if c == '"' {
        seq!['\\', '"']
    } else if c == '\\' {
        seq!['\\', '\\']
    } else if (c as u32) < 32 {
        seq!['\\', 'u', '0', '0', hex_digit_char((c as u32 / 16) as nat), hex_digit_char(
            (c as u32 % 16) as nat,
        )]
    } else {
        seq![c]
    }
}

/// A character sequence escaped for a JSON string literal.
pub open spec fn escape_str(s: Seq<char>) -> Seq<char>
    decreases s.len(),
{
    if s.len() == 0 {
        Seq::empty()
    } else {
        escape_str(s.drop_last()) + escape_char(s.last())
    }
}

/// A topic string as a JSON string literal, quotes included.
pub open spec fn quoted(s: Seq<char>) -> Seq<char> {
    seq!['"'] + escape_str(s) + seq!['"']
}

/// The topic list as the contents of a JSON array: each topic quoted,
/// separated by commas.
pub open spec fn joined_topics(ts: Seq<Seq<char>>) -> Seq<char>
    decreases ts.len(),
{
    if ts.len() == 0 {
        Seq::empty()
    } else if ts.len() == 1 {
        quoted(ts[0])
    } else {
        joined_topics(ts.drop_last()) + seq![','] + quoted(ts.last())
    }
}

/// The complete outbound control frame: the method tag (a fixed token,
/// inserted verbatim) and the topic list. The whole control grammar of
/// the venue, in one definition.
pub open spec fn subscription_frame(method: Seq<char>, ts: Seq<Seq<char>>) -> Seq<char> {
    "{\"method\":\""@ + method + "\",\"params\":["@ + joined_topics(ts) + "]}"@
}

proof fn lemma_escape_str_push(s: Seq<char>, c: char)
    ensures
        escape_str(s.push(c)) == escape_str(s) + escape_char(c),
{
    assert(s.push(c).drop_last() =~= s);
    assert(s.push(c).last() == c);
}

proof fn lemma_joined_topics_push(ts: Seq<Seq<char>>, t: Seq<char>)
    ensures
        ts.len() == 0 ==> joined_topics(ts.push(t)) == quoted(t),
        ts.len() > 0 ==> joined_topics(ts.push(t)) == joined_topics(ts) + seq![','] + quoted(t),
{
    assert(ts.push(t).drop_last() =~= ts);
    assert(ts.push(t).last() == t);
}

fn hex_char(d: u32) -> (c: char)
    requires
        d < 16,
    ensures
        c == hex_digit_char(d as nat),
{
    if d < 10 {
        (48u8 + (d as u8)) as char
    } else {
        (87u8 + (d as u8)) as char
    }
}

/// Appends the escaped form of one string to the frame under construction.
fn escape_into(out: &mut Vec<char>, s: &str)
    ensures
        final(out)@ == old(out)@ + escape_str(s@),
{
    let cs = str_to_chars(s);
    let n = cs.len();
    let mut i: usize = 0;
    proof {
        assert(out@ + escape_str(s@.take(0)) =~= out@);
    }
    let ghost out0 = out@;
    while i < n
        invariant
            n == cs@.len(),
            cs@ == s@,
            i <= n,
            out@ == out0 + escape_str(s@.take(i as int)),
        decreases n - i,
    {
        let ghost sofar = s@.take(i as int);
        let c = cs[i];
        if c == '"' {
            out.push('\\');
            out.push('"');
        } else if c == '\\' {
            out.push('\\');
            out.push('\\');
        } else if (c as u32) < 32 {
            let code = c as u32;
            out.push('\\');
            out.push('u');
            out.push('0');
            out.push('0');
            out.push(hex_char(code / 16));
            out.push(hex_char(code % 16));
        } else {
            out.push(c);
        }
        i = i + 1;
        proof {
            assert(s@.take(i as int) =~= sofar.push(c));
            lemma_escape_str_push(sofar, c);
            assert(out@ =~= out0 + escape_str(s@.take(i as int)));
        }
    }
    proof {
        assert(s@.take(n as int) =~= s@);
    }
}

/// Serializes a control message into the control-channel text grammar.
/// Total: every message yields exactly one frame text, so a request is
/// never discarded for want of serialization.
pub fn serialize_subscription(msg: &MexcWsSub) -> (r: String)
    ensures
        r@ == subscription_frame(method_tag(msg.method), msg.params.deep_view()),
{
    let mut out: Vec<char> = str_to_chars("{\"method\":\"");
    let mut tag = str_to_chars(msg.method.as_wire_str());
    out.append(&mut tag);
    let mut mid = str_to_chars("\",\"params\":[");
    out.append(&mut mid);
    let ghost head = out@;
    proof {
        assert(head =~= "{\"method\":\""@ + method_tag(msg.method) + "\",\"params\":["@);
    }
    let topics = &msg.params;
    let ghost views = topics.deep_view();
    let n = topics.len();
    let mut i: usize = 0;
    proof {
        assert(head + joined_topics(views.take(0)) =~= head);
    }
    while i < n
        invariant
            n == topics@.len(),
            views == topics.deep_view(),
            views.len() == n,
            forall|k: int| 0 <= k < n ==> views[k] == #[trigger] topics@[k]@,
            i <= n,
            out@ == head + joined_topics(views.take(i as int)),
        decreases n - i,
    {
        let ghost sofar = views.take(i as int);
        if i > 0 {
            out.push(',');
        }
        out.push('"');
        escape_into(&mut out, topics[i].as_str());
        out.push('"');
        i = i + 1;
        proof {
            assert(views.take(i as int) =~= sofar.push(views[i - 1]));
            lemma_joined_topics_push(sofar, views[i - 1]);
            assert(out@ =~= head + joined_topics(views.take(i as int)));
        }
    }
    out.push(']');
    out.push('}');
    proof {
        reveal_strlit("]}");
        assert(views.take(n as int) =~= views);
        assert(out@ =~= subscription_frame(method_tag(msg.method), views));
    }
    chars_to_string(&out)
}

} // verus!
