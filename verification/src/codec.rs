//! The wire form of an envelope: one JSON object on one line.

use crate::envelope::{ChatMessage, Envelope, MessageType};
use vstd::prelude::*;

verus! {

/// The error that `serde_json` reports when it refuses a value.
#[verifier::external_type_specification]
#[verifier::external_body]
pub struct ExJsonError(serde_json::Error);

/// The lower-case hexadecimal digit for `n`, where `0 <= n < 16`.
pub open spec fn hex_digit(n: int) -> char {
    seq!['0', '1', '2', '3', '4', '5', '6', '7', '8', '9', 'a', 'b', 'c', 'd', 'e', 'f'][n]
}

/// How one character stands inside a JSON string.
pub open spec fn escape_char(c: char) -> Seq<char> {
    let n = c as u32;
    if c == '"' {
        seq!['\\', '"']
    } else if c == '\\' {
        seq!['\\', '\\']
    } else if n == 0x08 {
        seq!['\\', 'b']
    } else if n == 0x09 {
        seq!['\\', 't']
    } else if n == 0x0A {
        seq!['\\', 'n']
    } else if n == 0x0C {
        seq!['\\', 'f']
    } else if n == 0x0D {
        seq!['\\', 'r']
    } else if n < 0x20 {
        seq!['\\', 'u', '0', '0', hex_digit(n as int / 16), hex_digit(n as int % 16)]
    } else {
        seq![c]
    }
}

/// The characters of `s`, each as it stands inside a JSON string.
pub open spec fn escape(s: Seq<char>) -> Seq<char>
    decreases s.len(),
{
    if s.len() == 0 {
        Seq::empty()
    } else {
        escape(s.drop_last()) + escape_char(s.last())
    }
}

/// `s` as a JSON string: escaped, between double quotes.
pub open spec fn quote(s: Seq<char>) -> Seq<char> {
    seq!['"'] + escape(s) + seq!['"']
}

/// The JSON string that names a kind of envelope.
pub open spec fn kind_text(kind: MessageType) -> Seq<char> {
    match kind {
        MessageType::UserMessage => "\"UserMessage\""@,
        MessageType::SystemNotification => "\"SystemNotification\""@,
    }
}

/// The object whose four members are the given JSON strings, in wire order.
pub open spec fn framed(
    username: Seq<char>,
    content: Seq<char>,
    timestamp: Seq<char>,
    kind: MessageType,
) -> Seq<char> {
    "{\"username\":"@ + username + ",\"content\":"@ + content + ",\"timestamp\":"@ + timestamp
        + ",\"message_type\":"@ + kind_text(kind) + "}"@
}

/// The wire form of an envelope.
pub open spec fn wire(e: Envelope) -> Seq<char> {
    framed(quote(e.sender), quote(e.body), quote(e.sent_at), e.kind)
}

/// The member of an envelope that an encoder refused.
#[derive(Clone, Copy, Debug, PartialEq, Eq, Structural)]
pub enum EncodeError {
    Username,
    Content,
    Timestamp,
}

/// Calls `serde_json::to_string` on a string slice. It succeeds on every
/// text: a string is written as it comes, into a byte vector, and only the
/// writer could fail. The result is the text between double quotes, with `"`
/// and `\` behind a backslash, the control characters below U+0020 as `\b`,
/// `\t`, `\n`, `\f`, `\r` or `\u00xx`, and every other character as it is.
#[verifier::external_body]
fn json_string(s: &str) -> (r: Result<String, serde_json::Error>)
    ensures
        r is Ok,
        r matches Ok(t) ==> t@ == quote(s@),
{
    serde_json::to_string(s)
}

/// Puts four JSON strings into the object that goes on the wire.
pub fn frame(username: &str, content: &str, timestamp: &str, kind: MessageType) -> (out: String)
    ensures
        out@ == framed(username@, content@, timestamp@, kind),
{
    let mut out = String::from_str("{\"username\":");
    out.append(username);
    out.append(",\"content\":");
    out.append(content);
    out.append(",\"timestamp\":");
    out.append(timestamp);
    out.append(",\"message_type\":");
    match kind {
        MessageType::UserMessage => out.append("\"UserMessage\""),
        MessageType::SystemNotification => out.append("\"SystemNotification\""),
    }
    out.append("}");
    out
}

/// Frames the three members as the encoder returned them. The first member
/// that it refused, in wire order, is the error; with none refused the result
/// is the framed object.
pub fn seal(
    username: Result<String, serde_json::Error>,
    content: Result<String, serde_json::Error>,
    timestamp: Result<String, serde_json::Error>,
    kind: MessageType,
) -> (r: Result<String, EncodeError>)
    ensures
        username is Err ==> r == Err::<String, EncodeError>(EncodeError::Username),
        username is Ok && content is Err ==> r == Err::<String, EncodeError>(EncodeError::Content),
        username is Ok && content is Ok && timestamp is Err ==> r == Err::<String, EncodeError>(
            EncodeError::Timestamp,
        ),
        username is Ok && content is Ok && timestamp is Ok ==> r is Ok && r->Ok_0@ == framed(
            username->Ok_0@,
            content->Ok_0@,
            timestamp->Ok_0@,
            kind,
        ),
{
    let u = match username {
        Ok(u) => u,
        Err(_) => {
            return Err(EncodeError::Username);
        },
    };
    let c = match content {
        Ok(c) => c,
        Err(_) => {
            return Err(EncodeError::Content);
        },
    };
    let t = match timestamp {
        Ok(t) => t,
        Err(_) => {
            return Err(EncodeError::Timestamp);
        },
    };
    Ok(frame(u.as_str(), c.as_str(), t.as_str(), kind))
}

/// The wire form of `m`. The encoder refuses no text, so there always is
/// one.
pub fn encode(m: &ChatMessage) -> (r: Result<String, EncodeError>)
    ensures
        r is Ok,
        r matches Ok(t) ==> t@ == wire(m@),
{
    let username = json_string(m.username.as_str());
    let content = json_string(m.content.as_str());
    let timestamp = json_string(m.timestamp.as_str());
    seal(username, content, timestamp, m.message_type)
}

/// Whether `s` holds no control character below U+0020, and so no line feed.
pub open spec fn printable(s: Seq<char>) -> bool {
    forall|i: int| 0 <= i < s.len() ==> (#[trigger] s[i]) as u32 >= 0x20
}

/// Two texts without control characters make one without them.
pub proof fn lemma_printable_concat(a: Seq<char>, b: Seq<char>)
    requires
        printable(a),
        printable(b),
    ensures
        printable(a + b),
{
    assert forall|i: int| 0 <= i < (a + b).len() implies (#[trigger] (a + b)[i]) as u32
        >= 0x20 by {
        if i < a.len() {
            assert((a + b)[i] == a[i]);
        } else {
            assert((a + b)[i] == b[i - a.len()]);
        }
    }
}

/// Escaping leaves no control character behind.
pub proof fn lemma_escape_printable(s: Seq<char>)
    ensures
        printable(escape(s)),
    decreases s.len(),
{
    if s.len() > 0 {
        lemma_escape_printable(s.drop_last());
        let c = s.last();
        let n = c as u32;
        if n < 0x20 {
            assert(0 <= n as int / 16 < 2);
            assert(0 <= n as int % 16 < 16);
        }
        assert(printable(escape_char(c)));
        lemma_printable_concat(escape(s.drop_last()), escape_char(c));
    }
}

/// A JSON string holds no control character.
pub proof fn lemma_quote_printable(s: Seq<char>)
    ensures
        printable(quote(s)),
{
    lemma_escape_printable(s);
    lemma_printable_concat(seq!['"'], escape(s));
    lemma_printable_concat(seq!['"'] + escape(s), seq!['"']);
}

/// The wire form is one line. Whatever an envelope holds, line feeds and
/// other control characters included, its wire form holds none: a payload
/// followed by a line feed is exactly one line.
pub proof fn lemma_wire_single_line(e: Envelope)
    ensures
        printable(wire(e)),
        forall|i: int| 0 <= i < wire(e).len() ==> wire(e)[i] != '\n',
{
    reveal_strlit("{\"username\":");
    reveal_strlit(",\"content\":");
    reveal_strlit(",\"timestamp\":");
    reveal_strlit(",\"message_type\":");
    reveal_strlit("\"UserMessage\"");
    reveal_strlit("\"SystemNotification\"");
    reveal_strlit("}");
    lemma_quote_printable(e.sender);
    lemma_quote_printable(e.body);
    lemma_quote_printable(e.sent_at);
    let a = "{\"username\":"@ + quote(e.sender);
    lemma_printable_concat("{\"username\":"@, quote(e.sender));
    let b = a + ",\"content\":"@;
    lemma_printable_concat(a, ",\"content\":"@);
    let c = b + quote(e.body);
    lemma_printable_concat(b, quote(e.body));
    let d = c + ",\"timestamp\":"@;
    lemma_printable_concat(c, ",\"timestamp\":"@);
    let f = d + quote(e.sent_at);
    lemma_printable_concat(d, quote(e.sent_at));
    let g = f + ",\"message_type\":"@;
    lemma_printable_concat(f, ",\"message_type\":"@);
    let h = g + kind_text(e.kind);
    lemma_printable_concat(g, kind_text(e.kind));
    lemma_printable_concat(h, "}"@);
    assert(wire(e) == h + "}"@);
    assert forall|i: int| 0 <= i < wire(e).len() implies wire(e)[i] != '\n' by {
        assert(wire(e)[i] as u32 >= 0x20);
    }
}

/// Escaping a text is escaping its parts.
pub proof fn lemma_escape_concat(a: Seq<char>, b: Seq<char>)
    ensures
        escape(a + b) == escape(a) + escape(b),
    decreases b.len(),
{
    if b.len() == 0 {
        assert(a + b =~= a);
        assert(escape(a) + escape(b) =~= escape(a));
    } else {
        assert((a + b).drop_last() =~= a + b.drop_last());
        lemma_escape_concat(a, b.drop_last());
        assert(escape(a + b) =~= escape(a) + escape(b));
    }
}

/// Escaping a text is escaping its first character and then the rest.
pub proof fn lemma_escape_front(s: Seq<char>)
    requires
        s.len() > 0,
    ensures
        escape(s) == escape_char(s.first()) + escape(s.drop_first()),
{
    let head = seq![s.first()];
    assert(s =~= head + s.drop_first());
    lemma_escape_concat(head, s.drop_first());
    assert(head.drop_last() =~= Seq::<char>::empty());
    assert(escape(head.drop_last()) =~= Seq::<char>::empty());
    assert(head.last() == s.first());
    assert(escape(head) =~= escape_char(s.first()));
}

/// What follows a common beginning is equal when the wholes are.
pub proof fn lemma_cancel_prefix(p: Seq<char>, x: Seq<char>, y: Seq<char>)
    requires
        p + x == p + y,
    ensures
        x == y,
{
    assert(x =~= (p + x).subrange(p.len() as int, (p + x).len() as int));
    assert(y =~= (p + y).subrange(p.len() as int, (p + y).len() as int));
}

/// No escape begins another: where two escapes, each followed by some text,
/// make the same text, the characters are the same and so is what follows.
pub proof fn lemma_escape_char_unique(c: char, x: Seq<char>, d: char, y: Seq<char>)
    requires
        escape_char(c) + x == escape_char(d) + y,
    ensures
        c == d,
        x == y,
{
    let s = escape_char(c) + x;
    let ec = escape_char(c);
    let ed = escape_char(d);
    assert(s[0] == ec[0] && s[0] == ed[0]);
    if ec[0] == '\\' {
        assert(ed.len() >= 2 && ec.len() >= 2);
        assert(s[1] == ec[1] && s[1] == ed[1]);
        if ec[1] == 'u' {
            let n = c as u32 as int;
            let m = d as u32 as int;
            assert(ec.len() == 6 && ed.len() == 6);
            assert(s[4] == ec[4] && s[4] == ed[4]);
            assert(s[5] == ec[5] && s[5] == ed[5]);
            assert(0 <= n / 16 < 2 && 0 <= n % 16 < 16);
            assert(0 <= m / 16 < 2 && 0 <= m % 16 < 16);
            assert(hex_digit(n / 16) == hex_digit(m / 16));
            assert(hex_digit(n % 16) == hex_digit(m % 16));
            assert(n / 16 == m / 16);
            assert(n % 16 == m % 16);
            assert(n == m);
        }
    }
    assert(c as u32 == d as u32);
    assert(c == d);
    lemma_cancel_prefix(ec, x, y);
}

/// The closing quote ends an escaped text unmistakably: where two escaped
/// texts, each followed by a double quote and some text, make the same text,
/// the texts are the same and so is what follows.
pub proof fn lemma_escape_unique(a: Seq<char>, x: Seq<char>, b: Seq<char>, y: Seq<char>)
    requires
        escape(a) + seq!['"'] + x == escape(b) + seq!['"'] + y,
    ensures
        a == b,
        x == y,
    decreases a.len(),
{
    let s = escape(a) + seq!['"'] + x;
    let t = escape(b) + seq!['"'] + y;
    if a.len() == 0 && b.len() == 0 {
        assert(escape(a) + seq!['"'] =~= seq!['"']);
        assert(escape(b) + seq!['"'] =~= seq!['"']);
        lemma_cancel_prefix(seq!['"'], x, y);
        assert(a =~= b);
    } else if a.len() == 0 {
        lemma_escape_front(b);
        assert(s[0] == '"');
        assert(t[0] == escape_char(b.first())[0]);
    } else if b.len() == 0 {
        lemma_escape_front(a);
        assert(t[0] == '"');
        assert(s[0] == escape_char(a.first())[0]);
    } else {
        lemma_escape_front(a);
        lemma_escape_front(b);
        let ra = escape(a.drop_first()) + seq!['"'] + x;
        let rb = escape(b.drop_first()) + seq!['"'] + y;
        assert(s =~= escape_char(a.first()) + ra);
        assert(t =~= escape_char(b.first()) + rb);
        lemma_escape_char_unique(a.first(), ra, b.first(), rb);
        lemma_escape_unique(a.drop_first(), x, b.drop_first(), y);
        assert(a =~= seq![a.first()] + a.drop_first());
        assert(b =~= seq![b.first()] + b.drop_first());
    }
}

/// A JSON string is read back in one way only: where two of them, each
/// followed by some text, make the same text, they quote the same text and
/// are followed by the same.
pub proof fn lemma_quote_unique(a: Seq<char>, x: Seq<char>, b: Seq<char>, y: Seq<char>)
    requires
        quote(a) + x == quote(b) + y,
    ensures
        a == b,
        x == y,
{
    let open = seq!['"'];
    assert(quote(a) + x =~= open + (escape(a) + seq!['"'] + x));
    assert(quote(b) + y =~= open + (escape(b) + seq!['"'] + y));
    lemma_cancel_prefix(open, escape(a) + seq!['"'] + x, escape(b) + seq!['"'] + y);
    lemma_escape_unique(a, x, b, y);
}

/// Joining texts does not depend on how they are grouped.
pub proof fn lemma_concat_assoc(a: Seq<char>, b: Seq<char>, c: Seq<char>)
    ensures
        (a + b) + c == a + (b + c),
{
    assert((a + b) + c =~= a + (b + c));
}

/// The framed object, read from the front: each member is followed by the
/// whole rest.
pub proof fn lemma_framed_from_front(
    username: Seq<char>,
    content: Seq<char>,
    timestamp: Seq<char>,
    kind: MessageType,
)
    ensures
        framed(username, content, timestamp, kind) == "{\"username\":"@ + (username + (
            ",\"content\":"@ + (content + (",\"timestamp\":"@ + (timestamp + (
                ",\"message_type\":"@ + (kind_text(kind) + "}"@)
            ))))
        )),
{
    let l0 = "{\"username\":"@;
    let l1 = ",\"content\":"@;
    let l2 = ",\"timestamp\":"@;
    let l3 = ",\"message_type\":"@;
    let p1 = l0 + username;
    let p2 = p1 + l1;
    let p3 = p2 + content;
    let p4 = p3 + l2;
    let p5 = p4 + timestamp;
    let p6 = p5 + l3;
    let r7 = kind_text(kind) + "}"@;
    let r6 = l3 + r7;
    let r5 = timestamp + r6;
    let r4 = l2 + r5;
    let r3 = content + r4;
    let r2 = l1 + r3;
    let r1 = username + r2;
    lemma_concat_assoc(p6, kind_text(kind), "}"@);
    lemma_concat_assoc(p5, l3, r7);
    lemma_concat_assoc(p4, timestamp, r6);
    lemma_concat_assoc(p3, l2, r5);
    lemma_concat_assoc(p2, content, r4);
    lemma_concat_assoc(p1, l1, r3);
    lemma_concat_assoc(l0, username, r2);
}

/// Envelopes are told apart on the wire: two envelopes with the same wire
/// form are the same envelope.
pub proof fn lemma_wire_unique(e1: Envelope, e2: Envelope)
    requires
        wire(e1) == wire(e2),
    ensures
        e1 == e2,
{
    let l0 = "{\"username\":"@;
    let l1 = ",\"content\":"@;
    let l2 = ",\"timestamp\":"@;
    let l3 = ",\"message_type\":"@;
    let k1 = kind_text(e1.kind) + "}"@;
    let k2 = kind_text(e2.kind) + "}"@;
    let c1 = quote(e1.sent_at) + (l3 + k1);
    let c2 = quote(e2.sent_at) + (l3 + k2);
    let b1 = quote(e1.body) + (l2 + c1);
    let b2 = quote(e2.body) + (l2 + c2);
    let a1 = quote(e1.sender) + (l1 + b1);
    let a2 = quote(e2.sender) + (l1 + b2);
    lemma_framed_from_front(quote(e1.sender), quote(e1.body), quote(e1.sent_at), e1.kind);
    lemma_framed_from_front(quote(e2.sender), quote(e2.body), quote(e2.sent_at), e2.kind);
    lemma_cancel_prefix(l0, a1, a2);
    lemma_quote_unique(e1.sender, l1 + b1, e2.sender, l1 + b2);
    lemma_cancel_prefix(l1, b1, b2);
    lemma_quote_unique(e1.body, l2 + c1, e2.body, l2 + c2);
    lemma_cancel_prefix(l2, c1, c2);
    lemma_quote_unique(e1.sent_at, l3 + k1, e2.sent_at, l3 + k2);
    lemma_cancel_prefix(l3, k1, k2);
    assert(e1.kind == e2.kind) by {
        reveal_strlit("\"UserMessage\"");
        reveal_strlit("\"SystemNotification\"");
        assert(k1.len() == k2.len());
    }
}

} // verus!
