//! Verified framing of the wire messages: a snapshot, and the envelope that
//! carries it over a session, rendered as JSON text.  Field order, escaping
//! and number formatting are all pinned here; the receiving side may parse
//! with whatever it likes.

use vstd::prelude::*;

use crate::image_info::{dec_digits_of, spec_dec_digits};
use crate::relay::MessageKind;
use crate::snapshot::{ClipboardData, ContentType, SnapView};

verus! {

/// Whether a character cannot stand as itself inside a JSON string.
pub open spec fn needs_escape(c: char) -> bool {
    c == '"' || c == '\\' || (c as u32) < 32
}

/// The lower-case hexadecimal digit for one value below sixteen.
pub open spec fn hex_char(d: int) -> char {
    if d == 0 {
        '0'
    } else if d == 1 {
        '1'
    } else if d == 2 {
        '2'
    } else if d == 3 {
        '3'
    } else if d == 4 {
        '4'
    } else if d == 5 {
        '5'
    } else if d == 6 {
        '6'
    } else if d == 7 {
        '7'
    } else if d == 8 {
        '8'
    } else if d == 9 {
        '9'
    } else if d == 10 {
        'a'
    } else if d == 11 {
        'b'
    } else if d == 12 {
        'c'
    } else if d == 13 {
        'd'
    } else if d == 14 {
        'e'
    } else {
        'f'
    }
}

/// How one character appears inside a JSON string: itself, a two-character
/// escape, or a `\u00xx` escape for the remaining control characters.
pub open spec fn json_escape_char(c: char) -> Seq<char> {
    let u = c as u32;
    if c == '"' {
        "\\\""@
    } else if c == '\\' {
        "\\\\"@
    } else if u == 10 {
        "\\n"@
    } else if u == 13 {
        "\\r"@
    } else if u == 9 {
        "\\t"@
    } else if u < 32 {
        "\\u00"@ + seq![hex_char((u / 16) as int), hex_char((u % 16) as int)]
    } else {
        seq![c]
    }
}

/// A whole text as it appears inside a JSON string.
pub open spec fn json_escape(s: Seq<char>) -> Seq<char>
    decreases s.len(),
{
    if s.len() == 0 {
        Seq::<char>::empty()
    } else {
        json_escape_char(s[0]) + json_escape(s.drop_first())
    }
}

/// A JSON string literal: the escaped text between quotes.
pub open spec fn json_string_of(s: Seq<char>) -> Seq<char> {
    "\""@ + json_escape(s) + "\""@
}

/// An optional text: `null`, or the JSON string.
pub open spec fn json_opt_string(o: Option<Seq<char>>) -> Seq<char> {
    match o {
        None => "null"@,
        Some(s) => json_string_of(s),
    }
}

/// The JSON name of a content type.
pub open spec fn content_type_json(t: ContentType) -> Seq<char> {
    match t {
        ContentType::Text => "\"text\""@,
        ContentType::Html => "\"html\""@,
        ContentType::Rtf => "\"rtf\""@,
        ContentType::Image => "\"image\""@,
        ContentType::Mixed => "\"mixed\""@,
    }
}

/// The JSON object of a snapshot, fields in this fixed order.
pub open spec fn json_snapshot(v: SnapView) -> Seq<char> {
    "{\"content\":"@ + json_string_of(v.content) + ",\"html\":"@ + json_opt_string(v.html)
        + ",\"rtf\":"@ + json_opt_string(v.rtf) + ",\"image\":"@ + json_opt_string(v.image)
        + ",\"content_type\":"@ + content_type_json(v.content_type) + ",\"timestamp\":"@
        + spec_dec_digits(v.timestamp as nat) + "}"@
}

/// The JSON name of an envelope kind.
pub open spec fn kind_json(k: MessageKind) -> Seq<char> {
    match k {
        MessageKind::ClipboardUpdate => "\"clipboard_update\""@,
        MessageKind::ClipboardSet => "\"clipboard_set\""@,
    }
}

/// The envelope carrying a snapshot over a session.
pub open spec fn json_message(k: MessageKind, v: SnapView) -> Seq<char> {
    "{\"type\":"@ + kind_json(k) + ",\"data\":"@ + json_snapshot(v) + "}"@
}

proof fn lemma_escape_concat(a: Seq<char>, b: Seq<char>)
    ensures
        json_escape(a + b) == json_escape(a) + json_escape(b),
    decreases a.len(),
{
    if a.len() == 0 {
        assert(a + b =~= b);
        assert(Seq::<char>::empty() + json_escape(b) =~= json_escape(b));
    } else {
        assert((a + b)[0] == a[0]);
        assert((a + b).drop_first() =~= a.drop_first() + b);
        lemma_escape_concat(a.drop_first(), b);
        assert(json_escape_char(a[0]) + (json_escape(a.drop_first()) + json_escape(b))
            =~= (json_escape_char(a[0]) + json_escape(a.drop_first())) + json_escape(b));
    }
}

proof fn lemma_escape_plain(a: Seq<char>)
    requires
        forall|j: int| 0 <= j < a.len() ==> !needs_escape(a[j]),
    ensures
        json_escape(a) == a,
    decreases a.len(),
{
    if a.len() > 0 {
        assert(!needs_escape(a[0]));
        assert(json_escape_char(a[0]) == seq![a[0]]);
        lemma_escape_plain(a.drop_first());
        assert(seq![a[0]] + a.drop_first() =~= a);
    }
}

/// Runtime check for [`needs_escape`].
fn needs_escape_char(c: char) -> (r: bool)
    ensures
        r == needs_escape(c),
{
    c == '"' || c == '\\' || (c as u32) < 32
}

/// The lower-case hexadecimal digit for a value below sixteen.
fn hex_str(d: u32) -> (r: &'static str)
    requires
        d < 16,
    ensures
        r@ == seq![hex_char(d as int)],
{
    proof {
        reveal_strlit("0");
        reveal_strlit("1");
        reveal_strlit("2");
        reveal_strlit("3");
        reveal_strlit("4");
        reveal_strlit("5");
        reveal_strlit("6");
        reveal_strlit("7");
        reveal_strlit("8");
        reveal_strlit("9");
        reveal_strlit("a");
        reveal_strlit("b");
        reveal_strlit("c");
        reveal_strlit("d");
        reveal_strlit("e");
        reveal_strlit("f");
    }
    let r: &'static str = match d {
        0 => "0",
        1 => "1",
        2 => "2",
        3 => "3",
        4 => "4",
        5 => "5",
        6 => "6",
        7 => "7",
        8 => "8",
        9 => "9",
        10 => "a",
        11 => "b",
        12 => "c",
        13 => "d",
        14 => "e",
        _ => "f",
    };
    proof {
        assert(r@ =~= seq![hex_char(d as int)]);
    }
    r
}

fn append_escape_of(out: &mut String, c: char)
    requires
        needs_escape(c),
    ensures
        final(out)@ == old(out)@ + json_escape_char(c),
{
    let u = c as u32;
    if c == '"' {
        out.append("\\\"");
    } else if c == '\\' {
        out.append("\\\\");
    } else if u == 10 {
        out.append("\\n");
    } else if u == 13 {
        out.append("\\r");
    } else if u == 9 {
        out.append("\\t");
    } else {
        out.append("\\u00");
        out.append(hex_str(u / 16));
        out.append(hex_str(u % 16));
        proof {
            assert(old(out)@ + "\\u00"@ + seq![hex_char((u / 16) as int)] + seq![
                hex_char((u % 16) as int),
            ] =~= old(out)@ + ("\\u00"@ + seq![
                hex_char((u / 16) as int),
                hex_char((u % 16) as int),
            ]));
        }
    }
}

/// Appends `s` to `out` as it appears inside a JSON string.
fn append_json_escaped(out: &mut String, s: &str)
    ensures
        final(out)@ == old(out)@ + json_escape(s@),
{
    let n = s.unicode_len();
    let mut i: usize = 0;
    let mut run: usize = 0;
    while i < n
        invariant
            run <= i <= n,
            n == s@.len(),
            out@ == old(out)@ + json_escape(s@.subrange(0, run as int)),
            forall|j: int| run <= j < i ==> !needs_escape(s@[j]),
        decreases n - i,
    {
        let c = s.get_char(i);
        if needs_escape_char(c) {
            out.append(s.substring_char(run, i));
            proof {
                lemma_escape_plain(s@.subrange(run as int, i as int));
                lemma_escape_concat(s@.subrange(0, run as int), s@.subrange(run as int, i as int));
                assert(s@.subrange(0, run as int) + s@.subrange(run as int, i as int)
                    =~= s@.subrange(0, i as int));
                assert((old(out)@ + json_escape(s@.subrange(0, run as int))) + s@.subrange(
                    run as int,
                    i as int,
                ) =~= old(out)@ + json_escape(s@.subrange(0, i as int)));
            }
            append_escape_of(out, c);
            proof {
                lemma_escape_concat(s@.subrange(0, i as int), seq![s@[i as int]]);
                assert(s@.subrange(0, i as int) + seq![s@[i as int]] =~= s@.subrange(
                    0,
                    i as int + 1,
                ));
                assert(seq![s@[i as int]][0] == s@[i as int]);
                assert(seq![s@[i as int]].drop_first() =~= Seq::<char>::empty());
                assert(json_escape(seq![s@[i as int]]) == json_escape_char(s@[i as int])
                    + json_escape(Seq::<char>::empty()));
                assert(json_escape_char(s@[i as int]) + json_escape(Seq::<char>::empty())
                    =~= json_escape_char(s@[i as int]));
                assert((old(out)@ + json_escape(s@.subrange(0, i as int))) + json_escape_char(
                    s@[i as int],
                ) =~= old(out)@ + json_escape(s@.subrange(0, i as int + 1)));
            }
            i += 1;
            run = i;
        } else {
            i += 1;
        }
    }
    out.append(s.substring_char(run, n));
    proof {
        lemma_escape_plain(s@.subrange(run as int, n as int));
        lemma_escape_concat(s@.subrange(0, run as int), s@.subrange(run as int, n as int));
        assert(s@.subrange(0, run as int) + s@.subrange(run as int, n as int) =~= s@);
        assert((old(out)@ + json_escape(s@.subrange(0, run as int))) + s@.subrange(
            run as int,
            n as int,
        ) =~= old(out)@ + json_escape(s@));
    }
}

fn append_json_string(out: &mut String, s: &str)
    ensures
        final(out)@ == old(out)@ + json_string_of(s@),
{
    out.append("\"");
    append_json_escaped(out, s);
    out.append("\"");
    proof {
        assert(((old(out)@ + "\""@) + json_escape(s@)) + "\""@ =~= old(out)@ + ("\""@
            + json_escape(s@) + "\""@));
    }
}

fn append_json_opt(out: &mut String, o: &Option<String>)
    ensures
        final(out)@ == old(out)@ + json_opt_string(
            match *o {
                Some(ref s) => Some(s@),
                None => None,
            },
        ),
{
    match o {
        None => out.append("null"),
        Some(s) => append_json_string(out, s.as_str()),
    }
}

fn content_type_json_str(t: ContentType) -> (r: &'static str)
    ensures
        r@ == content_type_json(t),
{
    match t {
        ContentType::Text => "\"text\"",
        ContentType::Html => "\"html\"",
        ContentType::Rtf => "\"rtf\"",
        ContentType::Image => "\"image\"",
        ContentType::Mixed => "\"mixed\"",
    }
}

/// Renders a snapshot as the JSON object the endpoints exchange.
pub fn json_of_snapshot(data: &ClipboardData) -> (r: String)
    ensures
        r@ == json_snapshot(data@),
{
    let mut out = String::from_str("{\"content\":");
    append_json_string(&mut out, data.content.as_str());
    out.append(",\"html\":");
    append_json_opt(&mut out, &data.html);
    out.append(",\"rtf\":");
    append_json_opt(&mut out, &data.rtf);
    out.append(",\"image\":");
    append_json_opt(&mut out, &data.image);
    out.append(",\"content_type\":");
    out.append(content_type_json_str(data.content_type));
    out.append(",\"timestamp\":");
    let ts = dec_digits_of(data.timestamp);
    out.append(ts.as_str());
    out.append("}");
    proof {
        assert(out@ =~= json_snapshot(data@));
    }
    out
}

fn kind_json_str(k: MessageKind) -> (r: &'static str)
    ensures
        r@ == kind_json(k),
{
    match k {
        MessageKind::ClipboardUpdate => "\"clipboard_update\"",
        MessageKind::ClipboardSet => "\"clipboard_set\"",
    }
}

/// Renders the envelope that carries a snapshot over a session.
pub fn json_of_message(kind: MessageKind, data: &ClipboardData) -> (r: String)
    ensures
        r@ == json_message(kind, data@),
{
    let mut out = String::from_str("{\"type\":");
    out.append(kind_json_str(kind));
    out.append(",\"data\":");
    let body = json_of_snapshot(data);
    out.append(body.as_str());
    out.append("}");
    proof {
        assert(out@ =~= json_message(kind, data@));
    }
    out
}

} // verus!
