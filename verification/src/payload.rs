//! The record formatter: the extracted record as a structured notification
//! payload — a header block with the title, a divider, a section block with
//! the text — and the reading back of a payload of that shape.
use crate::dom::append_str;
use crate::dom::push_char;
use crate::extract::ItemRecord;
use vstd::prelude::*;
use vstd::string::StrSliceExecFns;

verus! {

/// One block of the notification payload.
pub enum Block {
    Header(String),
    Divider,
    Section(String),
}

/// The structured notification payload, three ordered blocks.
pub struct Payload {
    pub blocks: Vec<Block>,
}

/// What reading a payload back yields: the (title, text) pair when the
/// blocks have exactly the formatted shape, and nothing otherwise.
pub open spec fn spec_parse_payload(blocks: Seq<Block>) -> Option<(Seq<char>, Seq<char>)> {
    if blocks.len() == 3 {
        match (blocks[0], blocks[1], blocks[2]) {
            (Block::Header(t), Block::Divider, Block::Section(x)) => Some((t@, x@)),
            _ => None,
        }
    } else {
        None
    }
}

/// Formats the record into the structured payload: a header block carrying
/// the title verbatim, a divider, and a section block carrying the text
/// verbatim, with embedded newlines preserved.
pub fn format_record(record: &ItemRecord) -> (p: Payload)
    ensures
        p.blocks@.len() == 3,
        p.blocks@[0] matches Block::Header(t) && t@ == record.title@,
        p.blocks@[1] is Divider,
        p.blocks@[2] matches Block::Section(x) && x@ == record.text@,
        spec_parse_payload(p.blocks@) == Some((record.title@, record.text@)),
{
    let mut blocks: Vec<Block> = Vec::new();
    blocks.push(Block::Header(record.title.clone()));
    blocks.push(Block::Divider);
    blocks.push(Block::Section(record.text.clone()));
    Payload { blocks }
}

/// Reads the record back from a payload: the title and text of a payload of
/// the formatted shape, and nothing for any other shape.
pub fn parse_payload(p: &Payload) -> (r: Option<ItemRecord>)
    ensures
        match r {
            Some(rec) => spec_parse_payload(p.blocks@) == Some((rec.title@, rec.text@)),
            None => spec_parse_payload(p.blocks@) is None,
        },
{
    if p.blocks.len() == 3 {
        match (&p.blocks[0], &p.blocks[1], &p.blocks[2]) {
            (Block::Header(t), Block::Divider, Block::Section(x)) => Some(
                ItemRecord { title: t.clone(), text: x.clone() },
            ),
            _ => None,
        }
    } else {
        None
    }
}

/// Law: formatting then parsing the payload recovers the title and the text
/// unchanged — the formatter loses nothing.
pub proof fn lemma_format_parse_round_trip(blocks: Seq<Block>, title: Seq<char>, text: Seq<char>)
    requires
        blocks.len() == 3,
        blocks[0] matches Block::Header(t) && t@ == title,
        blocks[1] is Divider,
        blocks[2] matches Block::Section(x) && x@ == text,
    ensures
        spec_parse_payload(blocks) == Some((title, text)),
{
}

/// A hexadecimal digit as a lower-case character.
pub open spec fn hex_char(d: nat) -> char {
    if d < 10 {
        crate::dom::digit_char(d)
    } else if d == 10 {
        'a'
    } else if d == 11 {
        'b'
    } else if d == 12 {
        'c'
    } else if d == 13 {
        'd'
    } else if d == 14 {
        'e'
    } else {
        'f'
    }
}

/// One character as it stands inside a JSON string: quote, backslash and the
/// named control characters get a two-character escape, any other control
/// character a `\u00..` escape, and everything else stands as itself.
pub open spec fn esc_char(c: char) -> Seq<char> {
    if c == '"' {
        seq!['\\', '"']
    } else if c == '\\' {
        seq!['\\', '\\']
    } else if c == '\n' {
        seq!['\\', 'n']
    } else if c == '\r' {
        seq!['\\', 'r']
    } else if c == '\t' {
        seq!['\\', 't']
    } else if (c as u32) < 32 {
        seq!['\\', 'u', '0', '0', hex_char((c as u32 / 16) as nat), hex_char((c as u32 % 16) as nat)]
    } else {
        seq![c]
    }
}

/// A character sequence as it stands inside a JSON string.
pub open spec fn esc(s: Seq<char>) -> Seq<char>
    decreases s.len(),
{
    if s.len() == 0 {
        Seq::empty()
    } else {
        esc(s.drop_last()) + esc_char(s.last())
    }
}

fn push_hex(out: &mut String, d: u32)
    requires
        d < 16,
    ensures
        final(out)@ == old(out)@ + seq![hex_char(d as nat)],
{
    let s: &str = if d == 0 {
        "0"
    } else if d == 1 {
        "1"
    } else if d == 2 {
        "2"
    } else if d == 3 {
        "3"
    } else if d == 4 {
        "4"
    } else if d == 5 {
        "5"
    } else if d == 6 {
        "6"
    } else if d == 7 {
        "7"
    } else if d == 8 {
        "8"
    } else if d == 9 {
        "9"
    } else if d == 10 {
        "a"
    } else if d == 11 {
        "b"
    } else if d == 12 {
        "c"
    } else if d == 13 {
        "d"
    } else if d == 14 {
        "e"
    } else {
        "f"
    };
    proof {
        reveal_strlit("0");
        reveal_strlit("1");
        reveal_strlit("2");
        reveal_strlit("3");
        reveal_strlit("4");
        reveal_strlit("5");
        reveal_strlit("6");
        reveal_strlit("7");
        reveal_strlit("8");
        reveal_strlit("9");
        reveal_strlit("a");
        reveal_strlit("b");
        reveal_strlit("c");
        reveal_strlit("d");
        reveal_strlit("e");
        reveal_strlit("f");
        assert(s@ =~= seq![hex_char(d as nat)]);
    }
    append_str(out, s);
}

/// Appends one character in its JSON-string form, as `esc_char`.
fn push_escaped_char(c: char, out: &mut String)
    ensures
        final(out)@ == old(out)@ + esc_char(c),
{
    if c == '"' {
        append_str(out, "\\\"");
        proof {
            reveal_strlit("\\\"");
            assert(out@ =~= old(out)@ + esc_char(c));
        }
    } else if c == '\\' {
        append_str(out, "\\\\");
        proof {
            reveal_strlit("\\\\");
            assert(out@ =~= old(out)@ + esc_char(c));
        }
    } else if c == '\n' {
        append_str(out, "\\n");
        proof {
            reveal_strlit("\\n");
            assert(out@ =~= old(out)@ + esc_char(c));
        }
    } else if c == '\r' {
        append_str(out, "\\r");
        proof {
            reveal_strlit("\\r");
            assert(out@ =~= old(out)@ + esc_char(c));
        }
    } else if c == '\t' {
        append_str(out, "\\t");
        proof {
            reveal_strlit("\\t");
            assert(out@ =~= old(out)@ + esc_char(c));
        }
    } else if (c as u32) < 32 {
        append_str(out, "\\u00");
        push_hex(out, (c as u32) / 16);
        push_hex(out, (c as u32) % 16);
        proof {
            reveal_strlit("\\u00");
            assert(out@ =~= old(out)@ + esc_char(c));
        }
    } else {
        push_char(out, c);
        proof {
            assert(out@ =~= old(out)@ + esc_char(c));
        }
    }
}

/// Appends the JSON-string form of `s`, as `esc`.
#[verifier::loop_isolation(false)]
fn escape_into(s: &str, out: &mut String)
    ensures
        final(out)@ == old(out)@ + esc(s@),
{
    let end = s.unicode_len();
    let mut i: usize = 0;
    while i < end
        invariant
            i <= end,
            end == s@.len(),
            out@ == old(out)@ + esc(s@.take(i as int)),
        decreases end - i,
    {
        let c = s.get_char(i);
        push_escaped_char(c, out);
        proof {
            assert(s@.take(i + 1int).drop_last() =~= s@.take(i as int));
            assert(out@ =~= old(out)@ + esc(s@.take(i + 1int)));
        }
        i = i + 1;
    }
    proof {
        assert(s@.take(end as int) =~= s@);
    }
}

/// The payload rendered as JSON text: a header block carrying the title, a
/// divider, and a section block carrying the text, each string JSON-escaped
/// and nothing else changed.
pub open spec fn spec_record_json(title: Seq<char>, text: Seq<char>) -> Seq<char> {
    "{\"blocks\": [{\"type\":\"header\",\"text\":{\"type\":\"plain_text\",\"text\":\""@ + esc(
        title,
    ) + "\",\"emoji\":true}},{\"type\":\"divider\"},{\"type\":\"section\",\"text\":{\"type\":\"mrkdwn\",\"text\":\""@
        + esc(text) + "\"}}]}"@
}

/// Renders the record's payload as the JSON text the webhook expects: header
/// block with the title, divider, section block with the text, the two
/// strings escaped only as JSON requires.
pub fn record_json(record: &ItemRecord) -> (r: String)
    ensures
        r@ == spec_record_json(record.title@, record.text@),
{
    let mut out = String::new();
    append_str(
        &mut out,
        "{\"blocks\": [{\"type\":\"header\",\"text\":{\"type\":\"plain_text\",\"text\":\"",
    );
    escape_into(record.title.as_str(), &mut out);
    append_str(
        &mut out,
        "\",\"emoji\":true}},{\"type\":\"divider\"},{\"type\":\"section\",\"text\":{\"type\":\"mrkdwn\",\"text\":\"",
    );
    escape_into(record.text.as_str(), &mut out);
    append_str(&mut out, "\"}}]}");
    proof {
        assert(out@ =~= spec_record_json(record.title@, record.text@));
    }
    out
}

} // verus!