//! Texts inside JSON documents: how a text is written between the double
//! quotes of a JSON string, and how it is read back.

use vstd::prelude::*;
use vstd::std_specs::iter::IteratorSpec;
use crate::text::push_char;

verus! {

/// The hexadecimal digit of a number below sixteen, in lower case.
pub open spec fn hex_char(nibble: int) -> char {
    if nibble < 10 {
        (('0' as u8) + nibble) as u8 as char
    } else {
        (('a' as u8) + nibble - 10) as u8 as char
    }
}

/// The number that a hexadecimal digit stands for.
pub open spec fn hex_value(c: char) -> Option<int> {
    if '0' <= c <= '9' {
        Some(c as int - '0' as int)
    } else if 'a' <= c <= 'f' {
        Some(c as int - 'a' as int + 10)
    } else if 'A' <= c <= 'F' {
        Some(c as int - 'A' as int + 10)
    } else {
        None
    }
}

/// Whether `c` may not stand as it is inside a JSON string: the double
/// quote, the backslash and the control characters.
pub open spec fn needs_escape(c: char) -> bool {
    c == '"' || c == '\\' || (c as u32) < 0x20
}

/// `c` as it is written inside a JSON string: a backslash before a double
/// quote or a backslash, `\u00` and two hexadecimal digits for a control
/// character, and any other character as it is.
pub open spec fn escaped_char(c: char) -> Seq<char> {
    if c == '"' {
        seq!['\\', '"']
    } else if c == '\\' {
        seq!['\\', '\\']
    } else if (c as u32) < 0x20 {
        seq!['\\', 'u', '0', '0', hex_char((c as u32 / 16) as int), hex_char((c as u32 % 16) as int)]
    } else {
        seq![c]
    }
}

/// `text` as it is written inside a JSON string.
pub open spec fn escape(text: Seq<char>) -> Seq<char>
    decreases text.len(),
{
    if text.len() == 0 {
        Seq::empty()
    } else {
        escape(text.drop_last()) + escaped_char(text.last())
    }
}

/// `c` in front of what was read, where anything was.
pub open spec fn after(c: char, read: Option<Seq<char>>) -> Option<Seq<char>> {
    match read {
        Some(rest) => Some(seq![c] + rest),
        None => None,
    }
}

/// The text that `written` stands for inside a JSON string, or `None` where
/// it cannot stand there: where it holds a bare double quote or control
/// character, or a backslash that begins no escape. Of the `\u` escapes
/// only those of the form `\u00XX` are read.
pub open spec fn unescape(written: Seq<char>) -> Option<Seq<char>>
    decreases written.len(),
{
    if written.len() == 0 {
        Some(Seq::empty())
    } else if written[0] == '"' || (written[0] as u32) < 0x20 {
        None
    } else if written[0] != '\\' {
        after(written[0], unescape(written.skip(1)))
    } else if written.len() < 2 {
        None
    } else if written[1] == '"' || written[1] == '\\' || written[1] == '/' {
        after(written[1], unescape(written.skip(2)))
    } else if written[1] == 'b' {
        after('\x08', unescape(written.skip(2)))
    } else if written[1] == 'f' {
        after('\x0c', unescape(written.skip(2)))
    } else if written[1] == 'n' {
        after('\n', unescape(written.skip(2)))
    } else if written[1] == 'r' {
        after('\r', unescape(written.skip(2)))
    } else if written[1] == 't' {
        after('\t', unescape(written.skip(2)))
    } else if written[1] == 'u' && written.len() >= 6 && written[2] == '0' && written[3] == '0' {
        match (hex_value(written[4]), hex_value(written[5])) {
            (Some(high), Some(low)) => after(
                (16 * high + low) as u32 as char,
                unescape(written.skip(6)),
            ),
            _ => None,
        }
    } else {
        None
    }
}

proof fn escape_joins(front: Seq<char>, back: Seq<char>)
    ensures
        escape(front + back) == escape(front) + escape(back),
    decreases back.len(),
{
    if back.len() == 0 {
        assert(front + back =~= front);
        assert(escape(front) + escape(back) =~= escape(front));
    } else {
        escape_joins(front, back.drop_last());
        assert((front + back).drop_last() =~= front + back.drop_last());
        assert((front + back).last() == back.last());
        assert(escape(front + back) =~= escape(front) + escape(back));
    }
}

proof fn hex_reads_back(nibble: int)
    requires
        0 <= nibble < 16,
    ensures
        hex_value(hex_char(nibble)) == Some(nibble),
{
}

/// What is written for a text is read back as that text.
pub proof fn escaped_text_reads_back(text: Seq<char>)
    ensures
        unescape(escape(text)) == Some(text),
    decreases text.len(),
{
    if text.len() == 0 {
    } else {
        let c = text[0];
        let rest = text.drop_first();
        assert(text =~= seq![c] + rest);
        escape_joins(seq![c], rest);
        assert(seq![c].drop_last() =~= Seq::<char>::empty());
        assert(escape(seq![c].drop_last()) =~= Seq::<char>::empty());
        assert(escape(seq![c]) =~= escaped_char(c));
        escaped_text_reads_back(rest);
        let written = escaped_char(c) + escape(rest);
        assert(escape(text) == written);
        if c == '"' || c == '\\' {
            assert(written.skip(2) =~= escape(rest));
        } else if (c as u32) < 0x20 {
            let high = (c as u32 / 16) as int;
            let low = (c as u32 % 16) as int;
            hex_reads_back(high);
            hex_reads_back(low);
            assert(written[4] == hex_char(high));
            assert(written[5] == hex_char(low));
            assert(written.skip(6) =~= escape(rest));
            assert(16 * high + low == c as u32);
            vstd::utf8::char_u32_cast(c, c as u32);
        } else {
            assert(written.skip(1) =~= escape(rest));
        }
        assert(seq![c] + rest =~= text);
    }
}

fn hex_text(nibble: u32) -> (text: &'static str)
    requires
        nibble < 16,
    ensures
        text@ == seq![hex_char(nibble as int)],
{
    proof {
        reveal_strlit("0");
        reveal_strlit("1");
        reveal_strlit("2");
        reveal_strlit("3");
        reveal_strlit("4");
        reveal_strlit("5");
        reveal_strlit("6");
        reveal_strlit("7");
        reveal_strlit("8");
        reveal_strlit("9");
        reveal_strlit("a");
        reveal_strlit("b");
        reveal_strlit("c");
        reveal_strlit("d");
        reveal_strlit("e");
        reveal_strlit("f");
    }
    let text = match nibble {
        0 => "0",
        1 => "1",
        2 => "2",
        3 => "3",
        4 => "4",
        5 => "5",
        6 => "6",
        7 => "7",
        8 => "8",
        9 => "9",
        10 => "a",
        11 => "b",
        12 => "c",
        13 => "d",
        14 => "e",
        _ => "f",
    };
    assert(text@ =~= seq![hex_char(nibble as int)]);
    text
}

/// `text` as it is written inside a JSON string.
pub fn escape_text(text: &str) -> (written: String)
    ensures
        written@ == escape(text@),
{
    let mut written = String::new();
    let mut rest = text.chars();
    let ghost mut done: int = 0;
    loop
        invariant
            rest.obeys_prophetic_iter_laws(),
            0 <= done <= text@.len(),
            rest.remaining() == text@.skip(done),
            written@ == escape(text@.take(done)),
        decreases text@.len() - done,
    {
        match rest.next() {
            None => {
                assert(text@.take(done) =~= text@);
                return written;
            },
            Some(c) => {
                proof {
                    assert(c == text@[done]);
                    assert(text@.skip(done).drop_first() == text@.skip(done + 1));
                    assert(text@.take(done + 1).drop_last() =~= text@.take(done));
                    assert(text@.take(done + 1).last() == c);
                    reveal_strlit("\\\"");
                    reveal_strlit("\\\\");
                    reveal_strlit("\\u00");
                }
                let ghost before = written@;
                if c == '"' {
                    written.append("\\\"");
                    assert(written@ =~= before + escaped_char(c));
                } else if c == '\\' {
                    written.append("\\\\");
                    assert(written@ =~= before + escaped_char(c));
                } else if (c as u32) < 0x20 {
                    written.append("\\u00");
                    written.append(hex_text(c as u32 / 16));
                    written.append(hex_text(c as u32 % 16));
                    assert(written@ =~= before + escaped_char(c));
                } else {
                    push_char(&mut written, c);
                    assert(written@ =~= before + escaped_char(c));
                }
                proof {
                    done = done + 1;
                }
            },
        }
    }
}

} // verus!
