//! Android ADB input commands: a line of text becomes a series of `text`
//! and `keyevent` commands, with the characters that the shell or the
//! input method treat specially sent as key events or escaped.
use vstd::prelude::*;
use crate::convert::{decimal, decimal_string};
use crate::text::push_char;

verus! {

/// The state of a quoter: the characters gathered since the last command,
/// and the command lines produced so far.
pub struct QuoteState {
    pub chars: Seq<char>,
    pub lines: Seq<Seq<char>>,
}

/// The two command lines that send the gathered characters and then the
/// key event `n`.
pub open spec fn put_lines(prefix: Seq<char>, chars: Seq<char>, n: nat) -> Seq<Seq<char>> {
    seq![prefix + " text "@ + chars, prefix + " keyevent "@ + decimal(n)]
}

/// Send the gathered characters and the key event `n`.
pub open spec fn put_state(prefix: Seq<char>, st: QuoteState, n: nat) -> QuoteState {
    QuoteState { chars: Seq::empty(), lines: st.lines + put_lines(prefix, st.chars, n) }
}

/// The key event that stands for a character, if it is sent as one: a
/// space, a single quote, a semicolon and parentheses.
pub open spec fn key_event_of(c: char) -> Option<nat> {
    if c == ' ' {
        Some(62)
    } else if c == '\'' {
        Some(75)
    } else if c == ';' {
        Some(74)
    } else if c == '(' {
        Some(71)
    } else if c == ')' {
        Some(72)
    } else {
        None
    }
}

/// Whether a character is sent after a backslash: double quotes,
/// ampersands, bars and dollars.
pub open spec fn is_escaped(c: char) -> bool {
    c == '"' || c == '&' || c == '|' || c == '$'
}

/// The state after quoting one character.
pub open spec fn quote_char(prefix: Seq<char>, st: QuoteState, c: char) -> QuoteState {
    match key_event_of(c) {
        Some(n) => put_state(prefix, st, n),
        None => if is_escaped(c) {
            QuoteState { chars: st.chars.push('\\').push(c), ..st }
        } else {
            QuoteState { chars: st.chars.push(c), ..st }
        },
    }
}

/// The state after quoting each character of `s` in turn.
pub open spec fn quote_chars(prefix: Seq<char>, st: QuoteState, s: Seq<char>) -> QuoteState
    decreases s.len(),
{
    if s.len() == 0 {
        st
    } else {
        quote_char(prefix, quote_chars(prefix, st, s.drop_last()), s.last())
    }
}

/// The state after quoting a whole line: its characters, then a new line
/// (key event 66).
pub open spec fn quote_line(prefix: Seq<char>, st: QuoteState, s: Seq<char>) -> QuoteState {
    put_state(prefix, quote_chars(prefix, st, s), 66)
}

/// Quotes lines of text as ADB input commands.
pub struct Quoter {
    /// prefix of each command, e.g. `adb shell input`
    prefix: String,
    /// characters gathered since the last command
    chars: String,
}

impl Quoter {
    /// The command prefix.
    pub closed spec fn spec_prefix(&self) -> Seq<char> {
        self.prefix@
    }

    /// The characters gathered since the last command.
    pub closed spec fn spec_chars(&self) -> Seq<char> {
        self.chars@
    }

    /// A quoter whose commands start with `prefix`.
    pub fn new(prefix: String) -> (r: Self)
        ensures
            r.spec_prefix() == prefix@,
            r.spec_chars().len() == 0,
            dollars_escaped(r.spec_chars()),
    {
        Self { prefix, chars: String::new() }
    }

    /// Send the gathered characters and the key event `n`: the two
    /// command lines.
    pub fn put_chars(&mut self, n: u8) -> (r: Vec<String>)
        ensures
            final(self).spec_prefix() == old(self).spec_prefix(),
            final(self).spec_chars().len() == 0,
            r@.map_values(|l: String| l@) == put_lines(old(self).spec_prefix(), old(self).spec_chars(), n as nat),
    {
        let mut text_line = self.prefix.clone();
        text_line.append(" text ");
        text_line.append(self.chars.as_str());
        let mut key_line = self.prefix.clone();
        key_line.append(" keyevent ");
        key_line.append(decimal_string(n as u64).as_str());
        self.chars = String::new();
        let r = vec![text_line, key_line];
        proof {
            assert(r@.map_values(|l: String| l@) =~= put_lines(old(self).spec_prefix(), old(self).spec_chars(), n as nat));
        }
        r
    }

    /// Quote a line: the command lines that type it, ending with a new line.
    pub fn fix_line(&mut self, s: String) -> (r: Vec<String>)
        ensures
            final(self).spec_prefix() == old(self).spec_prefix(),
            ({
                let st = quote_line(old(self).spec_prefix(), QuoteState { chars: old(self).spec_chars(), lines: Seq::empty() }, s@);
                &&& r@.map_values(|l: String| l@) == st.lines
                &&& final(self).spec_chars() == st.chars
            }),
            final(self).spec_chars().len() == 0,
            dollars_escaped(old(self).spec_chars()) ==> text_lines_escaped(
                old(self).spec_prefix(),
                r@.map_values(|l: String| l@),
            ),
    {
        let ghost prefix = self.prefix@;
        let ghost st0 = QuoteState { chars: self.chars@, lines: Seq::empty() };
        let mut out: Vec<String> = Vec::new();
        let n = s.as_str().unicode_len();
        let mut i: usize = 0;
        while i < n
            invariant
                n == s@.len(),
                i <= n,
                self.prefix@ == prefix,
                ({
                    let st = quote_chars(prefix, st0, s@.subrange(0, i as int));
                    &&& out@.map_values(|l: String| l@) == st.lines
                    &&& self.chars@ == st.chars
                }),
            decreases n - i,
        {
            let c = s.as_str().get_char(i);
            proof {
                assert(s@.subrange(0, i + 1).drop_last() =~= s@.subrange(0, i as int));
                assert(s@.subrange(0, i + 1).last() == c);
            }
            let key: Option<u8> = if c == ' ' {
                Some(62)
            } else if c == '\'' {
                Some(75)
            } else if c == ';' {
                Some(74)
            } else if c == '(' {
                Some(71)
            } else if c == ')' {
                Some(72)
            } else {
                None
            };
            match key {
                Some(k) => {
                    let ghost before = out@.map_values(|l: String| l@);
                    let lines = self.put_chars(k);
                    out.append(&mut lines.clone());
                    proof {
                        assert(out@.map_values(|l: String| l@) =~= before + lines@.map_values(|l: String| l@));
                    }
                },
                None => {
                    if c == '"' || c == '&' || c == '|' || c == '$' {
                        push_char(&mut self.chars, '\\');
                        push_char(&mut self.chars, c);
                    } else {
                        push_char(&mut self.chars, c);
                    }
                },
            }
            i = i + 1;
        }
        proof {
            assert(s@.subrange(0, n as int) =~= s@);
        }
        let ghost before = out@.map_values(|l: String| l@);
        let lines = self.put_chars(66);
        out.append(&mut lines.clone());
        proof {
            assert(out@.map_values(|l: String| l@) =~= before + lines@.map_values(|l: String| l@));
            if dollars_escaped(st0.chars) {
                lemma_quote_line_escapes_dollars(prefix, st0.chars, s@);
            }
        }
        out
    }
}


/// The number of characters of `s` that are sent as key events.
pub open spec fn key_count(s: Seq<char>) -> nat
    decreases s.len(),
{
    if s.len() == 0 {
        0
    } else {
        key_count(s.drop_last()) + if key_event_of(s.last()) is Some { 1nat } else { 0nat }
    }
}

/// Whether `line` starts with `prefix`.
pub open spec fn starts_with(line: Seq<char>, prefix: Seq<char>) -> bool {
    line.len() >= prefix.len() && line.subrange(0, prefix.len() as int) == prefix
}

/// Sending the gathered characters adds two lines, each starting with the prefix.
proof fn lemma_put_lines(prefix: Seq<char>, st: QuoteState, n: nat)
    ensures
        put_state(prefix, st, n).lines.len() == st.lines.len() + 2,
        put_state(prefix, st, n).lines.subrange(0, st.lines.len() as int) == st.lines,
        starts_with(put_state(prefix, st, n).lines[st.lines.len() as int], prefix),
        starts_with(put_state(prefix, st, n).lines[st.lines.len() + 1int], prefix),
{
    let l = put_state(prefix, st, n).lines;
    assert(l.subrange(0, st.lines.len() as int) =~= st.lines);
    assert(l[st.lines.len() as int] == prefix + " text "@ + st.chars);
    assert(l[st.lines.len() as int].subrange(0, prefix.len() as int) =~= prefix);
    assert(l[st.lines.len() + 1int] == prefix + " keyevent "@ + decimal(n));
    assert(l[st.lines.len() + 1int].subrange(0, prefix.len() as int) =~= prefix);
}

/// Quoting characters adds two command lines for each character sent as
/// a key event, keeps the lines already produced, and every line added
/// starts with the prefix.
pub proof fn lemma_quote_chars_lines(prefix: Seq<char>, st: QuoteState, s: Seq<char>)
    ensures
        quote_chars(prefix, st, s).lines.len() == st.lines.len() + 2 * key_count(s),
        quote_chars(prefix, st, s).lines.subrange(0, st.lines.len() as int) == st.lines,
        forall|i: int|
            st.lines.len() <= i < quote_chars(prefix, st, s).lines.len() ==> starts_with(
                #[trigger] quote_chars(prefix, st, s).lines[i],
                prefix,
            ),
    decreases s.len(),
{
    if s.len() > 0 {
        lemma_quote_chars_lines(prefix, st, s.drop_last());
        let mid = quote_chars(prefix, st, s.drop_last());
        let fin = quote_chars(prefix, st, s);
        assert(fin == quote_char(prefix, mid, s.last()));
        match key_event_of(s.last()) {
            Some(n) => {
                lemma_put_lines(prefix, mid, n);
                assert(fin.lines.subrange(0, st.lines.len() as int) =~= mid.lines.subrange(0, st.lines.len() as int)) by {
                    assert(fin.lines.subrange(0, mid.lines.len() as int) == mid.lines);
                }
                assert forall|i: int| st.lines.len() <= i < fin.lines.len() implies starts_with(
                    #[trigger] fin.lines[i],
                    prefix,
                ) by {
                    if i < mid.lines.len() {
                        assert(fin.lines[i] == fin.lines.subrange(0, mid.lines.len() as int)[i]);
                        assert(fin.lines[i] == mid.lines[i]);
                    }
                }
            },
            None => {},
        }
    }
}

/// Quoting a line gives two command lines for each character sent as a
/// key event and two more for the new line, each starting with the prefix.
pub proof fn lemma_quote_line_lines(prefix: Seq<char>, chars: Seq<char>, s: Seq<char>)
    ensures
        quote_line(prefix, QuoteState { chars, lines: Seq::empty() }, s).lines.len() == 2 * (key_count(s) + 1),
        forall|i: int|
            0 <= i < quote_line(prefix, QuoteState { chars, lines: Seq::empty() }, s).lines.len() ==> starts_with(
                #[trigger] quote_line(prefix, QuoteState { chars, lines: Seq::empty() }, s).lines[i],
                prefix,
            ),
{
    let st = QuoteState { chars, lines: Seq::empty() };
    lemma_quote_chars_lines(prefix, st, s);
    let mid = quote_chars(prefix, st, s);
    lemma_put_lines(prefix, mid, 66);
    let fin = quote_line(prefix, st, s);
    assert forall|i: int| 0 <= i < fin.lines.len() implies starts_with(#[trigger] fin.lines[i], prefix) by {
        if i < mid.lines.len() {
            assert(fin.lines[i] == fin.lines.subrange(0, mid.lines.len() as int)[i]);
            assert(fin.lines[i] == mid.lines[i]);
        }
    }
}

/// Each `$` of a text is sent right after a backslash, so that the shell
/// does not read it as the start of a variable.
pub open spec fn dollars_escaped(c: Seq<char>) -> bool {
    forall|i: int| 0 <= i < c.len() && #[trigger] c[i] == '$' ==> i > 0 && c[i - 1] == '\\'
}

/// What a text command sends: the line after the prefix and ` text `.
pub open spec fn text_part(prefix: Seq<char>, line: Seq<char>) -> Seq<char> {
    line.subrange(prefix.len() + 6int, line.len() as int)
}

/// The command lines come in pairs, a text command then a key event, and
/// every text command sends its dollars escaped.
pub open spec fn text_lines_escaped(prefix: Seq<char>, lines: Seq<Seq<char>>) -> bool {
    &&& lines.len() % 2 == 0
    &&& forall|i: int|
        0 <= i < lines.len() && i % 2 == 0 ==> starts_with(#[trigger] lines[i], prefix + " text "@) && dollars_escaped(
            text_part(prefix, lines[i]),
        )
}

/// Sending gathered characters whose dollars are escaped keeps every text
/// command's dollars escaped.
proof fn lemma_put_escaped(prefix: Seq<char>, st: QuoteState, n: nat)
    requires
        dollars_escaped(st.chars),
        text_lines_escaped(prefix, st.lines),
    ensures
        text_lines_escaped(prefix, put_state(prefix, st, n).lines),
        dollars_escaped(put_state(prefix, st, n).chars),
{
    reveal_strlit(" text ");
    let l = put_state(prefix, st, n).lines;
    let m = st.lines.len();
    let t = prefix + " text "@ + st.chars;
    assert(l[m as int] == t);
    assert(t.subrange(0, (prefix + " text "@).len() as int) =~= prefix + " text "@);
    assert(text_part(prefix, t) =~= st.chars);
    assert forall|i: int| 0 <= i < l.len() && i % 2 == 0 implies starts_with(#[trigger] l[i], prefix + " text "@)
        && dollars_escaped(text_part(prefix, l[i])) by {
        if i < m {
            assert(l[i] == st.lines[i]);
        } else {
            assert(i == m);
        }
    }
    assert(dollars_escaped(put_state(prefix, st, n).chars));
}

/// Quoting characters keeps every dollar escaped: in the characters
/// gathered and in each text command produced.
pub proof fn lemma_quote_chars_escapes_dollars(prefix: Seq<char>, st: QuoteState, s: Seq<char>)
    requires
        dollars_escaped(st.chars),
        text_lines_escaped(prefix, st.lines),
    ensures
        dollars_escaped(quote_chars(prefix, st, s).chars),
        text_lines_escaped(prefix, quote_chars(prefix, st, s).lines),
    decreases s.len(),
{
    if s.len() > 0 {
        lemma_quote_chars_escapes_dollars(prefix, st, s.drop_last());
        let mid = quote_chars(prefix, st, s.drop_last());
        let c = s.last();
        match key_event_of(c) {
            Some(n) => {
                lemma_put_escaped(prefix, mid, n);
            },
            None => {
                let cs = mid.chars;
                if c == '"' || c == '&' || c == '|' || c == '$' {
                    let e = cs.push('\\').push(c);
                    assert forall|i: int| 0 <= i < e.len() && #[trigger] e[i] == '$' implies i > 0 && e[i - 1] == '\\' by {
                        if i < cs.len() {
                            assert(e[i] == cs[i]);
                            if i > 0 {
                                assert(e[i - 1] == cs[i - 1]);
                            }
                        } else if i == cs.len() {
                            assert(e[i] == '\\');
                        } else {
                            assert(e[i - 1] == '\\');
                        }
                    }
                } else {
                    let e = cs.push(c);
                    assert(c != '$');
                    assert forall|i: int| 0 <= i < e.len() && #[trigger] e[i] == '$' implies i > 0 && e[i - 1] == '\\' by {
                        assert(i < cs.len());
                        assert(e[i] == cs[i]);
                        if i > 0 {
                            assert(e[i - 1] == cs[i - 1]);
                        }
                    }
                }
            },
        }
    }
}

/// Quoting a line sends every dollar of it right after a backslash: the
/// command lines come in pairs, and each text command's text has each `$`
/// escaped (given that the characters gathered before had theirs escaped).
pub proof fn lemma_quote_line_escapes_dollars(prefix: Seq<char>, chars: Seq<char>, s: Seq<char>)
    requires
        dollars_escaped(chars),
    ensures
        text_lines_escaped(prefix, quote_line(prefix, QuoteState { chars, lines: Seq::empty() }, s).lines),
        quote_line(prefix, QuoteState { chars, lines: Seq::empty() }, s).chars.len() == 0,
{
    let st = QuoteState { chars, lines: Seq::empty() };
    lemma_quote_chars_escapes_dollars(prefix, st, s);
    lemma_put_escaped(prefix, quote_chars(prefix, st, s), 66);
}

} // verus!
