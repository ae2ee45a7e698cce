//! Lines of a text, as `str::lines` cuts them, and the fields between line
//! feeds, as `str::split` cuts them.

use vstd::prelude::*;
use vstd::string::StringExecFns;
use crate::text::push_char;

verus! {

/// The number of characters before the first line feed, or the length of the
/// text if it holds none.
pub open spec fn first_line_feed(text: Seq<char>) -> nat
    decreases text.len(),
{
    if text.len() == 0 || text[0] == '\n' {
        0
    } else {
        1 + first_line_feed(text.skip(1))
    }
}

/// `line` without one carriage return at its end.
pub open spec fn without_carriage_return(line: Seq<char>) -> Seq<char> {
    if line.len() > 0 && line.last() == '\r' {
        line.drop_last()
    } else {
        line
    }
}

/// The lines of `text`. A line ends at a line feed; the line feed and a carriage
/// return just before it belong to no line. What follows the last line feed is
/// a line of its own unless it is empty.
pub open spec fn lines(text: Seq<char>) -> Seq<Seq<char>>
    decreases text.len(),
{
    if text.len() == 0 {
        Seq::empty()
    } else {
        let n = first_line_feed(text) as int;
        if n >= text.len() {
            seq![text]
        } else {
            seq![without_carriage_return(text.take(n))] + lines(text.skip(n + 1))
        }
    }
}

/// The fields of `text`: what stands before the first line feed, between each
/// two, and after the last. A text with n line feeds has n + 1 fields.
pub open spec fn fields(text: Seq<char>) -> Seq<Seq<char>>
    decreases text.len(),
{
    let n = first_line_feed(text) as int;
    if n >= text.len() {
        seq![text]
    } else {
        seq![text.take(n)] + fields(text.skip(n + 1))
    }
}

/// The lines with a line feed between each two.
pub open spec fn joined(lines: Seq<Seq<char>>) -> Seq<char>
    decreases lines.len(),
{
    if lines.len() == 0 {
        Seq::empty()
    } else if lines.len() == 1 {
        lines[0]
    } else {
        joined(lines.drop_last()) + seq!['\n'] + lines.last()
    }
}

/// The texts of some strings.
pub open spec fn texts(strings: Seq<String>) -> Seq<Seq<char>> {
    strings.map_values(|s: String| s@)
}

/// Whether no character of `text` is a line feed.
pub open spec fn has_no_line_feed(text: Seq<char>) -> bool {
    forall|i: int| 0 <= i < text.len() ==> #[trigger] text[i] != '\n'
}

/// Where the first line feed is, told by what stands before it.
pub proof fn lemma_first_line_feed(text: Seq<char>, k: int)
    requires
        0 <= k <= text.len(),
        has_no_line_feed(text.take(k)),
        k == text.len() || text[k] == '\n',
    ensures
        first_line_feed(text) == k,
    decreases k,
{
    if k > 0 {
        assert(text.take(k)[0] == text[0]);
        let rest = text.skip(1);
        assert forall|i: int| 0 <= i < k - 1 implies #[trigger] rest.take(k - 1)[i] != '\n' by {
            assert(rest.take(k - 1)[i] == text.take(k)[i + 1]);
        }
        lemma_first_line_feed(rest, k - 1);
    }
}

/// What stands at the first line feed, and before it.
pub proof fn lemma_first_line_feed_found(text: Seq<char>)
    ensures
        first_line_feed(text) <= text.len(),
        has_no_line_feed(text.take(first_line_feed(text) as int)),
        first_line_feed(text) < text.len() ==> text[first_line_feed(text) as int] == '\n',
    decreases text.len(),
{
    if text.len() > 0 && text[0] != '\n' {
        let rest = text.skip(1);
        lemma_first_line_feed_found(rest);
        let n = first_line_feed(text) as int;
        assert forall|i: int| 0 <= i < n implies #[trigger] text.take(n)[i] != '\n' by {
            if i > 0 {
                assert(text.take(n)[i] == rest.take(n - 1)[i - 1]);
            }
        }
    }
}

/// A field that a line feed closes, followed by more text.
proof fn lemma_fields_of_closed_field(field: Seq<char>, rest: Seq<char>)
    requires
        has_no_line_feed(field),
        rest.len() > 0,
        rest[0] == '\n',
    ensures
        fields(field + rest) == seq![field] + fields(rest.skip(1)),
{
    let text = field + rest;
    let k = field.len() as int;
    assert(text.take(k) =~= field);
    assert(text[k] == rest[0]);
    lemma_first_line_feed(text, k);
    assert(text.skip(k + 1) =~= rest.skip(1));
}

/// A text without a line feed is one field.
proof fn lemma_fields_of_open_field(field: Seq<char>)
    requires
        has_no_line_feed(field),
    ensures
        fields(field) == seq![field],
{
    assert(field.take(field.len() as int) =~= field);
    lemma_first_line_feed(field, field.len() as int);
}

/// A line feed and a text without one add one field.
pub proof fn lemma_fields_of_one_more(text: Seq<char>, field: Seq<char>)
    requires
        has_no_line_feed(field),
    ensures
        fields(text + seq!['\n'] + field) == fields(text).push(field),
    decreases text.len(),
{
    let whole = text + seq!['\n'] + field;
    let n = first_line_feed(text) as int;
    lemma_first_line_feed_found(text);
    assert(whole.take(n) =~= text.take(n));
    lemma_first_line_feed(whole, n);
    if n >= text.len() {
        assert(text.take(n) =~= text);
        assert(whole.skip(n + 1) =~= field);
        lemma_fields_of_open_field(field);
        assert(seq![text] + seq![field] =~= seq![text].push(field));
    } else {
        let rest = text.skip(n + 1);
        assert(whole.skip(n + 1) =~= rest + seq!['\n'] + field);
        lemma_fields_of_one_more(rest, field);
        assert(seq![text.take(n)] + fields(rest).push(field) =~= (seq![text.take(n)] + fields(rest)).push(
            field,
        ));
    }
}

/// Fields without line feeds, joined and cut again, are the same fields.
pub proof fn lemma_fields_of_joined(parts: Seq<Seq<char>>)
    requires
        parts.len() > 0,
        forall|i: int| 0 <= i < parts.len() ==> has_no_line_feed(#[trigger] parts[i]),
    ensures
        fields(joined(parts)) == parts,
    decreases parts.len(),
{
    if parts.len() == 1 {
        lemma_fields_of_open_field(parts[0]);
        assert(seq![parts[0]] =~= parts);
    } else {
        let front = parts.drop_last();
        lemma_fields_of_joined(front);
        lemma_fields_of_one_more(joined(front), parts.last());
        assert(front.push(parts.last()) =~= parts);
    }
}

/// A line that a line feed closes, followed by more text.
proof fn lemma_lines_of_closed_line(line: Seq<char>, rest: Seq<char>)
    requires
        has_no_line_feed(line),
        rest.len() > 0,
        rest[0] == '\n',
    ensures
        lines(line + rest) == seq![without_carriage_return(line)] + lines(rest.skip(1)),
{
    let text = line + rest;
    let k = line.len() as int;
    assert(text.take(k) =~= line);
    assert(text[k] == rest[0]);
    lemma_first_line_feed(text, k);
    assert(text.skip(k + 1) =~= rest.skip(1));
}

/// A text without a line feed is one line, or none if it is empty.
proof fn lemma_lines_of_open_line(line: Seq<char>)
    requires
        has_no_line_feed(line),
    ensures
        lines(line) == if line.len() == 0 {
            Seq::<Seq<char>>::empty()
        } else {
            seq![line]
        },
{
    assert(line.take(line.len() as int) =~= line);
    lemma_first_line_feed(line, line.len() as int);
}

/// Joining ends with the last line.
pub proof fn lemma_joined_to_last(front: Seq<Seq<char>>, last: Seq<char>)
    ensures
        joined(front.push(last)) == if front.len() == 0 {
            last
        } else {
            joined(front) + seq!['\n'] + last
        },
{
    let all = front.push(last);
    assert(all.drop_last() =~= front);
    assert(all.last() == last);
}

/// Whether no character of `text` is a carriage return.
pub open spec fn has_no_carriage_return(text: Seq<char>) -> bool {
    forall|i: int| 0 <= i < text.len() ==> #[trigger] text[i] != '\r'
}

/// Joining starts with the first line.
pub proof fn lemma_joined_from_first(first: Seq<char>, rest: Seq<Seq<char>>)
    requires
        rest.len() > 0,
    ensures
        joined(seq![first] + rest) == first + seq!['\n'] + joined(rest),
    decreases rest.len(),
{
    let all = seq![first] + rest;
    assert(all.last() == rest.last());
    if rest.len() == 1 {
        assert(all.drop_last() =~= seq![first]);
        assert(joined(seq![first]) == first);
        assert(joined(rest) == rest[0]);
    } else {
        assert(all.drop_last() =~= seq![first] + rest.drop_last());
        lemma_joined_from_first(first, rest.drop_last());
        assert(joined(all) =~= first + seq!['\n'] + joined(rest));
    }
}

/// A text without carriage returns that does not end in a line feed is its
/// lines, joined.
pub proof fn lemma_joined_lines(text: Seq<char>)
    requires
        text.len() > 0,
        text.last() != '\n',
        has_no_carriage_return(text),
    ensures
        lines(text).len() > 0,
        joined(lines(text)) == text,
    decreases text.len(),
{
    let n = first_line_feed(text) as int;
    lemma_first_line_feed_found(text);
    if n < text.len() {
        let first = text.take(n);
        let rest = text.skip(n + 1);
        assert(without_carriage_return(first) == first) by {
            if first.len() > 0 {
                assert(first.last() == text[n - 1]);
            }
        }
        assert(rest.len() > 0);
        assert(rest.last() == text.last());
        assert forall|i: int| 0 <= i < rest.len() implies #[trigger] rest[i] != '\r' by {
            assert(rest[i] == text[i + n + 1]);
        }
        lemma_joined_lines(rest);
        lemma_joined_from_first(first, lines(rest));
        assert(first + seq!['\n'] + rest =~= text);
    }
}

/// Cuts `text` into its lines.
pub fn split_lines(text: &str) -> (out: Vec<String>)
    ensures
        texts(out@) == lines(text@),
{
    let ghost whole = text@;
    let mut out: Vec<String> = Vec::new();
    let mut line = String::new();
    // A carriage return that was read and not yet written to `line`.
    let mut held = false;
    proof {
        assert(line@ + Seq::<char>::empty() + whole.skip(0) =~= whole);
        assert(texts(out@) + lines(whole) =~= lines(whole));
    }
    for c in it: text.chars()
        invariant
            it.seq() == whole,
            whole == text@,
            has_no_line_feed(line@),
            !held ==> line@.len() == 0 || line@.last() != '\r',
            texts(out@) + lines(
                line@ + (if held {
                    seq!['\r']
                } else {
                    Seq::empty()
                }) + whole.skip(it.index()),
            ) == lines(whole),
    {
        let ghost before = line@ + (if held {
            seq!['\r']
        } else {
            Seq::empty()
        });
        let ghost i = it.index();
        assert(whole.skip(i).len() > 0 && whole.skip(i)[0] == c);
        if c == '\n' {
            proof {
                lemma_lines_of_closed_line(before, whole.skip(i));
                assert(whole.skip(i).skip(1) =~= whole.skip(i + 1));
                assert(without_carriage_return(before) =~= line@);
                assert(texts(out@.push(line)) =~= texts(out@) + seq![line@]);
                assert(Seq::<char>::empty() + Seq::<char>::empty() + whole.skip(i + 1) =~= whole.skip(
                    i + 1,
                ));
            }
            out.push(line);
            line = String::new();
            held = false;
        } else {
            if held {
                push_char(&mut line, '\r');
            }
            if c == '\r' {
                held = true;
                proof {
                    assert(line@ + seq!['\r'] + whole.skip(i + 1) =~= before + whole.skip(i));
                }
            } else {
                held = false;
                push_char(&mut line, c);
                proof {
                    assert(line@ + Seq::<char>::empty() + whole.skip(i + 1) =~= before + whole.skip(i));
                }
            }
        }
    }
    let ghost last = line@ + (if held {
        seq!['\r']
    } else {
        Seq::empty()
    });
    proof {
        assert(last + whole.skip(whole.len() as int) =~= last);
        lemma_lines_of_open_line(last);
    }
    if held {
        push_char(&mut line, '\r');
    }
    assert(line@ =~= last);
    if !line.as_str().is_empty() {
        proof {
            assert(texts(out@.push(line)) =~= texts(out@) + seq![line@]);
        }
        out.push(line);
    } else {
        assert(texts(out@) + Seq::<Seq<char>>::empty() =~= texts(out@));
    }
    out
}

/// Cuts `text` into its fields.
pub fn split_fields(text: &str) -> (out: Vec<String>)
    ensures
        texts(out@) == fields(text@),
{
    let ghost whole = text@;
    let mut out: Vec<String> = Vec::new();
    let mut field = String::new();
    proof {
        assert(field@ + whole.skip(0) =~= whole);
        assert(texts(out@) + fields(whole) =~= fields(whole));
    }
    for c in it: text.chars()
        invariant
            it.seq() == whole,
            whole == text@,
            has_no_line_feed(field@),
            texts(out@) + fields(field@ + whole.skip(it.index())) == fields(whole),
    {
        let ghost i = it.index();
        assert(whole.skip(i).len() > 0 && whole.skip(i)[0] == c);
        if c == '\n' {
            proof {
                lemma_fields_of_closed_field(field@, whole.skip(i));
                assert(whole.skip(i).skip(1) =~= whole.skip(i + 1));
                assert(texts(out@.push(field)) =~= texts(out@) + seq![field@]);
                assert(Seq::<char>::empty() + whole.skip(i + 1) =~= whole.skip(i + 1));
            }
            out.push(field);
            field = String::new();
        } else {
            let ghost before = field@;
            push_char(&mut field, c);
            proof {
                assert(field@ + whole.skip(i + 1) =~= before + whole.skip(i));
            }
        }
    }
    proof {
        assert(field@ + whole.skip(whole.len() as int) =~= field@);
        lemma_fields_of_open_field(field@);
        assert(texts(out@.push(field)) =~= texts(out@) + seq![field@]);
    }
    out.push(field);
    out
}

/// Writes the lines from the one at `from` on, with a line feed between each two.
pub fn join_lines(lines: &Vec<String>, from: usize) -> (text: String)
    requires
        from <= lines.len(),
    ensures
        text@ == joined(texts(lines@).skip(from as int)),
{
    let ghost rest = texts(lines@).skip(from as int);
    let mut text = String::new();
    let mut i: usize = from;
    while i < lines.len()
        invariant
            from <= i <= lines.len(),
            rest == texts(lines@).skip(from as int),
            text@ == joined(rest.take(i - from)),
        decreases lines.len() - i,
    {
        proof {
            let upto = rest.take(i - from + 1);
            assert(upto.drop_last() =~= rest.take(i - from));
            assert(upto.last() == lines@[i as int]@);
            if i > from {
                assert(joined(upto) == joined(rest.take(i - from)) + seq!['\n'] + lines@[i as int]@);
            } else {
                assert(joined(upto) == lines@[i as int]@);
                assert(text@ + lines@[i as int]@ =~= lines@[i as int]@);
            }
        }
        if i > from {
            push_char(&mut text, '\n');
        }
        text.append(lines[i].as_str());
        i = i + 1;
    }
    proof {
        assert(rest.take(lines.len() - from) =~= rest);
    }
    text
}

} // verus!
