use vstd::prelude::*;

use crate::text::{push_char, str_chars};

verus! {

/// The mathematical view of a line buffer: each line as a sequence of
/// characters (no line stores a newline).
pub open spec fn lines_view(content: Seq<Vec<char>>) -> Seq<Seq<char>> {
    Seq::new(content.len(), |i: int| content[i]@)
}

pub proof fn lemma_lines_view_update(s: Seq<Vec<char>>, i: int, v: Vec<char>)
    requires
        0 <= i < s.len(),
    ensures
        lines_view(s.update(i, v)) == lines_view(s).update(i, v@),
{
    assert(lines_view(s.update(i, v)) =~= lines_view(s).update(i, v@));
}

pub proof fn lemma_lines_view_remove(s: Seq<Vec<char>>, i: int)
    requires
        0 <= i < s.len(),
    ensures
        lines_view(s.remove(i)) == lines_view(s).remove(i),
{
    assert(lines_view(s.remove(i)) =~= lines_view(s).remove(i));
}

pub proof fn lemma_lines_view_insert(s: Seq<Vec<char>>, i: int, v: Vec<char>)
    requires
        0 <= i <= s.len(),
    ensures
        lines_view(s.insert(i, v)) == lines_view(s).insert(i, v@),
{
    assert(lines_view(s.insert(i, v)) =~= lines_view(s).insert(i, v@));
}

/// `text` split at every occurrence of `sep`. The result always has one
/// piece more than the text has separators; in particular it is never
/// empty, and a trailing separator leaves a trailing empty piece.
pub open spec fn spec_split(text: Seq<char>, sep: char) -> Seq<Seq<char>>
    decreases text.len(),
{
    if text.len() == 0 {
        seq![Seq::<char>::empty()]
    } else if text[0] == sep {
        seq![Seq::<char>::empty()] + spec_split(text.skip(1), sep)
    } else {
        let rest = spec_split(text.skip(1), sep);
        rest.update(0, seq![text[0]] + rest[0])
    }
}

/// `lines` joined with a single `sep` between pieces and none at the end.
pub open spec fn spec_join(lines: Seq<Seq<char>>, sep: char) -> Seq<char>
    decreases lines.len(),
{
    if lines.len() == 0 {
        Seq::<char>::empty()
    } else if lines.len() == 1 {
        lines[0]
    } else {
        lines[0] + seq![sep] + spec_join(lines.skip(1), sep)
    }
}

/// What loading text yields: the split pieces, except that a trailing
/// newline does not open a final empty line. Empty text yields one empty
/// line, so the result is never empty.
pub open spec fn spec_load_lines(text: Seq<char>) -> Seq<Seq<char>> {
    let p = spec_split(text, '\n');
    if text.len() > 0 && text.last() == '\n' {
        p.drop_last()
    } else {
        p
    }
}

pub proof fn lemma_split_nonempty(text: Seq<char>, sep: char)
    ensures
        spec_split(text, sep).len() >= 1,
    decreases text.len(),
{
    if text.len() != 0 {
        lemma_split_nonempty(text.skip(1), sep);
    }
}

/// Extending the text by one character extends the last piece, or opens a
/// new empty piece when the character is the separator.
pub proof fn lemma_split_push(text: Seq<char>, c: char, sep: char)
    ensures
        spec_split(text, sep).len() >= 1,
        c == sep ==> spec_split(text.push(c), sep) == spec_split(text, sep).push(
            Seq::<char>::empty(),
        ),
        c != sep ==> spec_split(text.push(c), sep) == spec_split(text, sep).update(
            spec_split(text, sep).len() - 1,
            spec_split(text, sep).last().push(c),
        ),
    decreases text.len(),
{
    lemma_split_nonempty(text, sep);
    if text.len() == 0 {
        reveal_with_fuel(spec_split, 3);
        assert(text.push(c).skip(1) =~= Seq::<char>::empty());
        if c == sep {
            assert(spec_split(text.push(c), sep) =~= spec_split(text, sep).push(
                Seq::<char>::empty(),
            ));
        } else {
            assert(spec_split(text.push(c), sep) =~= spec_split(text, sep).update(
                0,
                spec_split(text, sep).last().push(c),
            ));
        }
    } else {
        lemma_split_push(text.skip(1), c, sep);
        assert(text.push(c).skip(1) =~= text.skip(1).push(c));
        lemma_split_nonempty(text.skip(1), sep);
        if text[0] == sep {
            if c == sep {
                assert(spec_split(text.push(c), sep) =~= spec_split(text, sep).push(
                    Seq::<char>::empty(),
                ));
            } else {
                assert(spec_split(text.push(c), sep) =~= spec_split(text, sep).update(
                    spec_split(text, sep).len() - 1,
                    spec_split(text, sep).last().push(c),
                ));
            }
        } else {
            let rest = spec_split(text.skip(1), sep);
            if c == sep {
                assert(rest.len() >= 1);
                assert(spec_split(text.push(c), sep) =~= spec_split(text, sep).push(
                    Seq::<char>::empty(),
                ));
            } else {
                assert(spec_split(text.push(c), sep) =~= spec_split(text, sep).update(
                    spec_split(text, sep).len() - 1,
                    spec_split(text, sep).last().push(c),
                ));
            }
        }
    }
}

/// Joining after prepending to the first piece prepends to the joined text.
proof fn lemma_join_prepend(s: Seq<Seq<char>>, c: char, sep: char)
    requires
        s.len() >= 1,
    ensures
        spec_join(s.update(0, seq![c] + s[0]), sep) == seq![c] + spec_join(s, sep),
{
    let s2 = s.update(0, seq![c] + s[0]);
    if s.len() == 1 {
        assert(spec_join(s2, sep) =~= seq![c] + spec_join(s, sep));
    } else {
        assert(s2.skip(1) =~= s.skip(1));
        assert(spec_join(s2, sep) =~= seq![c] + spec_join(s, sep));
    }
}

/// Joining undoes splitting, exactly.
pub proof fn lemma_join_split(text: Seq<char>, sep: char)
    ensures
        spec_join(spec_split(text, sep), sep) == text,
    decreases text.len(),
{
    if text.len() == 0 {
    } else {
        lemma_join_split(text.skip(1), sep);
        lemma_split_nonempty(text.skip(1), sep);
        if text[0] == sep {
            let s = seq![Seq::<char>::empty()] + spec_split(text.skip(1), sep);
            if spec_split(text.skip(1), sep).len() >= 1 {
                assert(s.skip(1) =~= spec_split(text.skip(1), sep));
                assert(spec_join(s, sep) =~= text);
            }
        } else {
            lemma_join_prepend(spec_split(text.skip(1), sep), text[0], sep);
            assert(seq![text[0]] + spec_join(spec_split(text.skip(1), sep), sep) =~= text);
        }
    }
}

/// Saving a loaded text reproduces it, up to dropping one trailing newline.
pub proof fn lemma_save_load_round_trip(text: Seq<char>)
    ensures
        spec_join(spec_load_lines(text), '\n') == if text.len() > 0 && text.last() == '\n' {
            text.drop_last()
        } else {
            text
        },
        spec_load_lines(text).len() >= 1,
{
    lemma_join_split(text, '\n');
    lemma_split_nonempty(text, '\n');
    if text.len() > 0 && text.last() == '\n' {
        let dl = text.drop_last();
        lemma_split_push(dl, '\n', '\n');
        assert(dl.push('\n') =~= text);
        lemma_join_split(dl, '\n');
        assert(spec_split(text, '\n').drop_last() =~= spec_split(dl, '\n'));
        lemma_split_nonempty(dl, '\n');
    }
}

/// Splits text into its lines, as loading a file does: split at every
/// newline, with no final empty line for a trailing newline, and one
/// empty line for empty text. The result is never empty.
pub fn split_text(text: &str) -> (r: Vec<Vec<char>>)
    ensures
        lines_view(r@) == spec_load_lines(text@),
        r@.len() >= 1,
{
    let chars = str_chars(text);
    let mut out: Vec<Vec<char>> = Vec::new();
    let mut cur: Vec<char> = Vec::new();
    let n = chars.len();
    assert(chars@.take(0) =~= Seq::<char>::empty());
    assert(lines_view(out@).push(cur@) =~= spec_split(chars@.take(0), '\n'));
    let mut i: usize = 0;
    while i < n
        invariant
            n == chars@.len(),
            i <= n,
            lines_view(out@).push(cur@) == spec_split(chars@.take(i as int), '\n'),
        decreases n - i,
    {
        proof {
            lemma_split_push(chars@.take(i as int), chars@[i as int], '\n');
            assert(chars@.take(i as int).push(chars@[i as int]) =~= chars@.take(i + 1));
        }
        if chars[i] == '\n' {
            out.push(cur);
            cur = Vec::new();
            assert(lines_view(out@).push(cur@) =~= spec_split(chars@.take(i + 1), '\n'));
        } else {
            cur.push(chars[i]);
            assert(lines_view(out@).push(cur@) =~= spec_split(chars@.take(i + 1), '\n'));
        }
        i = i + 1;
    }
    assert(chars@.take(n as int) =~= chars@);
    proof {
        lemma_split_nonempty(chars@, '\n');
    }
    if n > 0 && chars[n - 1] == '\n' {
        proof {
            let dl = chars@.drop_last();
            lemma_split_push(dl, '\n', '\n');
            assert(dl.push('\n') =~= chars@);
            assert(spec_split(chars@, '\n') == spec_split(dl, '\n').push(Seq::<char>::empty()));
            assert(lines_view(out@) =~= spec_split(chars@, '\n').drop_last());
            assert(spec_split(chars@, '\n').drop_last() =~= spec_split(dl, '\n'));
            lemma_split_nonempty(dl, '\n');
        }
        out
    } else {
        out.push(cur);
        assert(lines_view(out@) =~= spec_load_lines(text@));
        out
    }
}

/// Splits text at every occurrence of `sep`, keeping a final empty piece
/// for a trailing separator (unlike loading a file). Pasting uses this
/// split, so a pasted trailing newline still opens a new line.
pub fn split_text_keep(text: &Vec<char>, sep: char) -> (r: Vec<Vec<char>>)
    ensures
        lines_view(r@) == spec_split(text@, sep),
        r@.len() >= 1,
{
    let mut out: Vec<Vec<char>> = Vec::new();
    let mut cur: Vec<char> = Vec::new();
    let n = text.len();
    assert(text@.take(0) =~= Seq::<char>::empty());
    assert(lines_view(out@).push(cur@) =~= spec_split(text@.take(0), sep));
    let mut i: usize = 0;
    while i < n
        invariant
            n == text@.len(),
            i <= n,
            lines_view(out@).push(cur@) == spec_split(text@.take(i as int), sep),
        decreases n - i,
    {
        proof {
            lemma_split_push(text@.take(i as int), text@[i as int], sep);
            assert(text@.take(i as int).push(text@[i as int]) =~= text@.take(i + 1));
        }
        if text[i] == sep {
            out.push(cur);
            cur = Vec::new();
            assert(lines_view(out@).push(cur@) =~= spec_split(text@.take(i + 1), sep));
        } else {
            cur.push(text[i]);
            assert(lines_view(out@).push(cur@) =~= spec_split(text@.take(i + 1), sep));
        }
        i = i + 1;
    }
    assert(text@.take(n as int) =~= text@);
    out.push(cur);
    assert(lines_view(out@) =~= spec_split(text@, sep));
    out
}

/// Joining one more piece appends a separator and that piece.
proof fn lemma_join_push(s: Seq<Seq<char>>, l: Seq<char>, sep: char)
    ensures
        s.len() == 0 ==> spec_join(s.push(l), sep) == l,
        s.len() >= 1 ==> spec_join(s.push(l), sep) == spec_join(s, sep) + seq![sep] + l,
    decreases s.len(),
{
    reveal_with_fuel(spec_join, 3);
    if s.len() == 0 {
        assert(spec_join(s.push(l), sep) =~= l);
    } else if s.len() == 1 {
        assert(s.push(l).skip(1) =~= seq![l]);
        assert(spec_join(s.push(l), sep) =~= spec_join(s, sep) + seq![sep] + l);
    } else {
        lemma_join_push(s.skip(1), l, sep);
        assert(s.push(l).skip(1) =~= s.skip(1).push(l));
        assert(spec_join(s.push(l), sep) =~= spec_join(s, sep) + seq![sep] + l);
    }
}

/// Joins the lines with single newlines, as saving a file does.
pub fn join_text(content: &Vec<Vec<char>>) -> (r: String)
    ensures
        r@ == spec_join(lines_view(content@), '\n'),
{
    let mut r = String::new();
    let n = content.len();
    let mut i: usize = 0;
    assert(lines_view(content@).take(0) =~= Seq::<Seq<char>>::empty());
    while i < n
        invariant
            n == content@.len(),
            i <= n,
            r@ == spec_join(lines_view(content@).take(i as int), '\n'),
        decreases n - i,
    {
        proof {
            lemma_join_push(
                lines_view(content@).take(i as int),
                lines_view(content@)[i as int],
                '\n',
            );
            assert(lines_view(content@).take(i as int).push(lines_view(content@)[i as int])
                =~= lines_view(content@).take(i + 1));
        }
        if i > 0 {
            push_char(&mut r, '\n');
        }
        let ghost target = spec_join(lines_view(content@).take(i + 1), '\n');
        let line = &content[i];
        let m = line.len();
        let mut j: usize = 0;
        assert(line@.skip(0) =~= line@);
        assert(r@ + line@.skip(0) =~= target);
        while j < m
            invariant
                m == line@.len(),
                line@ == lines_view(content@)[i as int],
                j <= m,
                r@ + line@.skip(j as int) == target,
            decreases m - j,
        {
            push_char(&mut r, line[j]);
            assert(line@.skip(j as int) =~= seq![line@[j as int]] + line@.skip(j + 1));
            assert(r@ + line@.skip(j + 1) =~= target);
            j = j + 1;
        }
        assert(line@.skip(m as int) =~= Seq::<char>::empty());
        assert(r@ =~= target);
        i = i + 1;
    }
    assert(lines_view(content@).take(n as int) =~= lines_view(content@));
    r
}

} // verus!
