//! Pieces of text and the text they make when joined.

use vstd::prelude::*;
use crate::config::texts_of;

verus! {

/// The parts in order, with the separator between each two of them.
pub open spec fn joined(parts: Seq<Seq<char>>, separator: Seq<char>) -> Seq<char>
    decreases parts.len(),
{
    if parts.len() == 0 {
        Seq::empty()
    } else if parts.len() == 1 {
        parts[0]
    } else {
        joined(parts.drop_last(), separator) + separator + parts.last()
    }
}

/// The lines joined by newlines, with none after the last.
pub open spec fn join_lines(lines: Seq<Seq<char>>) -> Seq<char> {
    joined(lines, "\n"@)
}

/// Joins the parts, with the separator between each two of them.
pub fn join(parts: &Vec<String>, separator: &str) -> (r: String)
    ensures
        r@ == joined(texts_of(parts@), separator@),
{
    let mut r = String::new();
    let mut i: usize = 0;
    while i < parts.len()
        invariant
            i <= parts.len(),
            r@ == joined(texts_of(parts@).take(i as int), separator@),
        decreases parts.len() - i,
    {
        let ghost before = texts_of(parts@).take(i as int);
        let ghost after = texts_of(parts@).take(i + 1);
        assert(after.drop_last() =~= before);
        assert(after.last() == parts@[i as int]@);
        if i > 0 {
            r.append(separator);
        } else {
            assert(r@ =~= Seq::<char>::empty());
        }
        r.append(parts[i].as_str());
        assert(r@ =~= joined(after, separator@));
        i += 1;
    }
    assert(texts_of(parts@).take(parts@.len() as int) =~= texts_of(parts@));
    r
}

/// Whether the pattern stands in the text at a position.
pub open spec fn occurs_at(text: Seq<char>, pattern: Seq<char>, at: int) -> bool {
    0 <= at && at + pattern.len() <= text.len() && text.subrange(at, at + pattern.len())
        == pattern
}

/// Whether the pattern stands somewhere in the text.
pub open spec fn occurs_in(text: Seq<char>, pattern: Seq<char>) -> bool {
    exists|at: int| occurs_at(text, pattern, at)
}

/// A pattern without a certain character, found in two texts joined by that
/// character, is found in one of the two.
pub proof fn lemma_occurs_in_one_side(left: Seq<char>, right: Seq<char>, between: char, pattern: Seq<char>)
    requires
        pattern.len() > 0,
        !pattern.contains(between),
        occurs_in(left + seq![between] + right, pattern),
    ensures
        occurs_in(left, pattern) || occurs_in(right, pattern),
{
    let whole = left + seq![between] + right;
    let at = choose|at: int| occurs_at(whole, pattern, at);
    let n = pattern.len() as int;
    let window = whole.subrange(at, at + n);
    assert(window == pattern);
    if at + n <= left.len() {
        assert(left.subrange(at, at + n) =~= window);
        assert(occurs_at(left, pattern, at));
    } else if at > left.len() {
        let start = at - left.len() - 1;
        assert(right.subrange(start, start + n) =~= window);
        assert(occurs_at(right, pattern, start));
    } else {
        let k = left.len() - at;
        assert(window[k] == whole[at + k]);
        assert(whole[left.len() as int] == between);
        assert(pattern[k] == between);
        assert(pattern.contains(between));
    }
}

/// The pieces of a text between the occurrences of a character: there is
/// one piece more than there are occurrences.
pub open spec fn split(text: Seq<char>, at: char) -> Seq<Seq<char>>
    decreases text.len(),
{
    if text.len() == 0 {
        seq![Seq::empty()]
    } else if text.last() == at {
        split(text.drop_last(), at).push(Seq::empty())
    } else {
        let before = split(text.drop_last(), at);
        before.drop_last().push(before.last().push(text.last()))
    }
}

/// Whether a text holds no newline.
pub open spec fn one_line(text: Seq<char>) -> bool {
    !text.contains('\n')
}

/// The lines of a text.
pub open spec fn lines_of(text: Seq<char>) -> Seq<Seq<char>> {
    split(text, '\n')
}

/// A text always has a piece.
pub proof fn lemma_split_nonempty(text: Seq<char>, at: char)
    ensures
        split(text, at).len() > 0,
    decreases text.len(),
{
    if text.len() > 0 {
        lemma_split_nonempty(text.drop_last(), at);
    }
}

/// More text without the character makes the last piece longer and leaves
/// the others as they are.
pub proof fn lemma_split_extend(prefix: Seq<char>, part: Seq<char>, at: char)
    requires
        !part.contains(at),
    ensures
        split(prefix, at).len() > 0,
        split(prefix + part, at) == split(prefix, at).drop_last().push(
            split(prefix, at).last() + part,
        ),
    decreases part.len(),
{
    let pieces = split(prefix, at);
    lemma_split_nonempty(prefix, at);
    if part.len() == 0 {
        assert(prefix + part =~= prefix);
        assert(pieces.last() + part =~= pieces.last());
        assert(pieces.drop_last().push(pieces.last()) =~= pieces);
    } else {
        let shorter = part.drop_last();
        let c = part.last();
        assert(c != at) by {
            assert(part[part.len() - 1] == c);
        }
        assert(!shorter.contains(at)) by {
            if shorter.contains(at) {
                let i = choose|i: int| 0 <= i < shorter.len() && shorter[i] == at;
                assert(part[i] == at);
            }
        }
        lemma_split_extend(prefix, shorter, at);
        let whole = prefix + part;
        assert(whole.drop_last() =~= prefix + shorter);
        assert(whole.last() == c);
        let before = split(prefix + shorter, at);
        assert(before.drop_last() =~= pieces.drop_last());
        assert(before.last().push(c) =~= pieces.last() + part);
    }
}

/// Parts that do not hold the separating character are the pieces of the
/// text that they make when joined by it.
pub proof fn lemma_split_of_joined(parts: Seq<Seq<char>>, at: char)
    requires
        parts.len() > 0,
        forall|i: int| 0 <= i < parts.len() ==> !(#[trigger] parts[i]).contains(at),
    ensures
        split(joined(parts, seq![at]), at) == parts,
    decreases parts.len(),
{
    let empty = Seq::<char>::empty();
    if parts.len() == 1 {
        lemma_split_extend(empty, parts[0], at);
        assert(empty + parts[0] =~= parts[0]);
        assert(split(empty, at) =~= seq![empty]);
        assert(split(parts[0], at) =~= parts);
    } else {
        let front = parts.drop_last();
        assert forall|i: int| 0 <= i < front.len() implies !(#[trigger] front[i]).contains(at) by {
            assert(front[i] == parts[i]);
        }
        lemma_split_of_joined(front, at);
        let head = joined(front, seq![at]) + seq![at];
        assert(head.drop_last() =~= joined(front, seq![at]));
        assert(head.last() == at);
        assert(split(head, at) == front.push(empty));
        lemma_split_extend(head, parts.last(), at);
        assert(front.push(empty).drop_last() =~= front);
        assert(empty + parts.last() =~= parts.last());
        assert(front.push(parts.last()) =~= parts);
    }
}

/// Lines without a newline in them are the lines of the text that they
/// make when joined.
pub proof fn lemma_lines_of_joined(lines: Seq<Seq<char>>)
    requires
        lines.len() > 0,
        forall|i: int| 0 <= i < lines.len() ==> one_line(#[trigger] lines[i]),
    ensures
        lines_of(join_lines(lines)) == lines,
{
    reveal_strlit("\n");
    assert("\n"@ =~= seq!['\n']);
    lemma_split_of_joined(lines, '\n');
}

/// Two texts of one line make a text of one line.
pub proof fn lemma_one_line_joined(left: Seq<char>, right: Seq<char>)
    requires
        one_line(left),
        one_line(right),
    ensures
        one_line(left + right),
{
    let c = '\n';
    let whole = left + right;
    if whole.contains(c) {
        let i = choose|i: int| 0 <= i < whole.len() && whole[i] == c;
        if i < left.len() {
            assert(left[i] == c);
        } else {
            assert(right[i - left.len()] == c);
        }
    }
}

} // verus!
