//! The mathematical model of line capture: how a stream of characters
//! decomposes into completed lines and a pending, unterminated fragment.
//!
//! A line is completed by a newline character and carries no terminator
//! itself. A fragment that the stream ends with before a newline arrives
//! is never delivered as a line: end-of-stream drops it.

use vstd::prelude::*;

verus! {

/// The lines completed, and the pending unterminated fragment, after
/// consuming the character stream `s`.
pub open spec fn split_state(s: Seq<char>) -> (Seq<Seq<char>>, Seq<char>)
    decreases s.len(),
{
    if s.len() == 0 {
        (Seq::<Seq<char>>::empty(), Seq::<char>::empty())
    } else {
        let prev = split_state(s.drop_last());
        if s.last() == '\n' {
            (prev.0.push(prev.1), Seq::<char>::empty())
        } else {
            (prev.0, prev.1.push(s.last()))
        }
    }
}

/// The sequence of completed lines inside the character stream `s`.
pub open spec fn complete_lines(s: Seq<char>) -> Seq<Seq<char>> {
    split_state(s).0
}

/// The trailing fragment of `s` that no newline has completed yet.
pub open spec fn pending_fragment(s: Seq<char>) -> Seq<char> {
    split_state(s).1
}

/// The character stream that a child writing `lines`, each followed by
/// a newline, produces.
pub open spec fn join_lines(lines: Seq<Seq<char>>) -> Seq<char>
    decreases lines.len(),
{
    if lines.len() == 0 {
        Seq::<char>::empty()
    } else {
        join_lines(lines.drop_last()) + lines.last() + seq!['\n']
    }
}

/// True when no line in `lines` contains a newline itself, which is
/// what makes a sequence of lines recoverable from the joined stream.
pub open spec fn newline_free(lines: Seq<Seq<char>>) -> bool {
    forall|i: int| 0 <= i < lines.len() ==> !(#[trigger] lines[i]).contains('\n')
}

/// How one more character moves the split state: a newline completes
/// the pending fragment into a line, any other character extends it.
pub proof fn lemma_split_state_step(s: Seq<char>, c: char)
    ensures
        c == '\n' ==> complete_lines(s.push(c)) == complete_lines(s).push(pending_fragment(s))
            && pending_fragment(s.push(c)) == Seq::<char>::empty(),
        c != '\n' ==> complete_lines(s.push(c)) == complete_lines(s) && pending_fragment(
            s.push(c),
        ) == pending_fragment(s).push(c),
{
    assert(s.push(c).drop_last() =~= s);
    assert(s.push(c).last() == c);
}

/// Appending a newline-free fragment completes no line: it only grows
/// the pending fragment. In particular a stream that ends in such a
/// fragment delivers the same lines as one that ends before it.
pub proof fn lemma_append_fragment(s: Seq<char>, frag: Seq<char>)
    requires
        !frag.contains('\n'),
    ensures
        complete_lines(s + frag) == complete_lines(s),
        pending_fragment(s + frag) == pending_fragment(s) + frag,
    decreases frag.len(),
{
    if frag.len() == 0 {
        assert(s + frag =~= s);
        assert(pending_fragment(s) + frag =~= pending_fragment(s));
    } else {
        let shorter = frag.drop_last();
        assert(!shorter.contains('\n')) by {
            assert(forall|i: int|
                0 <= i < shorter.len() ==> #[trigger] shorter[i] == frag[i]);
        }
        lemma_append_fragment(s, shorter);
        assert(s + frag =~= (s + shorter).push(frag.last()));
        assert(frag[frag.len() - 1] != '\n');
        lemma_split_state_step(s + shorter, frag.last());
        assert(pending_fragment(s) + frag =~= (pending_fragment(s) + shorter).push(frag.last()));
    }
}

/// Appending the newline that completes the pending fragment turns it
/// into the stream's next line and leaves nothing pending.
pub proof fn lemma_append_newline(s: Seq<char>)
    ensures
        complete_lines(s.push('\n')) == complete_lines(s).push(pending_fragment(s)),
        pending_fragment(s.push('\n')) == Seq::<char>::empty(),
{
    lemma_split_state_step(s, '\n');
}

/// Capture is exact: a child that writes `lines`, each line free of
/// newlines and followed by one, is read back as exactly those lines,
/// in order, with nothing pending. This is the round trip between
/// writing lines into a stream and splitting the stream into lines.
pub proof fn lemma_lines_round_trip(lines: Seq<Seq<char>>)
    requires
        newline_free(lines),
    ensures
        complete_lines(join_lines(lines)) == lines,
        pending_fragment(join_lines(lines)) == Seq::<char>::empty(),
    decreases lines.len(),
{
    if lines.len() == 0 {
        assert(complete_lines(join_lines(lines)) =~= lines);
    } else {
        let pre = lines.drop_last();
        let l = lines.last();
        assert(newline_free(pre)) by {
            assert(forall|i: int| 0 <= i < pre.len() ==> #[trigger] pre[i] == lines[i]);
        }
        lemma_lines_round_trip(pre);
        assert(!l.contains('\n'));
        lemma_append_fragment(join_lines(pre), l);
        assert(pending_fragment(join_lines(pre)) + l =~= l);
        lemma_append_newline(join_lines(pre) + l);
        assert(join_lines(pre) + l + seq!['\n'] =~= (join_lines(pre) + l).push('\n'));
        assert(complete_lines(join_lines(lines)) =~= lines);
    }
}

} // verus!
