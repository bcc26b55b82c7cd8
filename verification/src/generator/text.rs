//! Text helpers of the renderer: removal of the `"< "` marker from a line.

use std::str::Chars;
use vstd::prelude::*;
use vstd::std_specs::iter::IteratorSpec;

verus! {

/// Whether the two characters `"< "` stand at position `i` of `s`.
pub open spec fn marker_at(s: Seq<char>, i: int) -> bool {
    0 <= i && i + 1 < s.len() && s[i] == '<' && s[i + 1] == ' '
}

/// `s` with every `"< "` removed, reading from the left.
pub open spec fn strip_marker(s: Seq<char>) -> Seq<char>
    decreases s.len(),
{
    if s.len() < 2 {
        s
    } else if s[0] == '<' && s[1] == ' ' {
        strip_marker(s.skip(2))
    } else {
        seq![s[0]] + strip_marker(s.skip(1))
    }
}

/// The position behind the markers that stand one after the other from `i` on.
pub open spec fn after_markers(s: Seq<char>, i: int) -> int
    decreases s.len() - i,
{
    if marker_at(s, i) {
        after_markers(s, i + 2)
    } else {
        i
    }
}

/// Whether taking the markers out brings a `'<'` and a space together: at `i` stands a
/// `'<'`, behind it one marker or more, and behind the last of them a space.
pub open spec fn closes_up_at(s: Seq<char>, i: int) -> bool {
    0 <= i < s.len() && s[i] == '<' && marker_at(s, i + 1) && after_markers(s, i + 1) < s.len()
        && s[after_markers(s, i + 1)] == ' '
}

/// A text without a marker is left as it is.
pub proof fn lemma_strip_unmarked(s: Seq<char>)
    requires
        forall|i: int| !marker_at(s, i),
    ensures
        strip_marker(s) == s,
    decreases s.len(),
{
    if s.len() >= 2 {
        let tail = s.skip(1);
        assert(!marker_at(s, 0));
        assert forall|i: int| !marker_at(tail, i) by {
            assert(!marker_at(s, i + 1));
        }
        lemma_strip_unmarked(tail);
        assert(seq![s[0]] + tail =~= s);
    }
}

/// Two texts one after the other are stripped each for itself, unless a marker is
/// made of the last character of the first and the first character of the second.
pub proof fn lemma_strip_concat(a: Seq<char>, b: Seq<char>)
    requires
        !(a.len() > 0 && a.last() == '<' && b.len() > 0 && b[0] == ' '),
    ensures
        strip_marker(a + b) == strip_marker(a) + strip_marker(b),
    decreases a.len(),
{
    let whole = a + b;
    if a.len() == 0 {
        assert(whole =~= b);
        assert(strip_marker(a) + strip_marker(b) =~= strip_marker(b));
    } else if a.len() == 1 {
        assert(whole.skip(1) =~= b);
        if b.len() == 0 {
            assert(whole =~= a);
            assert(strip_marker(a) + strip_marker(b) =~= strip_marker(a));
        } else {
            assert(whole[1] == b[0]);
        }
    } else if a[0] == '<' && a[1] == ' ' {
        assert(whole.skip(2) =~= a.skip(2) + b);
        lemma_strip_concat(a.skip(2), b);
    } else {
        assert(whole.skip(1) =~= a.skip(1) + b);
        lemma_strip_concat(a.skip(1), b);
        assert(seq![a[0]] + (strip_marker(a.skip(1)) + strip_marker(b)) =~= (seq![a[0]]
            + strip_marker(a.skip(1))) + strip_marker(b));
    }
}

/// A marker between two texts is taken out, wherever it stands.
pub proof fn lemma_strip_removes_marker(a: Seq<char>, b: Seq<char>)
    ensures
        strip_marker(a + "< "@ + b) == strip_marker(a) + strip_marker(b),
{
    reveal_strlit("< ");
    let marker = "< "@;
    assert((marker + b).skip(2) =~= b);
    assert(strip_marker(marker + b) == strip_marker(b));
    lemma_strip_concat(a, marker + b);
    assert(a + marker + b =~= a + (marker + b));
}

/// The markers that stand one after the other from `i` on end at `i` or behind it.
proof fn lemma_after_markers_bound(s: Seq<char>, i: int)
    ensures
        after_markers(s, i) >= i,
    decreases s.len() - i,
{
    if marker_at(s, i) {
        lemma_after_markers_bound(s, i + 2);
    }
}

/// The first character that is left is the one behind the leading markers.
proof fn lemma_strip_first(s: Seq<char>)
    ensures
        after_markers(s, 0) >= s.len() ==> strip_marker(s).len() == 0,
        0 <= after_markers(s, 0) < s.len() ==> strip_marker(s).len() > 0 && strip_marker(s)[0]
            == s[after_markers(s, 0)],
    decreases s.len(),
{
    if marker_at(s, 0) {
        let tail = s.skip(2);
        lemma_strip_first(tail);
        lemma_after_markers_skip(s, 2, 0);
        lemma_after_markers_bound(tail, 0);
        let behind = after_markers(tail, 0);
        assert(after_markers(s, 0) == 2 + behind);
        if 0 <= behind < tail.len() {
            assert(tail[behind] == s[2 + behind]);
        }
    } else {
        assert(after_markers(s, 0) == 0);
        if s.len() >= 2 {
            assert(strip_marker(s) == seq![s[0]] + strip_marker(s.skip(1)));
        }
    }
}

/// Markers are found in the rest of a text where they stand in the text.
proof fn lemma_after_markers_skip(s: Seq<char>, n: int, i: int)
    requires
        0 <= n <= s.len(),
        0 <= i,
    ensures
        after_markers(s, n + i) == n + after_markers(s.skip(n), i),
    decreases s.len() - i,
{
    let tail = s.skip(n);
    assert(marker_at(s, n + i) == marker_at(tail, i));
    if marker_at(tail, i) {
        lemma_after_markers_skip(s, n, i + 2);
    }
}

/// No marker is left in the text, unless taking the markers out brings a `'<'` and a
/// space together.
pub proof fn lemma_strip_leaves_no_marker(s: Seq<char>)
    requires
        forall|i: int| !closes_up_at(s, i),
    ensures
        forall|j: int| !marker_at(strip_marker(s), j),
    decreases s.len(),
{
    if s.len() >= 2 {
        let n: int = if marker_at(s, 0) {
            2
        } else {
            1
        };
        let tail = s.skip(n);
        assert forall|i: int| !closes_up_at(tail, i) by {
            if closes_up_at(tail, i) {
                lemma_after_markers_skip(s, n, i + 1);
                lemma_after_markers_bound(tail, i + 1);
                let behind = after_markers(tail, i + 1);
                assert(tail[i] == s[n + i]);
                assert(tail[behind] == s[n + behind]);
                assert(marker_at(s, n + i + 1)) by {
                    assert(tail[i + 1] == s[n + i + 1]);
                    assert(tail[i + 2] == s[n + i + 2]);
                }
                assert(closes_up_at(s, n + i));
            }
        }
        lemma_strip_leaves_no_marker(tail);
        if marker_at(s, 0) {
            assert(strip_marker(s) == strip_marker(tail));
        } else {
            let kept = strip_marker(tail);
            assert(strip_marker(s) == seq![s[0]] + kept);
            let all = strip_marker(s);
            assert forall|j: int| !marker_at(all, j) by {
                if marker_at(all, j) {
                    if j >= 1 {
                        assert(all[j] == kept[j - 1]);
                        assert(all[j + 1] == kept[j]);
                        assert(marker_at(kept, j - 1));
                    } else {
                        assert(all[0] == s[0]);
                        assert(all[1] == kept[0]);
                        lemma_strip_first(tail);
                        lemma_after_markers_skip(s, 1, 0);
                        lemma_after_markers_bound(tail, 0);
                        let behind = after_markers(tail, 0);
                        assert(behind < tail.len());
                        assert(tail[behind] == s[1 + behind]);
                        assert(marker_at(s, 1)) by {
                            if !marker_at(tail, 0) {
                                assert(behind == 0);
                                assert(s[1] == ' ');
                            }
                        }
                        assert(closes_up_at(s, 0));
                    }
                }
            }
        }
    } else {
        assert(strip_marker(s) == s);
    }
}

/// Where taking the markers out brings a `'<'` and a space together, the two are left
/// as a marker.
pub proof fn lemma_strip_leaves_marker(s: Seq<char>, i: int)
    requires
        closes_up_at(s, i),
    ensures
        exists|j: int| marker_at(strip_marker(s), j),
    decreases s.len(),
{
    let n: int = if marker_at(s, 0) {
        2
    } else {
        1
    };
    let tail = s.skip(n);
    let kept = strip_marker(tail);
    if i >= n {
        lemma_after_markers_skip(s, n, i - n + 1);
        lemma_after_markers_bound(tail, i - n + 1);
        let behind = after_markers(tail, i - n + 1);
        assert(tail[i - n] == s[i]);
        assert(tail[i - n + 1] == s[i + 1]);
        assert(tail[i - n + 2] == s[i + 2]);
        assert(tail[behind] == s[n + behind]);
        assert(closes_up_at(tail, i - n));
        lemma_strip_leaves_marker(tail, i - n);
        let j = choose|j: int| marker_at(kept, j);
        if n == 2 {
            assert(marker_at(strip_marker(s), j));
        } else {
            let all = strip_marker(s);
            assert(all == seq![s[0]] + kept);
            assert(all[j + 1] == kept[j]);
            assert(all[j + 2] == kept[j + 1]);
            assert(marker_at(all, j + 1));
        }
    } else {
        assert(i == 0 && n == 1);
        lemma_strip_first(tail);
        lemma_after_markers_skip(s, 1, 0);
        lemma_after_markers_bound(tail, 0);
        let behind = after_markers(tail, 0);
        assert(tail[behind] == s[1 + behind]);
        let all = strip_marker(s);
        assert(all == seq![s[0]] + kept);
        assert(all[1] == kept[0]);
        assert(marker_at(all, 0));
    }
}

/// Appends one character to `out` with `String::push`. Not proved here: that the
/// text afterwards is the text before with `c` behind it.
#[verifier::external_body]
fn push_char(out: &mut String, c: char)
    ensures
        final(out)@ == old(out)@.push(c),
{
    out.push(c);
}

/// What is still to be written when `held` says that a `'<'` was read and not yet written.
pub open spec fn pending(held: bool, rest: Seq<char>) -> Seq<char> {
    if held {
        seq!['<'] + rest
    } else {
        rest
    }
}

/// One step of the scan, by the next character to be read, `rest[0]`.
proof fn lemma_strip_step(held: bool, rest: Seq<char>)
    requires
        rest.len() > 0,
    ensures
        held && rest[0] == ' ' ==> strip_marker(pending(held, rest)) == strip_marker(
            rest.drop_first(),
        ),
        held && rest[0] == '<' ==> strip_marker(pending(held, rest)) == seq!['<'] + strip_marker(
            pending(true, rest.drop_first()),
        ),
        held && rest[0] != ' ' && rest[0] != '<' ==> strip_marker(pending(held, rest)) == seq![
            '<',
            rest[0],
        ] + strip_marker(rest.drop_first()),
        !held && rest[0] == '<' ==> strip_marker(pending(held, rest)) == strip_marker(
            pending(true, rest.drop_first()),
        ),
        !held && rest[0] != '<' ==> strip_marker(pending(held, rest)) == seq![rest[0]]
            + strip_marker(rest.drop_first()),
{
    let tail = rest.drop_first();
    let p = pending(held, rest);
    assert(rest.skip(1) =~= tail);
    assert(strip_marker(rest) == if rest[0] == '<' && rest.len() >= 2 && rest[1] == ' ' {
        strip_marker(rest.skip(2))
    } else {
        seq![rest[0]] + strip_marker(tail)
    }) by {
        if rest.len() < 2 {
            assert(tail =~= Seq::<char>::empty());
            assert(rest =~= seq![rest[0]] + strip_marker(tail));
        }
    }
    if held {
        assert(p.skip(1) =~= rest);
        assert(p.skip(2) =~= tail);
        if rest[0] == '<' {
            assert(pending(true, tail) =~= rest);
        } else if rest[0] != ' ' {
            assert(seq!['<'] + (seq![rest[0]] + strip_marker(tail)) =~= seq!['<', rest[0]]
                + strip_marker(tail));
        }
    } else if rest[0] == '<' {
        assert(pending(true, tail) =~= rest);
    }
}

/// Copies `line` without its `"< "` markers.
pub fn strip_line(line: &str) -> (out: String)
    ensures
        out@ == strip_marker(line@),
{
    let mut out = String::new();
    let mut held = false;
    let mut it: Chars<'_> = line.chars();
    let ghost mut read: int = 0;

    broadcast use {vstd::string::axiom_spec_iter, vstd::string::next_postcondition};

    assert(line@.skip(0) =~= line@);
    loop
        invariant
            it.obeys_prophetic_iter_laws(),
            it.decrease() is Some,
            0 <= read <= line@.len(),
            it.remaining() == line@.skip(read),
            strip_marker(line@) == out@ + strip_marker(pending(held, line@.skip(read))),
        decreases it.decrease()->0,
    {
        let ghost written = out@;
        let ghost rest = line@.skip(read);
        match it.next() {
            None => {
                if held {
                    push_char(&mut out, '<');
                }
                assert(out@ =~= strip_marker(line@));
                return out;
            },
            Some(c) => {
                proof {
                    lemma_strip_step(held, rest);
                    assert(rest.drop_first() =~= line@.skip(read + 1));
                    read = read + 1;
                }
                if held {
                    if c == ' ' {
                        held = false;
                    } else if c == '<' {
                        push_char(&mut out, '<');
                        assert(out@ =~= written + seq!['<']);
                    } else {
                        push_char(&mut out, '<');
                        push_char(&mut out, c);
                        held = false;
                        assert(out@ =~= written + seq!['<', c]);
                    }
                } else {
                    if c == '<' {
                        held = true;
                    } else {
                        push_char(&mut out, c);
                        assert(out@ =~= written + seq![c]);
                    }
                }
                assert(strip_marker(line@) =~= out@ + strip_marker(
                    pending(held, line@.skip(read)),
                ));
            },
        }
    }
}

} // verus!
