use vstd::prelude::*;

verus! {

/// Whether `p` occurs at the very front of `s`.
pub open spec fn starts_with(s: Seq<char>, p: Seq<char>) -> bool {
    p.len() <= s.len() && s.take(p.len() as int) == p
}

/// Whether `p` occurs anywhere inside `s`.
pub open spec fn contains_seq(s: Seq<char>, p: Seq<char>) -> bool
    decreases s.len(),
{
    starts_with(s, p) || (s.len() > 0 && contains_seq(s.skip(1), p))
}

/// The text obtained by replacing every occurrence of `from` in `s` with `to`,
/// scanning left to right and never rescanning replaced text, exactly as
/// `str::replace` does.  An empty pattern matches at every character boundary,
/// including both ends.
pub open spec fn replace_all_spec(s: Seq<char>, from: Seq<char>, to: Seq<char>) -> Seq<char>
    decreases s.len(),
{
    if from.len() == 0 {
        if s.len() == 0 {
            to
        } else {
            to + seq![s[0]] + replace_all_spec(s.skip(1), from, to)
        }
    } else if s.len() < from.len() {
        s
    } else if starts_with(s, from) {
        to + replace_all_spec(s.skip(from.len() as int), from, to)
    } else {
        seq![s[0]] + replace_all_spec(s.skip(1), from, to)
    }
}

/// Whether `needle` occurs in `hay` at position `at`.
fn matches_at(hay: &Vec<char>, at: usize, needle: &Vec<char>) -> (r: bool)
    requires
        at + needle@.len() <= hay@.len(),
    ensures
        r == (hay@.subrange(at as int, at + needle@.len()) == needle@),
{
    let hay_len = hay.len();
    let mut j: usize = 0;
    while j < needle.len()
        invariant
            hay_len == hay@.len(),
            at + needle@.len() <= hay@.len(),
            j <= needle@.len(),
            forall|k: int| 0 <= k < j ==> hay@[at + k] == needle@[k],
        decreases needle@.len() - j,
    {
        if hay[at + j] != needle[j] {
            proof {
                assert(hay@.subrange(at as int, at + needle@.len())[j as int] != needle@[j as int]);
            }
            return false;
        }
        j = j + 1;
    }
    proof {
        assert(hay@.subrange(at as int, at + needle@.len()) =~= needle@);
    }
    true
}

/// Replaces every occurrence of `from` in `s` with `to`, as `str::replace` does.
pub fn replace_all(s: &Vec<char>, from: &Vec<char>, to: &Vec<char>) -> (r: Vec<char>)
    ensures
        r@ == replace_all_spec(s@, from@, to@),
{
    if from.len() == 0 {
        let mut out: Vec<char> = to.clone();
        let mut i: usize = 0;
        proof {
            assert(from@ =~= Seq::<char>::empty());
            assert(s@.skip(0) =~= s@);
            lemma_empty_pattern_shape(s@, 0, to@);
        }
        while i < s.len()
            invariant
                i <= s@.len(),
                from@.len() == 0,
                replace_all_spec(s@, from@, to@) == out@ + empty_tail(s@, i as int, to@),
            decreases s@.len() - i,
        {
            let ghost out0 = out@;
            out.push(s[i]);
            out.extend_from_slice(to.as_slice());
            proof {
                assert(out@ =~= out0 + seq![s@[i as int]] + to@);
                assert(empty_tail(s@, i as int, to@) == seq![s@[i as int]] + to@ + empty_tail(
                    s@,
                    i + 1,
                    to@,
                ));
                assert(out0 + empty_tail(s@, i as int, to@) =~= out@ + empty_tail(
                    s@,
                    i + 1,
                    to@,
                ));
            }
            i = i + 1;
        }
        proof {
            assert(out@ + empty_tail(s@, i as int, to@) =~= out@);
        }
        out
    } else {
        let mut out: Vec<char> = Vec::new();
        let mut i: usize = 0;
        proof {
            assert(s@.skip(0) =~= s@);
            assert(Seq::<char>::empty() + replace_all_spec(s@, from@, to@) =~= replace_all_spec(
                s@,
                from@,
                to@,
            ));
        }
        while i < s.len()
            invariant
                i <= s@.len(),
                from@.len() > 0,
                replace_all_spec(s@, from@, to@) == out@ + replace_all_spec(
                    s@.skip(i as int),
                    from@,
                    to@,
                ),
            decreases s@.len() - i,
        {
            proof {
                assert(s@.skip(i as int).len() == s@.len() - i);
            }
            if from.len() <= s.len() - i && matches_at(s, i, from) {
                proof {
                    assert(s@.skip(i as int).take(from@.len() as int) =~= s@.subrange(
                        i as int,
                        i + from@.len(),
                    ));
                    assert(s@.skip(i as int).skip(from@.len() as int) =~= s@.skip(
                        i + from@.len(),
                    ));
                }
                let ghost out0 = out@;
                out.extend_from_slice(to.as_slice());
                proof {
                    assert(out0 + replace_all_spec(s@.skip(i as int), from@, to@) =~= out@
                        + replace_all_spec(s@.skip(i + from@.len()), from@, to@));
                }
                i = i + from.len();
            } else {
                proof {
                    if i + from@.len() <= s@.len() {
                        assert(s@.skip(i as int).take(from@.len() as int) =~= s@.subrange(
                            i as int,
                            i + from@.len(),
                        ));
                    }
                    assert(s@.skip(i as int).skip(1) =~= s@.skip(i + 1));
                    assert(s@.skip(i as int)[0] == s@[i as int]);
                }
                let ghost out0 = out@;
                out.push(s[i]);
                proof {
                    assert(out@ =~= out0 + seq![s@[i as int]]);
                    assert(out0 + replace_all_spec(s@.skip(i as int), from@, to@) =~= out@
                        + replace_all_spec(s@.skip(i + 1), from@, to@));
                }
                i = i + 1;
            }
        }
        proof {
            assert(s@.skip(s@.len() as int) =~= Seq::<char>::empty());
            assert(out@ + replace_all_spec(s@.skip(s@.len() as int), from@, to@) =~= out@);
        }
        out
    }
}

/// What is still to be appended when the empty pattern has been interleaved up
/// to position `i`: the remaining characters of `s`, each followed by `to`.
pub open spec fn empty_tail(s: Seq<char>, i: int, to: Seq<char>) -> Seq<char>
    decreases s.len() - i,
{
    if i < 0 || i >= s.len() {
        Seq::empty()
    } else {
        seq![s[i]] + to + empty_tail(s, i + 1, to)
    }
}

/// If the non-empty pattern `p` occurs nowhere in `s`, replacing it changes nothing.
pub proof fn lemma_replace_absent(s: Seq<char>, p: Seq<char>, to: Seq<char>)
    requires
        p.len() > 0,
        !contains_seq(s, p),
    ensures
        replace_all_spec(s, p, to) == s,
    decreases s.len(),
{
    if s.len() < p.len() {
    } else {
        lemma_replace_absent(s.skip(1), p, to);
        assert(seq![s[0]] + s.skip(1) =~= s);
    }
}

/// The occurrences of `b` in `s` are exactly those that replacing `a` by `b`
/// inserts: outside the replaced occurrences of `a`, the text never shows `b`,
/// neither before nor after the replacement.  This is the precise sense in
/// which `a` and `b` have no overlap with the unrelated parts of `s`.
pub open spec fn round_trip_safe(s: Seq<char>, a: Seq<char>, b: Seq<char>) -> bool
    decreases s.len(),
{
    if a.len() == 0 {
        false
    } else if s.len() < a.len() {
        !contains_seq(s, b)
    } else if starts_with(s, a) {
        round_trip_safe(s.skip(a.len() as int), a, b)
    } else {
        !starts_with(replace_all_spec(s, a, b), b) && round_trip_safe(s.skip(1), a, b)
    }
}

/// Replacing `a` by `b` and then `b` by `a` restores the original text,
/// whenever `b` appears in the text only where the first replacement put it.
pub proof fn lemma_replace_round_trip(s: Seq<char>, a: Seq<char>, b: Seq<char>)
    requires
        a.len() > 0,
        b.len() > 0,
        round_trip_safe(s, a, b),
    ensures
        replace_all_spec(replace_all_spec(s, a, b), b, a) == s,
    decreases s.len(),
{
    let t = replace_all_spec(s, a, b);
    if s.len() < a.len() {
        lemma_replace_absent(s, b, a);
    } else if starts_with(s, a) {
        let s1 = s.skip(a.len() as int);
        let t1 = replace_all_spec(s1, a, b);
        lemma_replace_round_trip(s1, a, b);
        assert(t == b + t1);
        assert(starts_with(t, b)) by {
            assert((b + t1).take(b.len() as int) =~= b);
        }
        assert(t.skip(b.len() as int) =~= t1);
        assert(a + s1 =~= s);
    } else {
        let s1 = s.skip(1);
        let t1 = replace_all_spec(s1, a, b);
        lemma_replace_round_trip(s1, a, b);
        assert(t == seq![s[0]] + t1);
        assert(seq![s[0]] + s1 =~= s);
        if t.len() < b.len() {
            assert(t1.len() < b.len());
            assert(replace_all_spec(t1, b, a) == t1);
        } else {
            assert(t.skip(1) =~= t1);
            assert(t[0] == s[0]);
            assert(seq![t[0]] + replace_all_spec(t1, b, a) =~= s);
        }
    }
}

/// Replacement leaves a prefix alone when no occurrence of the pattern begins
/// inside it.
pub proof fn lemma_replace_skip_prefix(u: Seq<char>, v: Seq<char>, p: Seq<char>, q: Seq<char>)
    requires
        p.len() > 0,
        forall|i: int| 0 <= i < u.len() ==> !starts_with(#[trigger] (u + v).skip(i), p),
    ensures
        replace_all_spec(u + v, p, q) == u + replace_all_spec(v, p, q),
    decreases u.len(),
{
    if u.len() == 0 {
        assert(u + v =~= v);
        assert(u + replace_all_spec(v, p, q) =~= replace_all_spec(v, p, q));
    } else {
        let w = u + v;
        assert(w.skip(0) =~= w);
        assert(!starts_with(w, p));
        if w.len() < p.len() {
            assert(replace_all_spec(v, p, q) == v);
        } else {
            assert(w.skip(1) =~= u.skip(1) + v);
            assert forall|i: int|
                0 <= i < u.skip(1).len() implies !starts_with(
                #[trigger] (u.skip(1) + v).skip(i),
                p,
            ) by {
                assert((u.skip(1) + v).skip(i) =~= w.skip(i + 1));
            };
            lemma_replace_skip_prefix(u.skip(1), v, p, q);
            assert(w[0] == u[0]);
            assert(seq![u[0]] + (u.skip(1) + replace_all_spec(v, p, q)) =~= u + replace_all_spec(
                v,
                p,
                q,
            ));
        }
    }
}

/// One piece of a decomposed text: a run of inert text, or one marked
/// occurrence of the identifier form with the given slot.
pub enum TextPiece {
    Inert { text: Seq<char> },
    Marked { slot: int },
}

/// The text one piece shows under the form assignment `forms`.
pub open spec fn piece_text(piece: TextPiece, forms: Seq<Seq<char>>) -> Seq<char> {
    match piece {
        TextPiece::Inert { text } => text,
        TextPiece::Marked { slot } => forms[slot],
    }
}

/// Every marked piece refers to one of the `n` form slots.
pub open spec fn wf_pieces(pieces: Seq<TextPiece>, n: int) -> bool {
    forall|j: int|
        0 <= j < pieces.len() ==> ((#[trigger] pieces[j]) is Marked ==> 0 <= pieces[j]->Marked_slot
            < n)
}

/// The pieces pasted back together under the form assignment.
pub open spec fn paste(pieces: Seq<TextPiece>, forms: Seq<Seq<char>>) -> Seq<char>
    decreases pieces.len(),
{
    if pieces.len() == 0 {
        Seq::empty()
    } else {
        piece_text(pieces[0], forms) + paste(pieces.skip(1), forms)
    }
}

/// Under the assignment `forms`, the pattern `forms[slot]` occurs in the
/// pasted text exactly as the pieces marked with `slot`: no occurrence of it
/// begins at a position belonging to any other piece.
pub open spec fn clean_for(pieces: Seq<TextPiece>, forms: Seq<Seq<char>>, slot: int) -> bool
    decreases pieces.len(),
{
    if pieces.len() == 0 {
        true
    } else {
        let rest_ok = clean_for(pieces.skip(1), forms, slot);
        if pieces[0] == (TextPiece::Marked { slot }) {
            rest_ok
        } else {
            rest_ok && forall|i: int|
                0 <= i < piece_text(pieces[0], forms).len() ==> !starts_with(
                    #[trigger] paste(pieces, forms).skip(i),
                    forms[slot],
                )
        }
    }
}

/// One replacement pass over a decomposed text: replacing `forms[slot]` by
/// `new_forms[slot]` turns exactly the pieces marked with `slot`, and the
/// pasted text of the pieces under the updated assignment comes out.
pub proof fn lemma_replace_paste(
    pieces: Seq<TextPiece>,
    forms: Seq<Seq<char>>,
    new_forms: Seq<Seq<char>>,
    slot: int,
)
    requires
        0 <= slot < forms.len(),
        new_forms.len() == forms.len(),
        forall|s: int| 0 <= s < forms.len() && s != slot ==> new_forms[s] == forms[s],
        forms[slot].len() > 0,
        wf_pieces(pieces, forms.len() as int),
        clean_for(pieces, forms, slot),
    ensures
        replace_all_spec(paste(pieces, forms), forms[slot], new_forms[slot]) == paste(
            pieces,
            new_forms,
        ),
    decreases pieces.len(),
{
    let p = forms[slot];
    let q = new_forms[slot];
    if pieces.len() == 0 {
    } else {
        let head = piece_text(pieces[0], forms);
        let rest = pieces.skip(1);
        assert(forall|j: int| 0 <= j < rest.len() ==> #[trigger] rest[j] == pieces[j + 1]);
        lemma_replace_paste(rest, forms, new_forms, slot);
        if pieces[0] == (TextPiece::Marked { slot }) {
            let x = paste(rest, forms);
            assert((p + x).take(p.len() as int) =~= p);
            assert((p + x).skip(p.len() as int) =~= x);
            assert(starts_with(p + x, p));
            assert(replace_all_spec(p + x, p, q) == q + replace_all_spec(x, p, q));
        } else {
            assert(piece_text(pieces[0], new_forms) == head);
            assert forall|i: int|
                0 <= i < head.len() implies !starts_with(
                #[trigger] (head + paste(rest, forms)).skip(i),
                p,
            ) by {
                assert(!starts_with(paste(pieces, forms).skip(i), p));
            };
            lemma_replace_skip_prefix(head, paste(rest, forms), p, q);
        }
    }
}

/// Relates the empty-pattern branch of `replace_all_spec` to `empty_tail`.
proof fn lemma_empty_pattern_shape(s: Seq<char>, i: int, to: Seq<char>)
    requires
        0 <= i <= s.len(),
    ensures
        replace_all_spec(s.skip(i), Seq::empty(), to) == to + empty_tail(s, i, to),
    decreases s.len() - i,
{
    if i == s.len() {
        assert(s.skip(i) =~= Seq::<char>::empty());
    } else {
        lemma_empty_pattern_shape(s, i + 1, to);
        assert(s.skip(i).skip(1) =~= s.skip(i + 1));
        assert(s.skip(i)[0] == s[i]);
        assert(to + seq![s[i]] + (to + empty_tail(s, i + 1, to)) =~= to + empty_tail(s, i, to));
    }
}

} // verus!
