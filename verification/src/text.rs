use vstd::prelude::*;

verus! {

/// Whether `c` counts as whitespace, exactly as `char::is_whitespace` decides it.
pub uninterp spec fn char_is_whitespace(c: char) -> bool;

/// Relies on char::is_whitespace: the result depends on the character alone.
#[verifier::external_body]
pub fn is_whitespace(c: char) -> (r: bool)
    ensures
        r == char_is_whitespace(c),
{
    c.is_whitespace()
}

/// Relies on String::push: appends the given character to the end of the string.
#[verifier::external_body]
pub fn push_char(s: &mut String, c: char)
    ensures
        final(s)@ == old(s)@.push(c),
{
    s.push(c)
}

/// Collects the characters of a string slice into a vector.
pub fn chars_of(s: &str) -> (r: Vec<char>)
    ensures
        r@ == s@,
{
    let len = s.unicode_len();
    let mut r: Vec<char> = Vec::new();
    let mut i: usize = 0;
    while i < len
        invariant
            len == s@.len(),
            i <= len,
            r@ == s@.take(i as int),
        decreases len - i,
    {
        r.push(s.get_char(i));
        i = i + 1;
        proof {
            assert(s@.take(i as int) =~= s@.take(i - 1).push(s@[i - 1]));
        }
    }
    proof {
        assert(s@.take(len as int) =~= s@);
    }
    r
}

/// Builds a string whose characters are exactly those of the vector.
pub fn string_of(cs: &Vec<char>) -> (r: String)
    ensures
        r@ == cs@,
{
    let mut r = String::new();
    let mut i: usize = 0;
    while i < cs.len()
        invariant
            i <= cs@.len(),
            r@ == cs@.take(i as int),
        decreases cs@.len() - i,
    {
        push_char(&mut r, cs[i]);
        i = i + 1;
        proof {
            assert(cs@.take(i as int) =~= cs@.take(i - 1).push(cs@[i - 1]));
        }
    }
    proof {
        assert(cs@.take(cs@.len() as int) =~= cs@);
    }
    r
}

/// Lexicographic order on texts, by character scalar value.
pub open spec fn lex_le(a: Seq<char>, b: Seq<char>) -> bool
    decreases a.len(),
{
    if a.len() == 0 {
        true
    } else if b.len() == 0 {
        false
    } else if a[0] == b[0] {
        lex_le(a.skip(1), b.skip(1))
    } else {
        (a[0] as u32) < (b[0] as u32)
    }
}

/// Any two texts are comparable.
pub proof fn lemma_lex_le_total(a: Seq<char>, b: Seq<char>)
    ensures
        lex_le(a, b) || lex_le(b, a),
    decreases a.len(),
{
    if a.len() > 0 && b.len() > 0 && a[0] == b[0] {
        lemma_lex_le_total(a.skip(1), b.skip(1));
    } else if a.len() > 0 && b.len() > 0 {
        if (a[0] as u32) == (b[0] as u32) {
            vstd::utf8::char_u32_cast(a[0], a[0] as u32);
            vstd::utf8::char_u32_cast(b[0], b[0] as u32);
        }
    }
}

/// The lexicographic order is transitive.
pub proof fn lemma_lex_le_trans(a: Seq<char>, b: Seq<char>, c: Seq<char>)
    requires
        lex_le(a, b),
        lex_le(b, c),
    ensures
        lex_le(a, c),
    decreases a.len(),
{
    if a.len() > 0 && b.len() > 0 && c.len() > 0 && a[0] == b[0] && b[0] == c[0] {
        lemma_lex_le_trans(a.skip(1), b.skip(1), c.skip(1));
    }
}

/// Compares two character vectors lexicographically.
pub fn lex_le_chars(a: &Vec<char>, b: &Vec<char>) -> (r: bool)
    ensures
        r == lex_le(a@, b@),
{
    let mut i: usize = 0;
    proof {
        assert(a@.skip(0) =~= a@);
        assert(b@.skip(0) =~= b@);
    }
    while i < a.len() && i < b.len()
        invariant
            i <= a@.len(),
            i <= b@.len(),
            lex_le(a@, b@) == lex_le(a@.skip(i as int), b@.skip(i as int)),
        decreases a@.len() - i,
    {
        proof {
            assert(a@.skip(i as int)[0] == a@[i as int]);
            assert(b@.skip(i as int)[0] == b@[i as int]);
            assert(a@.skip(i as int).skip(1) =~= a@.skip(i + 1));
            assert(b@.skip(i as int).skip(1) =~= b@.skip(i + 1));
        }
        if a[i] == b[i] {
            i = i + 1;
        } else {
            return (a[i] as u32) < (b[i] as u32);
        }
    }
    i >= a.len()
}

/// The text with every leading and trailing whitespace character removed.
pub open spec fn trim_spec(s: Seq<char>) -> Seq<char>
    decreases s.len(),
{
    if s.len() == 0 {
        s
    } else if char_is_whitespace(s[0]) {
        trim_spec(s.skip(1))
    } else if char_is_whitespace(s.last()) {
        trim_spec(s.drop_last())
    } else {
        s
    }
}

/// Removes leading and trailing whitespace, as `str::trim` does.
#[verifier::rlimit(30)]
pub fn trim(s: &str) -> (r: String)
    ensures
        r@ == trim_spec(s@),
{
    let cs = chars_of(s);
    let mut start: usize = 0;
    let mut end: usize = cs.len();
    proof {
        assert(s@.subrange(0, s@.len() as int) =~= s@);
    }
    while start < end && is_whitespace(cs[start])
        invariant
            start <= end <= cs@.len(),
            cs@ == s@,
            trim_spec(s@) == trim_spec(s@.subrange(start as int, end as int)),
        decreases end - start,
    {
        proof {
            assert(s@.subrange(start as int, end as int).skip(1) =~= s@.subrange(
                start + 1,
                end as int,
            ));
        }
        start = start + 1;
    }
    while start < end && is_whitespace(cs[end - 1])
        invariant
            start <= end <= cs@.len(),
            cs@ == s@,
            start < end ==> !char_is_whitespace(s@[start as int]),
            trim_spec(s@) == trim_spec(s@.subrange(start as int, end as int)),
        decreases end - start,
    {
        proof {
            assert(s@.subrange(start as int, end as int).drop_last() =~= s@.subrange(
                start as int,
                end - 1,
            ));
        }
        end = end - 1;
    }
    let mut out: Vec<char> = Vec::new();
    let mut i: usize = start;
    while i < end
        invariant
            start <= i <= end <= cs@.len(),
            cs@ == s@,
            out@ == s@.subrange(start as int, i as int),
        decreases end - i,
    {
        out.push(cs[i]);
        i = i + 1;
        proof {
            assert(s@.subrange(start as int, i as int) =~= s@.subrange(start as int, i - 1).push(
                s@[i - 1],
            ));
        }
    }
    proof {
        if start < end {
            assert(trim_spec(s@.subrange(start as int, end as int)) == s@.subrange(
                start as int,
                end as int,
            ));
        } else {
            assert(s@.subrange(start as int, end as int) =~= Seq::<char>::empty());
        }
    }
    string_of(&out)
}

} // verus!
