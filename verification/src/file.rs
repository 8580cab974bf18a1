use vstd::prelude::*;

use crate::text::{chars_of, push_char, string_of};

verus! {

/// The name of a template, without its extension.
#[derive(Debug, Eq, PartialEq, Clone, PartialOrd, Ord)]
pub struct FileName(pub String);

impl FileName {
    pub fn new(filename: &str) -> (r: Self)
        ensures
            r.0@ == filename@,
    {
        FileName(String::from_str(filename))
    }
}

/// The position of the last occurrence of `c` in `s`, if any.
pub open spec fn last_index_of_char(s: Seq<char>, c: char) -> Option<int>
    decreases s.len(),
{
    if s.len() == 0 {
        Option::None
    } else if s.last() == c {
        Option::Some(s.len() - 1)
    } else {
        last_index_of_char(s.drop_last(), c)
    }
}

/// Finds the position of the last occurrence of `c` in the vector.
pub fn find_last(cs: &Vec<char>, c: char) -> (r: Option<usize>)
    ensures
        match r {
            Option::Some(i) => i < cs@.len() && last_index_of_char(cs@, c) == Option::Some(
                i as int,
            ),
            Option::None => last_index_of_char(cs@, c) is None,
        },
{
    let mut i: usize = cs.len();
    proof {
        assert(cs@.take(cs@.len() as int) =~= cs@);
    }
    while i > 0
        invariant
            i <= cs@.len(),
            last_index_of_char(cs@, c) == last_index_of_char(cs@.take(i as int), c),
        decreases i,
    {
        proof {
            assert(cs@.take(i as int).last() == cs@[i - 1]);
            assert(cs@.take(i as int).drop_last() =~= cs@.take(i - 1));
        }
        if cs[i - 1] == c {
            return Some(i - 1);
        }
        i = i - 1;
    }
    proof {
        assert(cs@.take(0) =~= Seq::<char>::empty());
    }
    None
}

/// The text with every trailing `/` removed.
pub open spec fn strip_trailing_slashes(s: Seq<char>) -> Seq<char>
    decreases s.len(),
{
    if s.len() > 0 && s.last() == '/' {
        strip_trailing_slashes(s.drop_last())
    } else {
        s
    }
}

/// The parent directory of a path string, as `Path::parent` reads it: trailing
/// separators are ignored, the last entry and the separator run before it are
/// cut, a bare name has the empty parent, and the empty path and the root have
/// none.
pub open spec fn parent_of_spec(s: Seq<char>) -> Option<Seq<char>> {
    let core = strip_trailing_slashes(s);
    if core.len() == 0 {
        Option::None
    } else {
        match last_index_of_char(core, '/') {
            Option::None => Option::Some(Seq::empty()),
            Option::Some(i) => {
                let prefix = strip_trailing_slashes(core.take(i + 1));
                if prefix.len() == 0 {
                    Option::Some(seq!['/'])
                } else {
                    Option::Some(prefix)
                }
            },
        }
    }
}

/// The parent directory of a path string, if it has one.
pub fn parent_of(path: &str) -> (r: Option<String>)
    ensures
        match r {
            Option::Some(p) => parent_of_spec(path@) == Option::Some(p@),
            Option::None => parent_of_spec(path@) is None,
        },
{
    let cs = chars_of(path);
    let mut end: usize = cs.len();
    proof {
        assert(path@.take(path@.len() as int) =~= path@);
    }
    while end > 0 && cs[end - 1] == '/'
        invariant
            end <= cs@.len(),
            cs@ == path@,
            strip_trailing_slashes(path@) == strip_trailing_slashes(path@.take(end as int)),
        decreases end,
    {
        proof {
            assert(path@.take(end as int).last() == path@[end - 1]);
            assert(path@.take(end as int).drop_last() =~= path@.take(end - 1));
        }
        end = end - 1;
    }
    if end == 0 {
        proof {
            assert(path@.take(0) =~= Seq::<char>::empty());
        }
        return None;
    }
    proof {
        assert(path@.take(end as int).last() == path@[end - 1]);
    }
    let mut core: Vec<char> = Vec::new();
    let mut j: usize = 0;
    while j < end
        invariant
            j <= end <= cs@.len(),
            cs@ == path@,
            core@ == path@.take(j as int),
        decreases end - j,
    {
        core.push(cs[j]);
        j = j + 1;
        proof {
            assert(path@.take(j as int) =~= path@.take(j - 1).push(path@[j - 1]));
        }
    }
    match find_last(&core, '/') {
        Option::None => Some(String::new()),
        Option::Some(i) => {
            let mut k: usize = i + 1;
            proof {
                assert(path@.take(end as int).take(i + 1) =~= path@.take(i + 1));
            }
            while k > 0 && core[k - 1] == '/'
                invariant
                    k <= i + 1 <= end <= cs@.len(),
                    cs@ == path@,
                    core@ == path@.take(end as int),
                    strip_trailing_slashes(path@.take(i + 1)) == strip_trailing_slashes(
                        path@.take(k as int),
                    ),
                decreases k,
            {
                proof {
                    assert(path@.take(k as int).last() == path@[k - 1]);
                    assert(path@.take(k as int).drop_last() =~= path@.take(k - 1));
                }
                k = k - 1;
            }
            if k == 0 {
                proof {
                    assert(path@.take(0) =~= Seq::<char>::empty());
                }
                let mut root = String::new();
                push_char(&mut root, '/');
                proof {
                    assert(root@ =~= seq!['/']);
                }
                Some(root)
            } else {
                proof {
                    assert(path@.take(k as int).last() == path@[k - 1]);
                }
                let mut prefix: Vec<char> = Vec::new();
                let mut m: usize = 0;
                while m < k
                    invariant
                        m <= k <= end <= cs@.len(),
                        cs@ == path@,
                        prefix@ == path@.take(m as int),
                    decreases k - m,
                {
                    prefix.push(cs[m]);
                    m = m + 1;
                    proof {
                        assert(path@.take(m as int) =~= path@.take(m - 1).push(path@[m - 1]));
                    }
                }
                Some(string_of(&prefix))
            }
        },
    }
}

/// The stem of a file name, as `Path::file_stem` reads it: the part before
/// the last `.`, unless the only `.` is the leading character.
pub open spec fn stem_of_spec(s: Seq<char>) -> Seq<char> {
    match last_index_of_char(s, '.') {
        Option::Some(i) => {
            if i > 0 {
                s.take(i)
            } else {
                s
            }
        },
        Option::None => s,
    }
}

/// The stem of a file name: the name without its extension.
pub fn stem_of(name: &str) -> (r: String)
    ensures
        r@ == stem_of_spec(name@),
{
    let cs = chars_of(name);
    match find_last(&cs, '.') {
        Option::Some(i) => {
            if i > 0 {
                let mut prefix: Vec<char> = Vec::new();
                let mut j: usize = 0;
                while j < i
                    invariant
                        j <= i < cs@.len(),
                        cs@ == name@,
                        prefix@ == name@.take(j as int),
                    decreases i - j,
                {
                    prefix.push(cs[j]);
                    j = j + 1;
                    proof {
                        assert(name@.take(j as int) =~= name@.take(j - 1).push(name@[j - 1]));
                    }
                }
                string_of(&prefix)
            } else {
                String::from_str(name)
            }
        },
        Option::None => String::from_str(name),
    }
}

} // verus!
