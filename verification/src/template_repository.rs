use vstd::multiset::Multiset;
use vstd::prelude::*;

use crate::error::MdmgError;
use crate::file::{stem_of, stem_of_spec, FileName};
use crate::template::Template;
use crate::text::{chars_of, lemma_lex_le_total, lemma_lex_le_trans, lex_le, lex_le_chars, trim,
    trim_spec};

verus! {

/// Where templates come from: an implementation enumerates the known template
/// names and resolves one name to its body.  A failure to enumerate is an
/// `IoError`; a name that no location offers is `TemplateIsNotFound`.
pub trait TemplateRepository {
    fn list(&self) -> (r: Result<Vec<FileName>, MdmgError>)
        ensures
            r matches Err(e) ==> e is IoError,
    ;

    fn resolve(&self, template_name: String) -> (r: Result<Template, MdmgError>)
        ensures
            r matches Err(e) ==> e is TemplateIsNotFound,
    ;
}

/// The names of a file-name sequence, as texts.
pub open spec fn names_view(v: Seq<FileName>) -> Seq<Seq<char>> {
    v.map_values(|f: FileName| f.0@)
}

/// The stems of a sequence of directory entries, as texts.
pub open spec fn stems_view(entries: Seq<String>) -> Seq<Seq<char>> {
    entries.map_values(|s: String| stem_of_spec(s@))
}

/// The position in `out` before which every name is at most `x`, and whose
/// own entry, if any, is greater than `x`.
fn insert_position(out: &Vec<FileName>, x: &FileName) -> (k: usize)
    ensures
        k <= out@.len(),
        forall|j: int| 0 <= j < k ==> lex_le(#[trigger] out@[j].0@, x.0@),
        k < out@.len() ==> !lex_le(out@[k as int].0@, x.0@),
{
    let x_chars = chars_of(x.0.as_str());
    let mut k: usize = 0;
    while k < out.len()
        invariant
            k <= out@.len(),
            x_chars@ == x.0@,
            forall|j: int| 0 <= j < k ==> lex_le(#[trigger] out@[j].0@, x.0@),
        decreases out@.len() - k,
    {
        let entry_chars = chars_of(out[k].0.as_str());
        if !lex_le_chars(&entry_chars, &x_chars) {
            return k;
        }
        k = k + 1;
    }
    k
}

/// Sorts file names lexicographically, keeping exactly the same names.
fn sort_file_names(input: Vec<FileName>) -> (r: Vec<FileName>)
    ensures
        names_view(r@).to_multiset() == names_view(input@).to_multiset(),
        forall|i: int, j: int|
            0 <= i <= j < r@.len() ==> lex_le(#[trigger] r@[i].0@, #[trigger] r@[j].0@),
{
    broadcast use vstd::seq_lib::group_to_multiset_ensures;

    let ghost input_names = names_view(input@);
    let mut rest = input;
    let mut out: Vec<FileName> = Vec::new();
    proof {
        assert(names_view(out@) =~= Seq::<Seq<char>>::empty());
        assert(names_view(out@).to_multiset().add(names_view(rest@).to_multiset())
            =~= input_names.to_multiset());
    }
    while rest.len() > 0
        invariant
            names_view(out@).to_multiset().add(names_view(rest@).to_multiset())
                == input_names.to_multiset(),
            forall|i: int, j: int|
                0 <= i <= j < out@.len() ==> lex_le(#[trigger] out@[i].0@, #[trigger] out@[j].0@),
        decreases rest@.len(),
    {
        let ghost rest0 = rest@;
        let ghost out0 = out@;
        let x = rest.pop().unwrap();
        proof {
            broadcast use vstd::seq_lib::group_to_multiset_ensures;

            assert(names_view(rest0) =~= names_view(rest@).push(x.0@));
            assert(names_view(rest@).push(x.0@).to_multiset() =~= names_view(
                rest@,
            ).to_multiset().insert(x.0@));
            assert(names_view(rest0).to_multiset() == names_view(rest@).to_multiset().insert(
                x.0@,
            ));
        }
        let k = insert_position(&out, &x);
        let ghost xs = x.0@;
        out.insert(k, x);
        proof {
            broadcast use vstd::seq_lib::group_to_multiset_ensures;

            let before = names_view(out0);
            let after = names_view(out@);
            assert(after =~= before.take(k as int).push(xs) + before.skip(k as int));
            vstd::seq_lib::lemma_multiset_commutative(before.take(k as int).push(xs), before.skip(k as int));
            vstd::seq_lib::lemma_multiset_commutative(before.take(k as int), before.skip(k as int));
            assert(before.take(k as int) + before.skip(k as int) =~= before);
            assert(before.take(k as int).push(xs).to_multiset() =~= before.take(
                k as int,
            ).to_multiset().insert(xs));
            assert(after.to_multiset() =~= before.to_multiset().insert(xs));
            assert(names_view(out@).to_multiset().add(names_view(rest@).to_multiset())
                =~= input_names.to_multiset());
            assert forall|i: int, j: int|
                0 <= i <= j < out@.len() implies lex_le(
                #[trigger] out@[i].0@,
                #[trigger] out@[j].0@,
            ) by {
                if j < k {
                    assert(out@[i].0@ == out0[i].0@ && out@[j].0@ == out0[j].0@);
                } else if i >= k + 1 {
                    assert(out@[i].0@ == out0[i - 1].0@ && out@[j].0@ == out0[j - 1].0@);
                } else if i < k && j == k {
                    assert(lex_le(out0[i].0@, xs));
                } else if i < k && j > k {
                    assert(out@[j].0@ == out0[j - 1].0@);
                } else if i == k && j == k {
                    lemma_lex_le_total(xs, xs);
                } else {
                    assert(i == k && j > k);
                    assert(out@[j].0@ == out0[j - 1].0@);
                    if k < out0.len() {
                        lemma_lex_le_total(out0[k as int].0@, xs);
                        assert(lex_le(xs, out0[k as int].0@));
                        if j - 1 > k {
                            lemma_lex_le_trans(xs, out0[k as int].0@, out0[j - 1].0@);
                        }
                    }
                }
            };
        }
    }
    proof {
        broadcast use vstd::multiset::group_multiset_axioms;

        assert(names_view(rest@) =~= Seq::<Seq<char>>::empty());
        assert(names_view(rest@).to_multiset() =~= Multiset::<Seq<char>>::empty());
        assert(names_view(out@).to_multiset() =~= input_names.to_multiset());
    }
    out
}

/// Collects the template names of the local directory and of the fallback
/// search path: each entry reduced to its stem, both lists merged, and the
/// whole sorted lexicographically.
pub fn template_names(local_entries: &Vec<String>, fallback_entries: &Vec<String>) -> (r: Vec<
    FileName,
>)
    ensures
        names_view(r@).to_multiset() == (stems_view(local_entries@) + stems_view(
            fallback_entries@,
        )).to_multiset(),
        forall|i: int, j: int|
            0 <= i <= j < r@.len() ==> lex_le(#[trigger] r@[i].0@, #[trigger] r@[j].0@),
{
    let mut merged: Vec<FileName> = Vec::new();
    let mut i: usize = 0;
    proof {
        assert(names_view(merged@) =~= stems_view(local_entries@.take(0)));
    }
    while i < local_entries.len()
        invariant
            i <= local_entries@.len(),
            names_view(merged@) == stems_view(local_entries@.take(i as int)),
        decreases local_entries@.len() - i,
    {
        let ghost merged0 = merged@;
        let stem = stem_of(local_entries[i].as_str());
        let ghost stem_view = stem@;
        merged.push(FileName(stem));
        i = i + 1;
        proof {
            assert(names_view(merged@) =~= names_view(merged0).push(stem_view));
            assert(local_entries@.take(i as int).drop_last() =~= local_entries@.take(i - 1));
            assert(stems_view(local_entries@.take(i as int)) =~= stems_view(
                local_entries@.take(i - 1),
            ).push(stem_of_spec(local_entries@[i - 1]@)));
            assert(names_view(merged@) =~= stems_view(local_entries@.take(i as int)));
        }
    }
    proof {
        assert(local_entries@.take(local_entries@.len() as int) =~= local_entries@);
    }
    let mut j: usize = 0;
    proof {
        assert(names_view(merged@) =~= stems_view(local_entries@) + stems_view(
            fallback_entries@.take(0),
        ));
    }
    while j < fallback_entries.len()
        invariant
            j <= fallback_entries@.len(),
            names_view(merged@) == stems_view(local_entries@) + stems_view(
                fallback_entries@.take(j as int),
            ),
        decreases fallback_entries@.len() - j,
    {
        let ghost merged0 = merged@;
        let stem = stem_of(fallback_entries[j].as_str());
        let ghost stem_view = stem@;
        merged.push(FileName(stem));
        j = j + 1;
        proof {
            assert(names_view(merged@) =~= names_view(merged0).push(stem_view));
            assert(fallback_entries@.take(j as int).drop_last() =~= fallback_entries@.take(j - 1));
            assert(stems_view(fallback_entries@.take(j as int)) =~= stems_view(
                fallback_entries@.take(j - 1),
            ).push(stem_of_spec(fallback_entries@[j - 1]@)));
            assert(names_view(merged@) =~= stems_view(local_entries@) + stems_view(
                fallback_entries@.take(j as int),
            ));
        }
    }
    proof {
        assert(fallback_entries@.take(fallback_entries@.len() as int) =~= fallback_entries@);
    }
    sort_file_names(merged)
}

/// Picks the template body by the resolution order, local first, and wraps
/// the trimmed text; when neither location offers the template, the name is
/// reported as not found.  A missing or unreadable template file counts as
/// absent.
pub fn select_template(
    template_name: String,
    local_body: Option<String>,
    fallback_body: Option<String>,
) -> (r: Result<Template, MdmgError>)
    ensures
        local_body is Some ==> (r matches Ok(t) && t@ == trim_spec(local_body->0@)),
        (local_body is None && fallback_body is Some) ==> (r matches Ok(t) && t@ == trim_spec(
            fallback_body->0@,
        )),
        local_body is None && fallback_body is None ==> (r matches Err(e) && e matches
            MdmgError::TemplateIsNotFound(n) && n@ == template_name@),
{
    match local_body {
        Option::Some(body) => {
            let trimmed = trim(body.as_str());
            Ok(Template::new(trimmed.as_str()))
        },
        Option::None => match fallback_body {
            Option::Some(body) => {
                let trimmed = trim(body.as_str());
                Ok(Template::new(trimmed.as_str()))
            },
            Option::None => Err(MdmgError::TemplateIsNotFound(template_name)),
        },
    }
}

} // verus!
