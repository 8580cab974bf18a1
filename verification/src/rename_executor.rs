use vstd::prelude::*;

use crate::case::{
    camel_case_of, kebab_case_of, pascal_case_of, snake_case_of, to_camel_case, to_kebab_case,
    to_pascal_case, to_snake_case,
};
use crate::error::MdmgError;
use crate::replace::{
    clean_for, lemma_replace_paste, paste, replace_all, replace_all_spec, wf_pieces, TextPiece,
};
use crate::scaffold::{Scaffold, ScaffoldView};
use crate::text::{chars_of, string_of};

verus! {

/// The text with every case-converted form of `before` replaced by the same
/// form of `after`: first the PascalCase forms, then camelCase, then
/// kebab-case, then snake_case, in that fixed order.
pub open spec fn rename_spec(target: Seq<char>, before: Seq<char>, after: Seq<char>) -> Seq<
    char,
> {
    let pascal = replace_all_spec(target, pascal_case_of(before), pascal_case_of(after));
    let camel = replace_all_spec(pascal, camel_case_of(before), camel_case_of(after));
    let kebab = replace_all_spec(camel, kebab_case_of(before), kebab_case_of(after));
    replace_all_spec(kebab, snake_case_of(before), snake_case_of(after))
}

/// Replaces every case-converted form of `before_identify` in `rename_target`
/// with the equivalently-cased form of `after_identify`.
pub fn rename(rename_target: &str, before_identify: &str, after_identify: &str) -> (r: String)
    ensures
        r@ == rename_spec(rename_target@, before_identify@, after_identify@),
{
    let target = chars_of(rename_target);

    let before_pascal = to_pascal_case(before_identify);
    let after_pascal = to_pascal_case(after_identify);
    let pascal = replace_all(&target, &chars_of(before_pascal.as_str()), &chars_of(
        after_pascal.as_str(),
    ));

    let before_camel = to_camel_case(before_identify);
    let after_camel = to_camel_case(after_identify);
    let camel = replace_all(&pascal, &chars_of(before_camel.as_str()), &chars_of(
        after_camel.as_str(),
    ));

    let before_kebab = to_kebab_case(before_identify);
    let after_kebab = to_kebab_case(after_identify);
    let kebab = replace_all(&camel, &chars_of(before_kebab.as_str()), &chars_of(
        after_kebab.as_str(),
    ));

    let before_snake = to_snake_case(before_identify);
    let after_snake = to_snake_case(after_identify);
    let snake = replace_all(&kebab, &chars_of(before_snake.as_str()), &chars_of(
        after_snake.as_str(),
    ));

    string_of(&snake)
}

/// The four case-converted forms of an identifier, in replacement order.
pub open spec fn identifier_forms(identify: Seq<char>) -> Seq<Seq<char>> {
    seq![
        pascal_case_of(identify),
        camel_case_of(identify),
        kebab_case_of(identify),
        snake_case_of(identify),
    ]
}

/// The form assignment while the passes run: slots before `j` already show
/// their `done` form, the rest still show their `todo` form.
pub open spec fn mixed_forms(done: Seq<Seq<char>>, todo: Seq<Seq<char>>, j: int) -> Seq<
    Seq<char>,
> {
    Seq::new(
        todo.len(),
        |i: int|
            if i < j {
                done[i]
            } else {
                todo[i]
            },
    )
}

/// Renaming from `before` to `after` and then back from `after` to `before`
/// restores the original text, whenever `before` and `after` share no
/// casing-form overlap with the unrelated substrings of the text: the text
/// decomposes into inert pieces and marked occurrences of `before`'s forms
/// such that, at each of the four passes of either direction, the pass's
/// pattern occurs exactly at the pieces marked for that pass.
pub proof fn lemma_rename_round_trip(pieces: Seq<TextPiece>, before: Seq<char>, after: Seq<char>)
    requires
        pascal_case_of(before).len() > 0,
        pascal_case_of(after).len() > 0,
        camel_case_of(before).len() > 0,
        camel_case_of(after).len() > 0,
        kebab_case_of(before).len() > 0,
        kebab_case_of(after).len() > 0,
        snake_case_of(before).len() > 0,
        snake_case_of(after).len() > 0,
        wf_pieces(pieces, 4),
        forall|j: int|
            0 <= j < 4 ==> clean_for(
                pieces,
                #[trigger] mixed_forms(identifier_forms(after), identifier_forms(before), j),
                j,
            ),
        forall|j: int|
            0 <= j < 4 ==> clean_for(
                pieces,
                #[trigger] mixed_forms(identifier_forms(before), identifier_forms(after), j),
                j,
            ),
    ensures
        rename_spec(
            rename_spec(paste(pieces, identifier_forms(before)), before, after),
            after,
            before,
        ) == paste(pieces, identifier_forms(before)),
{
    let fa = identifier_forms(before);
    let fb = identifier_forms(after);
    let s = paste(pieces, fa);

    assert(mixed_forms(fb, fa, 0) =~= fa);
    assert(mixed_forms(fb, fa, 4) =~= fb);
    assert(mixed_forms(fa, fb, 0) =~= fb);
    assert(mixed_forms(fa, fb, 4) =~= fa);

    let out0 = mixed_forms(fb, fa, 0);
    let out1 = mixed_forms(fb, fa, 1);
    let out2 = mixed_forms(fb, fa, 2);
    let out3 = mixed_forms(fb, fa, 3);
    let out4 = mixed_forms(fb, fa, 4);
    lemma_replace_paste(pieces, out0, out1, 0);
    lemma_replace_paste(pieces, out1, out2, 1);
    lemma_replace_paste(pieces, out2, out3, 2);
    lemma_replace_paste(pieces, out3, out4, 3);
    assert(rename_spec(s, before, after) == paste(pieces, fb));

    let t = paste(pieces, fb);
    let back0 = mixed_forms(fa, fb, 0);
    let back1 = mixed_forms(fa, fb, 1);
    let back2 = mixed_forms(fa, fb, 2);
    let back3 = mixed_forms(fa, fb, 3);
    let back4 = mixed_forms(fa, fb, 4);
    lemma_replace_paste(pieces, back0, back1, 0);
    lemma_replace_paste(pieces, back1, back2, 1);
    lemma_replace_paste(pieces, back2, back3, 2);
    lemma_replace_paste(pieces, back3, back4, 3);
    assert(rename_spec(t, after, before) == paste(pieces, fa));
}

/// The per-file input of one rename pass: the original path and body of a
/// generated file together with their case-replaced candidates.
#[derive(Debug, Clone, PartialEq, Eq)]
pub struct ReplacementParameter {
    pub id: String,
    pub renamed_name: String,
    pub before_replace_body: String,
    pub replaced_body: String,
}

/// The mathematical model of a `ReplacementParameter`.
pub struct ReplacementParameterView {
    pub id: Seq<char>,
    pub renamed_name: Seq<char>,
    pub before_replace_body: Seq<char>,
    pub replaced_body: Seq<char>,
}

impl View for ReplacementParameter {
    type V = ReplacementParameterView;

    open spec fn view(&self) -> ReplacementParameterView {
        ReplacementParameterView {
            id: self.id@,
            renamed_name: self.renamed_name@,
            before_replace_body: self.before_replace_body@,
            replaced_body: self.replaced_body@,
        }
    }
}

/// The parameter that one `Complete` scaffold yields for a `before`/`after`
/// identifier pair.
pub open spec fn replacement_view(
    scaffold: ScaffoldView,
    before: Seq<char>,
    after: Seq<char>,
) -> ReplacementParameterView {
    ReplacementParameterView {
        id: scaffold.name(),
        renamed_name: rename_spec(scaffold.name(), before, after),
        before_replace_body: scaffold->Complete_file_body,
        replaced_body: rename_spec(scaffold->Complete_file_body, before, after),
    }
}

impl ReplacementParameter {
    pub fn new(
        id: String,
        renamed_name: String,
        before_replace_body: String,
        replaced_body: String,
    ) -> (r: Self)
        ensures
            r@ == (ReplacementParameterView {
                id: id@,
                renamed_name: renamed_name@,
                before_replace_body: before_replace_body@,
                replaced_body: replaced_body@,
            }),
    {
        ReplacementParameter { id, renamed_name, before_replace_body, replaced_body }
    }

    /// Derives the replacement parameter of one scaffold; a `Pending` scaffold
    /// has no body to rewrite and is reported as an error.
    pub fn from_scaffold(
        scaffold: &Scaffold,
        before_identify: &str,
        after_identify: &str,
    ) -> (r: Result<ReplacementParameter, MdmgError>)
        ensures
            scaffold@ is Complete ==> (r matches Ok(p) && p@ == replacement_view(
                scaffold@,
                before_identify@,
                after_identify@,
            )),
            scaffold@ is Pending ==> (r matches Err(e) && e matches
                MdmgError::ReadPendingScaffoldError { file_name } && file_name@
                == scaffold@.name()),
    {
        let (file_name, file_body) = match scaffold {
            Scaffold::Pending { file_name } => {
                return Err(
                    MdmgError::ReadPendingScaffoldError { file_name: file_name.clone() },
                );
            },
            Scaffold::Complete { file_name, file_body } => (file_name, file_body),
        };
        let renamed_file_name = rename(file_name.as_str(), before_identify, after_identify);
        let replaced_file_body = rename(file_body.as_str(), before_identify, after_identify);

        Ok(
            ReplacementParameter::new(
                file_name.clone(),
                renamed_file_name,
                file_body.clone(),
                replaced_file_body,
            ),
        )
    }

    /// Whether the rename pass would give the file a new path.
    pub fn name_changed(&self) -> (r: bool)
        ensures
            r == (self@.id != self@.renamed_name),
    {
        !(self.id == self.renamed_name)
    }

    /// Whether the rename pass would give the file a new body.
    pub fn body_changed(&self) -> (r: bool)
        ensures
            r == (self@.before_replace_body != self@.replaced_body),
    {
        !(self.before_replace_body == self.replaced_body)
    }

    /// Whether both the path and the body would change.
    pub fn all_changed(&self) -> (r: bool)
        ensures
            r == (self@.id != self@.renamed_name && self@.before_replace_body
                != self@.replaced_body),
    {
        self.name_changed() && self.body_changed()
    }
}

impl Default for ReplacementParameter {
    fn default() -> (r: Self)
        ensures
            r@ == (ReplacementParameterView {
                id: Seq::<char>::empty(),
                renamed_name: Seq::<char>::empty(),
                before_replace_body: Seq::<char>::empty(),
                replaced_body: Seq::<char>::empty(),
            }),
    {
        ReplacementParameter {
            id: String::new(),
            renamed_name: String::new(),
            before_replace_body: String::new(),
            replaced_body: String::new(),
        }
    }
}

/// What a rename pass must do for one file: nothing, rename the file, rewrite
/// its body in place, or both.
#[derive(Debug, Clone, Copy, Eq, PartialEq)]
pub enum ReplacementOperation {
    NoOperation,
    Rename,
    Replace,
    RenameAndReplace,
}

/// The operation that a replacement parameter calls for, by the strict
/// precedence: both changed, then body only, then name only, then nothing.
pub open spec fn classify_spec(p: ReplacementParameterView) -> ReplacementOperation {
    if p.id != p.renamed_name && p.before_replace_body != p.replaced_body {
        ReplacementOperation::RenameAndReplace
    } else if p.before_replace_body != p.replaced_body {
        ReplacementOperation::Replace
    } else if p.id != p.renamed_name {
        ReplacementOperation::Rename
    } else {
        ReplacementOperation::NoOperation
    }
}

impl ReplacementOperation {
    /// Classifies a replacement parameter into the operation it requires.
    pub fn from(params: &ReplacementParameter) -> (r: Self)
        ensures
            r == classify_spec(params@),
    {
        if params.all_changed() {
            Self::RenameAndReplace
        } else if params.body_changed() {
            Self::Replace
        } else if params.name_changed() {
            Self::Rename
        } else {
            Self::NoOperation
        }
    }
}

/// Classification is exhaustive and mutually exclusive: for every replacement
/// parameter exactly one of the four operations is produced, and each one
/// exactly on the stated condition.
pub proof fn lemma_classification_exclusive(p: ReplacementParameterView)
    ensures
        (classify_spec(p) == ReplacementOperation::RenameAndReplace <==> (p.id != p.renamed_name
            && p.before_replace_body != p.replaced_body)),
        (classify_spec(p) == ReplacementOperation::Replace <==> (p.id == p.renamed_name
            && p.before_replace_body != p.replaced_body)),
        (classify_spec(p) == ReplacementOperation::Rename <==> (p.id != p.renamed_name
            && p.before_replace_body == p.replaced_body)),
        (classify_spec(p) == ReplacementOperation::NoOperation <==> (p.id == p.renamed_name
            && p.before_replace_body == p.replaced_body)),
{
}

/// The consumer of classified replacement operations; implementations decide
/// what acting on one file means (the file system, a dry run, a recorder).
pub trait ReplacementOperationInterpreter {
    fn none(&self, id: &str);

    fn rename(&self, from_name: &str, to_name: &str) -> Result<(), MdmgError>;

    fn replace(&self, id: &str, replaced_body: &str) -> Result<(), MdmgError>;

    fn rename_and_replace(&self, parameter: &ReplacementParameter) -> Result<(), MdmgError>;
}

/// Classifies one replacement parameter and hands it to the matching method of
/// the interpreter.
pub fn run<I: ReplacementOperationInterpreter>(
    parameter: &ReplacementParameter,
    interpreter: &I,
) -> (r: Result<(), MdmgError>)
    ensures
        classify_spec(parameter@) == ReplacementOperation::NoOperation ==> r is Ok,
        r is Err ==> classify_spec(parameter@) != ReplacementOperation::NoOperation,
{
    let operation: ReplacementOperation = ReplacementOperation::from(parameter);
    match operation {
        ReplacementOperation::NoOperation => {
            interpreter.none(parameter.id.as_str());
            Ok(())
        },
        ReplacementOperation::Rename => interpreter.rename(
            parameter.id.as_str(),
            parameter.renamed_name.as_str(),
        ),
        ReplacementOperation::Replace => interpreter.replace(
            parameter.id.as_str(),
            parameter.replaced_body.as_str(),
        ),
        ReplacementOperation::RenameAndReplace => interpreter.rename_and_replace(parameter),
    }
}

/// Applies one rename pass to every scaffold in order, aborting at the first
/// failure; any `Pending` scaffold fails the pass the moment it is reached.
pub trait RenameExecutor {
    fn execute(
        &self,
        scaffolds: &Vec<Scaffold>,
        before_identify: &str,
        after_identify: &str,
    ) -> Result<(), MdmgError>;
}

pub struct DefaultRenameExecutor<I: ReplacementOperationInterpreter> {
    pub interpreter: I,
}

impl<I: ReplacementOperationInterpreter> DefaultRenameExecutor<I> {
    pub fn new(interpreter: I) -> (r: Self)
        ensures
            r == (DefaultRenameExecutor { interpreter }),
    {
        DefaultRenameExecutor { interpreter }
    }
}

impl<I: ReplacementOperationInterpreter> RenameExecutor for DefaultRenameExecutor<I> {
    fn execute(
        &self,
        scaffolds: &Vec<Scaffold>,
        before_identify: &str,
        after_identify: &str,
    ) -> (r: Result<(), MdmgError>)
        ensures
            scaffolds@.len() == 0 ==> r is Ok,
            scaffolds@.len() > 0 && scaffolds@[0]@ is Pending ==> (r matches Err(e) && e matches
                MdmgError::ReadPendingScaffoldError { file_name } && file_name@
                == scaffolds@[0]@.name()),
            (exists|i: int| 0 <= i < scaffolds@.len() && (#[trigger] scaffolds@[i]@) is Pending)
                ==> !(r is Ok),
            (forall|i: int|
                0 <= i < scaffolds@.len() ==> (#[trigger] scaffolds@[i]@) is Complete
                    && classify_spec(
                    replacement_view(scaffolds@[i]@, before_identify@, after_identify@),
                ) == ReplacementOperation::NoOperation) ==> r is Ok,
    {
        let ghost all_idle = forall|i: int|
            0 <= i < scaffolds@.len() ==> (#[trigger] scaffolds@[i]@) is Complete && classify_spec(
                replacement_view(scaffolds@[i]@, before_identify@, after_identify@),
            ) == ReplacementOperation::NoOperation;
        let mut index: usize = 0;
        while index < scaffolds.len()
            invariant
                index <= scaffolds@.len(),
                forall|k: int| 0 <= k < index ==> (#[trigger] scaffolds@[k]@) is Complete,
                all_idle == forall|i: int|
                    0 <= i < scaffolds@.len() ==> (#[trigger] scaffolds@[i]@) is Complete
                        && classify_spec(
                        replacement_view(scaffolds@[i]@, before_identify@, after_identify@),
                    ) == ReplacementOperation::NoOperation,
            decreases scaffolds@.len() - index,
        {
            let parameter = match ReplacementParameter::from_scaffold(
                &scaffolds[index],
                before_identify,
                after_identify,
            ) {
                Ok(parameter) => parameter,
                Err(e) => {
                    return Err(e);
                },
            };
            match run(&parameter, &self.interpreter) {
                Ok(_) => (),
                Err(e) => {
                    return Err(e);
                },
            }
            index = index + 1;
        }
        Ok(())
    }
}

} // verus!
