use vstd::prelude::*;

verus! {

/// One file-production directive derived from a template: a heading has been
/// seen (`Pending`), or a heading has been paired with its code block
/// (`Complete`).
#[derive(Debug, PartialEq, Eq, Clone)]
pub enum Scaffold {
    Complete { file_name: String, file_body: String },
    Pending { file_name: String },
}

/// The mathematical model of a `Scaffold`.
pub enum ScaffoldView {
    Complete { file_name: Seq<char>, file_body: Seq<char> },
    Pending { file_name: Seq<char> },
}

impl View for Scaffold {
    type V = ScaffoldView;

    open spec fn view(&self) -> ScaffoldView {
        match self {
            Scaffold::Complete { file_name, file_body } => ScaffoldView::Complete {
                file_name: file_name@,
                file_body: file_body@,
            },
            Scaffold::Pending { file_name } => ScaffoldView::Pending { file_name: file_name@ },
        }
    }
}

impl ScaffoldView {
    /// The file name of the directive, in either state.
    pub open spec fn name(self) -> Seq<char> {
        match self {
            ScaffoldView::Complete { file_name, file_body: _ } => file_name,
            ScaffoldView::Pending { file_name } => file_name,
        }
    }
}

} // verus!
