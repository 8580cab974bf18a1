use vstd::prelude::*;

use comrak::nodes::NodeValue;

use crate::error::MdmgError;
use crate::scaffold::{Scaffold, ScaffoldView};

verus! {

/// One node of the parsed markdown document that the scaffold parser looks at:
/// a run of text standing directly under a heading, or a code block.
pub enum MarkdownItem {
    Heading { level: u8, text: String },
    CodeBlock { literal: String },
}

/// The mathematical model of a `MarkdownItem`.
pub enum MarkdownItemView {
    Heading { level: u8, text: Seq<char> },
    CodeBlock { literal: Seq<char> },
}

impl View for MarkdownItem {
    type V = MarkdownItemView;

    open spec fn view(&self) -> MarkdownItemView {
        match self {
            MarkdownItem::Heading { level, text } => MarkdownItemView::Heading {
                level: *level,
                text: text@,
            },
            MarkdownItem::CodeBlock { literal } => MarkdownItemView::CodeBlock {
                literal: literal@,
            },
        }
    }
}

/// The sequence of heading texts and code-block literals that a markdown
/// document holds, in document order, depth first: one `Heading` entry for
/// each text node standing directly under a heading, with that heading's
/// level, and one `CodeBlock` entry for each code block, with its literal
/// content (fence markers excluded).  This is exactly what
/// `comrak::parse_document` yields for the document.
pub uninterp spec fn markdown_items_of(s: Seq<char>) -> Seq<MarkdownItemView>;

/// Relies on comrak::parse_document: parses the document with default options
/// and walks the tree depth first, keeping each text node that stands directly
/// under a heading and each code block.  The result depends on the document
/// text alone.
#[verifier::external_body]
fn markdown_items(markdown: &str) -> (r: Vec<MarkdownItem>)
    ensures
        r@.map_values(|it: MarkdownItem| it@) == markdown_items_of(markdown@),
{
    let arena = comrak::Arena::new();
    let root = comrak::parse_document(&arena, markdown, &comrak::Options::default());
    let mut items: Vec<MarkdownItem> = Vec::new();
    for node in root.descendants() {
        let heading = node.parent().and_then(|p| if let NodeValue::Heading(h) = &p.data.borrow().value { Some(h.level) } else { None });
        match &node.data.borrow().value {
            NodeValue::Text(t) if heading.is_some() => items.push(MarkdownItem::Heading { level: heading.unwrap(), text: t.to_string() }),
            NodeValue::CodeBlock(cb) => items.push(MarkdownItem::CodeBlock { literal: cb.literal.clone() }),
            _ => {},
        }
    }
    items
}

/// Whether the item opens a new scaffold: a level-2 heading with text.
pub open spec fn is_file_heading(item: MarkdownItemView) -> bool {
    &&& item is Heading
    &&& item->Heading_level == 2
    &&& item->Heading_text.len() > 0
}

/// Whether the item can complete a pending scaffold: a code block with content.
pub open spec fn is_content_code_block(item: MarkdownItemView) -> bool {
    &&& item is CodeBlock
    &&& item->CodeBlock_literal.len() > 0
}

/// The position of the first still-`Pending` entry at or after `j`.
pub open spec fn first_pending_index(acc: Seq<ScaffoldView>, j: int) -> Option<int>
    decreases acc.len() - j,
{
    if j < 0 || j >= acc.len() {
        Option::None
    } else if acc[j] is Pending {
        Option::Some(j)
    } else {
        first_pending_index(acc, j + 1)
    }
}

/// How one markdown item transforms the scaffold sequence: a level-2 heading
/// with text appends a `Pending` entry; a code block with content removes the
/// first `Pending` entry (the last entry takes its place) and appends the
/// matching `Complete` entry; everything else leaves the sequence alone.
pub open spec fn assemble_step(acc: Seq<ScaffoldView>, item: MarkdownItemView) -> Seq<
    ScaffoldView,
> {
    match item {
        MarkdownItemView::Heading { level, text } => {
            if level == 2 && text.len() > 0 {
                acc.push(ScaffoldView::Pending { file_name: text })
            } else {
                acc
            }
        },
        MarkdownItemView::CodeBlock { literal } => {
            if literal.len() == 0 {
                acc
            } else {
                match first_pending_index(acc, 0) {
                    Option::None => acc,
                    Option::Some(i) => acc.update(i, acc.last()).drop_last().push(
                        ScaffoldView::Complete { file_name: acc[i].name(), file_body: literal },
                    ),
                }
            }
        },
    }
}

/// The scaffold sequence that a sequence of markdown items assembles into.
pub open spec fn assemble_spec(items: Seq<MarkdownItemView>) -> Seq<ScaffoldView>
    decreases items.len(),
{
    if items.len() == 0 {
        Seq::empty()
    } else {
        assemble_step(assemble_spec(items.drop_last()), items.last())
    }
}

/// A document without level-2 headings assembles into the empty scaffold
/// sequence (a heading whose text is empty opens no scaffold either).
pub proof fn lemma_no_file_heading_no_scaffold(items: Seq<MarkdownItemView>)
    requires
        forall|i: int| 0 <= i < items.len() ==> !is_file_heading(#[trigger] items[i]),
    ensures
        assemble_spec(items) == Seq::<ScaffoldView>::empty(),
    decreases items.len(),
{
    if items.len() > 0 {
        assert(forall|i: int|
            0 <= i < items.len() - 1 ==> #[trigger] items.drop_last()[i] == items[i]);
        lemma_no_file_heading_no_scaffold(items.drop_last());
    }
}

/// The `Pending` scaffolds that the level-2 headings of an item sequence open,
/// in order.
pub open spec fn pendings_of(items: Seq<MarkdownItemView>) -> Seq<ScaffoldView>
    decreases items.len(),
{
    if items.len() == 0 {
        Seq::empty()
    } else if is_file_heading(items.last()) {
        pendings_of(items.drop_last()).push(
            ScaffoldView::Pending { file_name: items.last()->Heading_text },
        )
    } else {
        pendings_of(items.drop_last())
    }
}

/// Headings that no code block follows stay `Pending`: whatever stands in
/// `front`, the items of `back` hold no code block with content, and each
/// level-2 heading among them adds exactly one `Pending` scaffold at the end,
/// with no corresponding `Complete` entry.
pub proof fn lemma_trailing_headings_stay_pending(
    front: Seq<MarkdownItemView>,
    back: Seq<MarkdownItemView>,
)
    requires
        forall|i: int| 0 <= i < back.len() ==> !is_content_code_block(#[trigger] back[i]),
    ensures
        assemble_spec(front + back) == assemble_spec(front) + pendings_of(back),
    decreases back.len(),
{
    if back.len() == 0 {
        assert(front + back =~= front);
        assert(assemble_spec(front) + pendings_of(back) =~= assemble_spec(front));
    } else {
        assert(forall|i: int|
            0 <= i < back.len() - 1 ==> #[trigger] back.drop_last()[i] == back[i]);
        lemma_trailing_headings_stay_pending(front, back.drop_last());
        assert((front + back).drop_last() =~= front + back.drop_last());
        assert((front + back).last() == back.last());
        let acc = assemble_spec(front) + pendings_of(back.drop_last());
        if is_file_heading(back.last()) {
            assert(acc.push(ScaffoldView::Pending { file_name: back.last()->Heading_text })
                =~= assemble_spec(front) + pendings_of(back));
        } else {
            assert(assemble_spec(front) + pendings_of(back) =~= acc);
        }
    }
}

/// The items of a well-formed sequence of heading/code-block pairs: for each
/// pair a level-2 heading with the pair's name followed by a code block with
/// the pair's body.
pub open spec fn paired_items(pairs: Seq<(Seq<char>, Seq<char>)>) -> Seq<MarkdownItemView>
    decreases pairs.len(),
{
    if pairs.len() == 0 {
        Seq::empty()
    } else {
        paired_items(pairs.drop_last()).push(
            MarkdownItemView::Heading { level: 2, text: pairs.last().0 },
        ).push(MarkdownItemView::CodeBlock { literal: pairs.last().1 })
    }
}

/// The scaffolds that a well-formed sequence of pairs should produce: one
/// `Complete` entry per pair, in order.
pub open spec fn completed_scaffolds(pairs: Seq<(Seq<char>, Seq<char>)>) -> Seq<ScaffoldView>
    decreases pairs.len(),
{
    if pairs.len() == 0 {
        Seq::empty()
    } else {
        completed_scaffolds(pairs.drop_last()).push(
            ScaffoldView::Complete { file_name: pairs.last().0, file_body: pairs.last().1 },
        )
    }
}

/// One `Complete` scaffold arises per pair.
proof fn lemma_completed_len(pairs: Seq<(Seq<char>, Seq<char>)>)
    ensures
        completed_scaffolds(pairs).len() == pairs.len(),
    decreases pairs.len(),
{
    if pairs.len() > 0 {
        lemma_completed_len(pairs.drop_last());
    }
}

/// In a sequence of `Complete` scaffolds followed by one `Pending` entry, the
/// first `Pending` entry is the last one.
proof fn lemma_first_pending_after_completes(acc: Seq<ScaffoldView>, j: int)
    requires
        0 <= j < acc.len(),
        forall|k: int| 0 <= k < acc.len() - 1 ==> (#[trigger] acc[k]) is Complete,
        acc.last() is Pending,
    ensures
        first_pending_index(acc, j) == Option::Some(acc.len() - 1),
    decreases acc.len() - j,
{
    if j < acc.len() - 1 {
        lemma_first_pending_after_completes(acc, j + 1);
    }
}

/// Well-formed heading/code-block pairs assemble into exactly one `Complete`
/// scaffold per pair, whose file name is the heading text and whose file body
/// is the code block literal, in the order of the pairs.
pub proof fn lemma_paired_items_complete(pairs: Seq<(Seq<char>, Seq<char>)>)
    requires
        forall|i: int|
            0 <= i < pairs.len() ==> (#[trigger] pairs[i]).0.len() > 0 && pairs[i].1.len() > 0,
    ensures
        assemble_spec(paired_items(pairs)) == completed_scaffolds(pairs),
        forall|i: int|
            0 <= i < pairs.len() ==> #[trigger] completed_scaffolds(pairs)[i]
                == (ScaffoldView::Complete { file_name: pairs[i].0, file_body: pairs[i].1 }),
    decreases pairs.len(),
{
    if pairs.len() == 0 {
    } else {
        let shorter = pairs.drop_last();
        assert(forall|i: int|
            0 <= i < shorter.len() ==> #[trigger] shorter[i] == pairs[i]);
        lemma_paired_items_complete(shorter);
        let items = paired_items(pairs);
        let with_heading = paired_items(shorter).push(
            MarkdownItemView::Heading { level: 2, text: pairs.last().0 },
        );
        assert(items.drop_last() =~= with_heading);
        assert(with_heading.drop_last() =~= paired_items(shorter));
        let before = completed_scaffolds(shorter);
        let opened = before.push(ScaffoldView::Pending { file_name: pairs.last().0 });
        lemma_completed_len(shorter);
        lemma_completed_len(pairs);
        assert(assemble_spec(with_heading) == opened);
        assert forall|k: int| 0 <= k < opened.len() - 1 implies (#[trigger] opened[k])
            is Complete by {
            assert(completed_scaffolds(shorter)[k] == (ScaffoldView::Complete {
                file_name: shorter[k].0,
                file_body: shorter[k].1,
            }));
        };
        lemma_first_pending_after_completes(opened, 0);
        let closed = opened.update(before.len() as int, opened.last()).drop_last().push(
            ScaffoldView::Complete { file_name: pairs.last().0, file_body: pairs.last().1 },
        );
        assert(assemble_spec(items) == closed);
        assert(closed =~= completed_scaffolds(pairs));
        assert forall|i: int|
            0 <= i < pairs.len() implies #[trigger] completed_scaffolds(pairs)[i]
            == (ScaffoldView::Complete { file_name: pairs[i].0, file_body: pairs[i].1 }) by {
            if i < pairs.len() - 1 {
                assert(completed_scaffolds(shorter)[i] == (ScaffoldView::Complete {
                    file_name: shorter[i].0,
                    file_body: shorter[i].1,
                }));
                assert(shorter[i] == pairs[i]);
            } else {
                assert(pairs.last() == pairs[i]);
            }
        };
    }
}

/// The position of the first `Pending` scaffold in the vector, if any.
fn find_first_pending(scaffolds: &Vec<Scaffold>) -> (r: Option<usize>)
    ensures
        match r {
            Option::Some(p) => p < scaffolds@.len() && scaffolds@.map_values(|s: Scaffold| s@)[
                p as int
            ] is Pending && first_pending_index(
                scaffolds@.map_values(|s: Scaffold| s@),
                0,
            ) == Option::Some(p as int),
            Option::None => first_pending_index(scaffolds@.map_values(|s: Scaffold| s@), 0)
                is None,
        },
{
    let ghost acc = scaffolds@.map_values(|s: Scaffold| s@);
    let mut j: usize = 0;
    while j < scaffolds.len()
        invariant
            j <= scaffolds@.len(),
            acc == scaffolds@.map_values(|s: Scaffold| s@),
            acc.len() == scaffolds@.len(),
            first_pending_index(acc, 0) == first_pending_index(acc, j as int),
        decreases scaffolds@.len() - j,
    {
        match &scaffolds[j] {
            Scaffold::Pending { file_name: _ } => {
                proof {
                    assert(acc[j as int] is Pending);
                }
                return Some(j);
            },
            Scaffold::Complete { file_name: _, file_body: _ } => {
                proof {
                    assert(!(acc[j as int] is Pending));
                }
            },
        }
        j = j + 1;
    }
    None
}

/// Converts a rendered markdown document into the ordered sequence of scaffold
/// directives that its level-2 headings and code blocks describe.
pub fn parse(markdown: &str) -> (r: Result<Vec<Scaffold>, MdmgError>)
    ensures
        r matches Ok(scaffolds) && scaffolds@.map_values(|s: Scaffold| s@) == assemble_spec(
            markdown_items_of(markdown@),
        ),
{
    let items = markdown_items(markdown);
    let ghost items_view = items@.map_values(|it: MarkdownItem| it@);
    let mut scaffolds: Vec<Scaffold> = Vec::new();
    let mut i: usize = 0;
    proof {
        assert(items_view.take(0) =~= Seq::<MarkdownItemView>::empty());
    }
    while i < items.len()
        invariant
            i <= items@.len(),
            items_view == items@.map_values(|it: MarkdownItem| it@),
            items_view.len() == items@.len(),
            scaffolds@.map_values(|s: Scaffold| s@) == assemble_spec(items_view.take(i as int)),
        decreases items@.len() - i,
    {
        let ghost acc = scaffolds@.map_values(|s: Scaffold| s@);
        proof {
            assert(items_view.take(i + 1).drop_last() =~= items_view.take(i as int));
            assert(items_view.take(i + 1).last() == items_view[i as int]);
        }
        match &items[i] {
            MarkdownItem::Heading { level, text } => {
                if *level == 2 && !text.as_str().is_empty() {
                    scaffolds.push(Scaffold::Pending { file_name: text.clone() });
                    proof {
                        assert(scaffolds@.map_values(|s: Scaffold| s@) =~= acc.push(
                            ScaffoldView::Pending { file_name: items_view[i as int]->Heading_text },
                        ));
                    }
                }
            },
            MarkdownItem::CodeBlock { literal } => {
                if !literal.as_str().is_empty() {
                    match find_first_pending(&scaffolds) {
                        Option::Some(p) => {
                            let pending = scaffolds.swap_remove(p);
                            match pending {
                                Scaffold::Pending { file_name } => {
                                    scaffolds.push(
                                        Scaffold::Complete {
                                            file_name,
                                            file_body: literal.clone(),
                                        },
                                    );
                                    proof {
                                        assert(scaffolds@.map_values(|s: Scaffold| s@) =~= acc
                                            .update(p as int, acc.last()).drop_last().push(
                                            ScaffoldView::Complete {
                                                file_name: acc[p as int].name(),
                                                file_body: items_view[
                                                    i as int
                                                ]->CodeBlock_literal,
                                            },
                                        ));
                                    }
                                },
                                Scaffold::Complete { file_name: _, file_body: _ } => {
                                    proof {
                                        assert(false);
                                    }
                                },
                            }
                        },
                        Option::None => {},
                    }
                }
            },
        }
        i = i + 1;
    }
    proof {
        assert(items_view.take(items_view.len() as int) =~= items_view);
    }
    Ok(scaffolds)
}

} // verus!
