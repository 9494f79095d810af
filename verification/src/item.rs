//! What a picker can list.

use vstd::prelude::*;

use crate::fuzzy_match;

verus! {

/// A piece of a label, in one style.
pub struct Span<S> {
    pub content: String,
    pub style: S,
}

impl<S> View for Span<S> {
    type V = (Seq<char>, S);

    open spec fn view(&self) -> (Seq<char>, S) {
        (self.content@, self.style)
    }
}

/// The spans of a label, each as its text and its style.
pub open spec fn spans_view<S>(spans: Seq<Span<S>>) -> Seq<(Seq<char>, S)> {
    spans.map_values(|span: Span<S>| span@)
}

/// The text of a label: the contents of its spans, one after the other.
pub open spec fn label_text<S>(label: Seq<(Seq<char>, S)>) -> Seq<char>
    decreases label.len(),
{
    if label.len() == 0 {
        seq![]
    } else {
        label_text(label.drop_last()) + label.last().0
    }
}

/// Joins the contents of the spans of a label.
pub fn join_spans<S>(label: &Vec<Span<S>>) -> (text: String)
    ensures
        text@ == label_text(spans_view(label@)),
{
    let mut text = String::new();
    let mut i: usize = 0;
    let ghost spans = spans_view(label@);
    proof {
        assert(spans.take(0) =~= seq![]);
    }
    while i < label.len()
        invariant
            i <= label.len(),
            spans == spans_view(label@),
            text@ == label_text(spans.take(i as int)),
        decreases label.len() - i,
    {
        proof {
            assert(spans.take(i + 1).drop_last() =~= spans.take(i as int));
            assert(spans.take(i + 1).last() == label@[i as int]@);
        }
        text.append(label[i].content.as_str());
        i = i + 1;
    }
    proof {
        assert(spans.take(i as int) =~= spans);
    }
    text
}

/// Something that a picker can list, with the texts that stand for it.
pub struct Item<T, S> {
    pub value: T,
    /// What the list shows for the item.
    pub label: Vec<Span<S>>,
    /// The text that decides whether a new query matches the item, and how well.
    pub filter_text: String,
    /// The text that decides whether an item that is listed already matches a more specific query.
    pub sort_text: String,
}

impl<T, S> Item<T, S> {
    /// The label, as its spans' texts and styles.
    pub open spec fn label_view(self) -> Seq<(Seq<char>, S)> {
        spans_view(self.label@)
    }

    /// The texts of the item are short enough to be matched.
    pub open spec fn matchable(self) -> bool {
        &&& fuzzy_match::matchable_len(self.filter_text@.len())
        &&& fuzzy_match::matchable_len(self.sort_text@.len())
        &&& fuzzy_match::matchable_len(label_text(self.label_view()).len())
    }
}

/// The text of a label is that of its spans, one after the other: the text of two labels in a row
/// is that of the first and then that of the second.
pub proof fn law_label_text_joins_the_spans<S>(
    first: Seq<(Seq<char>, S)>,
    second: Seq<(Seq<char>, S)>,
    content: Seq<char>,
    style: S,
)
    ensures
        label_text(Seq::<(Seq<char>, S)>::empty()) == Seq::<char>::empty(),
        label_text(seq![(content, style)]) == content,
        label_text(first + second) == label_text(first) + label_text(second),
    decreases second.len(),
{
    reveal_with_fuel(label_text, 2);
    assert(seq![(content, style)].drop_last() =~= Seq::<(Seq<char>, S)>::empty());
    assert(label_text(seq![(content, style)]) =~= content);
    if second.len() == 0 {
        assert(first + second =~= first);
        assert(label_text(first) + label_text(second) =~= label_text(first));
    } else {
        law_label_text_joins_the_spans(first, second.drop_last(), content, style);
        assert((first + second).drop_last() =~= first + second.drop_last());
        assert(label_text(first + second) =~= label_text(first) + label_text(second));
    }
}

/// A label is seen as the contents and styles of its spans, in their order.
pub proof fn law_label_shows_every_span<T, S>(item: Item<T, S>, i: int)
    requires
        0 <= i < item.label@.len(),
    ensures
        item.label_view().len() == item.label@.len(),
        item.label_view()[i].0 == item.label@[i].content@,
        item.label_view()[i].1 == item.label@[i].style,
{
}

} // verus!
