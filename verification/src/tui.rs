//! The info bar at the bottom of the terminal interface: the hot keys and
//! what they do, written as a run of styled spans.

use vstd::prelude::*;
use vstd::string::StringExecFns;

verus! {

/// A hot key and a description of what it does.
#[derive(Debug)]
pub struct InfoBarItem {
    pub key: String,
    pub description: String,
}

/// How a span of the info bar is drawn: plain, or in the hot-key colour.
#[derive(Debug, Clone, Copy, PartialEq, Eq, Structural)]
pub enum SpanStyle {
    Plain,
    HotKey,
}

/// A piece of the info bar's text with its style.
#[derive(Debug)]
pub struct InfoBarSpan {
    pub text: String,
    pub style: SpanStyle,
}

/// What follows a hot key: `") "`, the description, and, for all but the
/// last item, `" |"`.
pub open spec fn description_tail(description: Seq<char>, last: bool) -> Seq<char> {
    seq![')', ' '] + description + if last {
        Seq::<char>::empty()
    } else {
        seq![' ', '|']
    }
}

/// The three spans that item `i` of `items` contributes: `" ("` plain, the
/// key in the hot-key style, and the description tail plain.
pub open spec fn item_spans_match(spans: Seq<InfoBarSpan>, items: Seq<InfoBarItem>, i: int) -> bool {
    &&& spans[3 * i].text@ == seq![' ', '(']
    &&& spans[3 * i].style == SpanStyle::Plain
    &&& spans[3 * i + 1].text@ == items[i].key@
    &&& spans[3 * i + 1].style == SpanStyle::HotKey
    &&& spans[3 * i + 2].text@ == description_tail(items[i].description@, i == items.len() - 1)
    &&& spans[3 * i + 2].style == SpanStyle::Plain
}

impl InfoBarItem {
    pub fn new(key: &str, description: &str) -> (item: Self)
        ensures
            item.key@ == key@,
            item.description@ == description@,
    {
        InfoBarItem { key: key.to_owned(), description: description.to_owned() }
    }
}

/// The info bar for `items`: for each item, `" ("`, its key in the hot-key
/// style, then `") "` and its description, followed by `" |"` unless it is
/// the last item. No items give no spans.
pub fn info_bar_text(items: &[InfoBarItem]) -> (spans: Vec<InfoBarSpan>)
    ensures
        spans@.len() == 3 * items@.len(),
        forall|i: int| 0 <= i < items@.len() ==> #[trigger] item_spans_match(spans@, items@, i),
{
    let mut spans: Vec<InfoBarSpan> = Vec::new();
    let n = items.len();
    if n == 0 {
        return spans;
    }
    let last_idx = n - 1;
    let mut idx: usize = 0;
    while idx < n
        invariant
            n == items@.len(),
            last_idx == n - 1,
            idx <= n,
            spans@.len() == 3 * idx,
            forall|i: int| 0 <= i < idx ==> #[trigger] item_spans_match(spans@, items@, i),
        decreases n - idx,
    {
        proof {
            reveal_strlit(" (");
            reveal_strlit(") ");
            reveal_strlit(" |");
        }
        let item = &items[idx];
        let mut tail = String::from_str(") ");
        tail.append(item.description.as_str());
        if idx != last_idx {
            tail.append(" |");
        }
        let ghost before = spans@;
        spans.push(InfoBarSpan { text: String::from_str(" ("), style: SpanStyle::Plain });
        spans.push(InfoBarSpan { text: item.key.clone(), style: SpanStyle::HotKey });
        spans.push(InfoBarSpan { text: tail, style: SpanStyle::Plain });
        assert forall|i: int| 0 <= i < idx + 1 implies #[trigger] item_spans_match(spans@, items@, i) by {
            if i < idx {
                assert(item_spans_match(before, items@, i));
                assert(spans@[3 * i] == before[3 * i]);
                assert(spans@[3 * i + 1] == before[3 * i + 1]);
                assert(spans@[3 * i + 2] == before[3 * i + 2]);
            } else {
                assert(spans@[3 * i].text@ == seq![' ', '(']);
                assert(spans@[3 * i].style == SpanStyle::Plain);
                assert(spans@[3 * i + 1].text@ == items@[i].key@);
                assert(spans@[3 * i + 1].style == SpanStyle::HotKey);
                assert(spans@[3 * i + 2].text@ == description_tail(items@[i].description@, i == items@.len() - 1));
                assert(spans@[3 * i + 2].style == SpanStyle::Plain);
            }
        }
        idx = idx + 1;
    }
    spans
}

/// The hot keys of the timer and what they do, in the order the info bar
/// lists them.
pub fn control_info_items() -> (items: Vec<InfoBarItem>)
    ensures
        items@.len() == 5,
        items@[0].key@ == "s"@ && items@[0].description@ == "start timer"@,
        items@[1].key@ == "p"@ && items@[1].description@ == "pause toggle"@,
        items@[2].key@ == "r"@ && items@[2].description@ == "reset timer"@,
        items@[3].key@ == "q"@ && items@[3].description@ == "quit"@,
        items@[4].key@ == "↑↓"@ && items@[4].description@ == "add / sub time"@,
{
    let mut items: Vec<InfoBarItem> = Vec::new();
    items.push(InfoBarItem::new("s", "start timer"));
    items.push(InfoBarItem::new("p", "pause toggle"));
    items.push(InfoBarItem::new("r", "reset timer"));
    items.push(InfoBarItem::new("q", "quit"));
    items.push(InfoBarItem::new("↑↓", "add / sub time"));
    items
}

} // verus!
