//! The receipt-reading request to the language model and the selection of
//! the receipt text in its response.

use vstd::prelude::*;
use vstd::string::*;

verus! {

/// One entry of the `output` array of a model response: the `text` of each
/// of its `content` parts, `None` for a part without a string `text`; no
/// parts when `content` is not an array.
pub struct OcrOutputItem {
    pub content: Option<Vec<Option<String>>>,
}

/// The parts of a model response that are read: `output_text` when it is a
/// string, and `output` when it is an array.
pub struct OcrResponse {
    pub output_text: Option<String>,
    pub output: Option<Vec<OcrOutputItem>>,
}

/// The first part text in `parts`.
pub open spec fn first_text(parts: Seq<Option<String>>) -> Option<Seq<char>>
    decreases parts.len(),
{
    if parts.len() == 0 {
        None
    } else {
        match parts[0] {
            Some(t) => Some(t@),
            None => first_text(parts.drop_first()),
        }
    }
}

/// The first part text over the items, in order.
pub open spec fn first_item_text(items: Seq<OcrOutputItem>) -> Option<Seq<char>>
    decreases items.len(),
{
    if items.len() == 0 {
        None
    } else {
        match items[0].content {
            Some(parts) => match first_text(parts@) {
                Some(t) => Some(t),
                None => first_item_text(items.drop_first()),
            },
            None => first_item_text(items.drop_first()),
        }
    }
}

/// The receipt text of a response: the first text among the content parts
/// of the `output` items, read only when the response has no
/// `output_text`.
pub open spec fn receipt_text_of(resp: OcrResponse) -> Option<Seq<char>> {
    if resp.output_text is Some {
        None
    } else {
        match resp.output {
            Some(items) => first_item_text(items@),
            None => None,
        }
    }
}

/// Part `j` is the first part of `parts` with a text.
pub open spec fn is_first_text_part(parts: Seq<Option<String>>, j: int) -> bool {
    &&& 0 <= j < parts.len()
    &&& parts[j] is Some
    &&& forall|k: int| 0 <= k < j ==> #[trigger] parts[k] is None
}

/// The item has no part with a text.
pub open spec fn item_without_text(item: OcrOutputItem) -> bool {
    match item.content {
        Some(parts) => forall|k: int| 0 <= k < parts@.len() ==> #[trigger] parts@[k] is None,
        None => true,
    }
}

proof fn lemma_first_text_at(parts: Seq<Option<String>>, j: int)
    requires
        is_first_text_part(parts, j),
    ensures
        first_text(parts) == Some(parts[j]->0@),
    decreases j,
{
    if j > 0 {
        let rest = parts.drop_first();
        assert forall|k: int| 0 <= k < j - 1 implies #[trigger] rest[k] is None by {
            assert(rest[k] == parts[k + 1]);
        }
        assert(parts[0] is None);
        lemma_first_text_at(rest, j - 1);
    }
}

proof fn lemma_first_text_none(parts: Seq<Option<String>>)
    requires
        forall|k: int| 0 <= k < parts.len() ==> #[trigger] parts[k] is None,
    ensures
        first_text(parts) is None,
    decreases parts.len(),
{
    if parts.len() > 0 {
        let rest = parts.drop_first();
        assert forall|k: int| 0 <= k < rest.len() implies #[trigger] rest[k] is None by {
            assert(rest[k] == parts[k + 1]);
        }
        assert(parts[0] is None);
        lemma_first_text_none(rest);
    }
}

proof fn lemma_first_item_text_at(items: Seq<OcrOutputItem>, i: int, j: int)
    requires
        0 <= i < items.len(),
        items[i].content matches Some(parts) && is_first_text_part(parts@, j),
        forall|k: int| 0 <= k < i ==> item_without_text(#[trigger] items[k]),
    ensures
        first_item_text(items) == Some(items[i].content->0@[j]->0@),
    decreases i,
{
    if i == 0 {
        lemma_first_text_at(items[0].content->0@, j);
    } else {
        assert(item_without_text(items[0]));
        if let Some(parts) = items[0].content {
            lemma_first_text_none(parts@);
        }
        let rest = items.drop_first();
        assert forall|k: int| 0 <= k < i - 1 implies item_without_text(#[trigger] rest[k]) by {
            assert(rest[k] == items[k + 1]);
        }
        assert(rest[i - 1] == items[i]);
        lemma_first_item_text_at(rest, i - 1, j);
    }
}

proof fn lemma_first_item_text_none(items: Seq<OcrOutputItem>)
    requires
        forall|k: int| 0 <= k < items.len() ==> item_without_text(#[trigger] items[k]),
    ensures
        first_item_text(items) is None,
    decreases items.len(),
{
    if items.len() > 0 {
        assert(item_without_text(items[0]));
        if let Some(parts) = items[0].content {
            lemma_first_text_none(parts@);
        }
        let rest = items.drop_first();
        assert forall|k: int| 0 <= k < rest.len() implies item_without_text(#[trigger] rest[k]) by {
            assert(rest[k] == items[k + 1]);
        }
        lemma_first_item_text_none(rest);
    }
}

/// A response that carries an `output_text` yields no receipt text.
pub proof fn output_text_yields_no_receipt(resp: OcrResponse)
    requires
        resp.output_text is Some,
    ensures
        receipt_text_of(resp) is None,
{
}

/// Without `output_text`, the receipt text is the text of the first part
/// that has one, over the `output` items in order from the first: when
/// items `0..i` hold no text and part `j` is the first part of item `i` with
/// a text, the receipt text is that part's text.
pub proof fn receipt_is_the_first_part_text(resp: OcrResponse, i: int, j: int)
    requires
        resp.output_text is None,
        resp.output matches Some(items) && {
            &&& 0 <= i < items@.len()
            &&& forall|k: int| 0 <= k < i ==> item_without_text(#[trigger] items@[k])
            &&& items@[i].content matches Some(parts) && is_first_text_part(parts@, j)
        },
    ensures
        receipt_text_of(resp) == Some(resp.output->0@[i].content->0@[j]->0@),
{
    lemma_first_item_text_at(resp.output->0@, i, j);
}

/// Without `output_text`, a response none of whose `output` items has a
/// part with a text yields no receipt text.
pub proof fn no_part_text_yields_no_receipt(resp: OcrResponse)
    requires
        resp.output matches Some(items) ==> forall|k: int|
            0 <= k < items@.len() ==> item_without_text(#[trigger] items@[k]),
    ensures
        receipt_text_of(resp) is None,
{
    if let Some(items) = resp.output {
        lemma_first_item_text_none(items@);
    }
}

fn find_first_text(parts: &Vec<Option<String>>) -> (r: Option<String>)
    ensures
        match r {
            Some(t) => first_text(parts@) == Some(t@),
            None => first_text(parts@) is None,
        },
{
    let mut i: usize = 0;
    assert(parts@.subrange(0, parts@.len() as int) =~= parts@);
    while i < parts.len()
        invariant
            i <= parts@.len(),
            first_text(parts@) == first_text(parts@.subrange(i as int, parts@.len() as int)),
        decreases parts@.len() - i,
    {
        let ghost rest = parts@.subrange(i as int, parts@.len() as int);
        assert(rest.drop_first() =~= parts@.subrange(i + 1, parts@.len() as int));
        match &parts[i] {
            Some(t) => {
                return Some(t.clone());
            },
            None => {},
        }
        i = i + 1;
    }
    assert(parts@.subrange(i as int, parts@.len() as int).len() == 0);
    None
}

/// Picks the receipt text out of a model response.
pub fn select_receipt_text(resp: &OcrResponse) -> (r: Option<String>)
    ensures
        match r {
            Some(t) => receipt_text_of(*resp) == Some(t@),
            None => receipt_text_of(*resp) is None,
        },
{
    if resp.output_text.is_some() {
        return None;
    }
    match &resp.output {
        Some(items) => {
            let mut i: usize = 0;
            assert(items@.subrange(0, items@.len() as int) =~= items@);
            while i < items.len()
                invariant
                    resp.output_text is None,
                    resp.output == Some(*items),
                    i <= items@.len(),
                    first_item_text(items@) == first_item_text(
                        items@.subrange(i as int, items@.len() as int),
                    ),
                decreases items@.len() - i,
            {
                let ghost rest = items@.subrange(i as int, items@.len() as int);
                assert(rest.drop_first() =~= items@.subrange(i + 1, items@.len() as int));
                assert(rest[0] == items@[i as int]);
                match &items[i].content {
                    Some(parts) => {
                        match find_first_text(parts) {
                            Some(t) => {
                                assert(rest[0].content == Some(*parts));
                                return Some(t);
                            },
                            None => {},
                        }
                    },
                    None => {},
                }
                i = i + 1;
            }
            assert(items@.subrange(i as int, items@.len() as int).len() == 0);
            None
        },
        None => None,
    }
}

/// The data URL under which the base64-encoded image is sent to the model.
pub fn image_data_url(base64_image: &str) -> (r: String)
    ensures
        r@ == "data:image/jpeg;base64,"@ + base64_image@,
{
    let mut url = "data:image/jpeg;base64,".to_owned();
    url.append(base64_image);
    url
}

} // verus!
