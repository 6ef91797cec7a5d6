//! Renderings of the library's values in the `Debug` style, used by explanations.
use vstd::prelude::*;
use crate::text::{str_debug, debug_str};

verus! {

/// A type whose values have a textual rendering in the `Debug` style.
pub trait DebugText {
    spec fn spec_debug(&self) -> Seq<char>;

    fn debug_text(&self) -> (r: String)
        ensures
            r@ == self.spec_debug(),
    ;
}

/// The items separated by `, `.
pub open spec fn joined(items: Seq<Seq<char>>) -> Seq<char>
    decreases items.len(),
{
    if items.len() == 0 {
        Seq::empty()
    } else if items.len() == 1 {
        items[0]
    } else {
        joined(items.drop_last()) + seq![',', ' '] + items.last()
    }
}

/// The items in brackets, separated by `, `: `[a, b]`.
pub open spec fn list_text(items: Seq<Seq<char>>) -> Seq<char> {
    seq!['['] + joined(items) + seq![']']
}

/// The renderings of `items`.
pub open spec fn debug_texts<T: DebugText>(items: Seq<T>) -> Seq<Seq<char>> {
    items.map_values(|t: T| t.spec_debug())
}

/// The quoted renderings of `items`.
pub open spec fn quoted_texts(items: Seq<String>) -> Seq<Seq<char>> {
    items.map_values(|s: String| str_debug(s@))
}

/// Appends `[a, b, ...]` of the given renderings to `r`.
pub fn push_list(r: &mut String, items: &Vec<String>)
    ensures
        final(r)@ == old(r)@ + list_text(items@.map_values(|s: String| s@)),
{
    let ghost texts = items@.map_values(|s: String| s@);
    r.append("[");
    let ghost start = r@;
    let mut i: usize = 0;
    while i < items.len()
        invariant
            i <= items@.len(),
            texts == items@.map_values(|s: String| s@),
            r@ == start + joined(texts.take(i as int)),
        decreases items@.len() - i,
    {
        if i > 0 {
            r.append(", ");
        }
        r.append(items[i].as_str());
        proof {
            reveal_strlit(", ");
            assert(texts.take(i + 1).drop_last() =~= texts.take(i as int));
            assert(texts.take(i + 1).last() == items@[i as int]@);
            if i == 0 {
                assert(texts.take(1)[0] == items@[0]@);
            }
        }
        i += 1;
    }
    r.append("]");
    proof {
        reveal_strlit("[");
        reveal_strlit("]");
        assert(texts.take(items@.len() as int) =~= texts);
    }
}

/// The renderings of `items`, in order.
pub fn debug_texts_of<T: DebugText>(items: &Vec<T>) -> (r: Vec<String>)
    ensures
        r@.map_values(|s: String| s@) == debug_texts(items@),
{
    let mut r: Vec<String> = Vec::new();
    let mut i: usize = 0;
    while i < items.len()
        invariant
            i <= items@.len(),
            r@.map_values(|s: String| s@) == debug_texts(items@.take(i as int)),
        decreases items@.len() - i,
    {
        let t = items[i].debug_text();
        let ghost prev = r@;
        r.push(t);
        proof {
            assert(r@ == prev.push(t));
            assert(debug_texts(items@.take(i + 1)) =~= debug_texts(items@.take(i as int)).push(t@));
            assert(r@.map_values(|s: String| s@) =~= prev.map_values(|s: String| s@).push(t@));
        }
        i += 1;
    }
    proof {
        assert(items@.take(items@.len() as int) =~= items@);
    }
    r
}

/// The quoted renderings of `items`, in order.
pub fn quoted_texts_of(items: &Vec<String>) -> (r: Vec<String>)
    ensures
        r@.map_values(|s: String| s@) == quoted_texts(items@),
{
    let mut r: Vec<String> = Vec::new();
    let mut i: usize = 0;
    while i < items.len()
        invariant
            i <= items@.len(),
            r@.map_values(|s: String| s@) == quoted_texts(items@.take(i as int)),
        decreases items@.len() - i,
    {
        let t = debug_str(items[i].as_str());
        let ghost prev = r@;
        r.push(t);
        proof {
            assert(r@ == prev.push(t));
            assert(quoted_texts(items@.take(i + 1)) =~= quoted_texts(items@.take(i as int)).push(t@));
            assert(r@.map_values(|s: String| s@) =~= prev.map_values(|s: String| s@).push(t@));
        }
        i += 1;
    }
    proof {
        assert(items@.take(items@.len() as int) =~= items@);
    }
    r
}

} // verus!
