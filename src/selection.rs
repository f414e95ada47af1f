use vstd::prelude::*;

verus! {

use crate::error::CommandError;
use crate::text::{text_of_bytes, utf8_text};

/// The entries that are text, in their order.
pub open spec fn kept_texts(s: Seq<Option<Seq<char>>>) -> Seq<Seq<char>> {
    s.filter_map(|o: Option<Seq<char>>| o)
}

/// The text view of an entry.
pub open spec fn text_view(o: Option<String>) -> Option<Seq<char>> {
    match o {
        Some(s) => Some(s@),
        None => None,
    }
}

/// What a file selection returns, given the dialog's answer with each chosen
/// path as text or `None` where it is not text: `NoSelection` where the dialog
/// was cancelled or nothing was chosen; else the paths that are text, in the
/// order chosen.
pub fn selection_from_texts(picked: Option<Vec<Option<String>>>) -> (r: Result<Vec<String>, CommandError>)
    ensures
        match picked {
            Some(ps) if ps@.len() > 0 => r matches Ok(out)
                && out@.map_values(|s: String| s@) == kept_texts(ps@.map_values(|o: Option<String>| text_view(o))),
            _ => r == Err::<Vec<String>, CommandError>(CommandError::NoSelection),
        },
{
    match picked {
        None => Err(CommandError::NoSelection),
        Some(ps) => {
            if ps.len() == 0 {
                return Err(CommandError::NoSelection);
            }
            let ghost views = ps@.map_values(|o: Option<String>| text_view(o));
            let mut out: Vec<String> = Vec::new();
            let mut i: usize = 0;
            while i < ps.len()
                invariant
                    i <= ps@.len(),
                    views == ps@.map_values(|o: Option<String>| text_view(o)),
                    out@.map_values(|s: String| s@) == kept_texts(views.subrange(0, i as int)),
                decreases ps@.len() - i,
            {
                assert(views.subrange(0, i + 1).drop_last() =~= views.subrange(0, i as int));
                match &ps[i] {
                    Some(s) => {
                        out.push(s.clone());
                    },
                    None => {},
                }
                assert(out@.map_values(|s: String| s@) =~= kept_texts(views.subrange(0, i + 1)));
                i = i + 1;
            }
            assert(views.subrange(0, ps@.len() as int) =~= views);
            Ok(out)
        },
    }
}

/// What a file selection returns, given the dialog's answer with each chosen
/// path as the operating system's bytes: `NoSelection` where the dialog was
/// cancelled or nothing was chosen; else the paths that are valid UTF-8, as
/// text, in the order chosen. Paths that are not text are left out.
pub fn selection_result(picked: Option<Vec<Vec<u8>>>) -> (r: Result<Vec<String>, CommandError>)
    ensures
        match picked {
            Some(ps) if ps@.len() > 0 => r matches Ok(out)
                && out@.map_values(|s: String| s@) == kept_texts(ps@.map_values(|p: Vec<u8>| utf8_text(p@))),
            _ => r == Err::<Vec<String>, CommandError>(CommandError::NoSelection),
        },
{
    match picked {
        None => Err(CommandError::NoSelection),
        Some(ps) => {
            let mut texts: Vec<Option<String>> = Vec::new();
            let mut i: usize = 0;
            while i < ps.len()
                invariant
                    i <= ps@.len(),
                    texts@.len() == i,
                    forall|j: int| 0 <= j < i ==> text_view(#[trigger] texts@[j]) == utf8_text(ps@[j]@),
                decreases ps@.len() - i,
            {
                let t = text_of_bytes(&ps[i]);
                texts.push(t);
                i = i + 1;
            }
            assert(texts@.map_values(|o: Option<String>| text_view(o)) =~= ps@.map_values(|p: Vec<u8>| utf8_text(p@)));
            selection_from_texts(Some(texts))
        },
    }
}

/// A selection keeps exactly its entries that are text, in the order chosen:
/// as many as there are such entries, and each one in turn.
pub proof fn lemma_selection_keeps_text_in_order(s: Seq<Option<Seq<char>>>)
    ensures
        kept_texts(s) == s.filter(|o: Option<Seq<char>>| o is Some).map_values(|o: Option<Seq<char>>| o->Some_0),
        kept_texts(s).len() == s.filter(|o: Option<Seq<char>>| o is Some).len(),
    decreases s.len(),
{
    reveal(Seq::filter);
    let is_text = |o: Option<Seq<char>>| o is Some;
    let unwrap = |o: Option<Seq<char>>| o->Some_0;
    if s.len() > 0 {
        lemma_selection_keeps_text_in_order(s.drop_last());
        assert(s.filter(is_text) == {
            let sub = s.drop_last().filter(is_text);
            if is_text(s.last()) { sub.push(s.last()) } else { sub }
        });
        assert(kept_texts(s) =~= s.filter(is_text).map_values(unwrap));
    } else {
        assert(kept_texts(s) =~= s.filter(is_text).map_values(unwrap));
    }
}

} // verus!
