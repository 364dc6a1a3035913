//! Pieces of text that several commands answer with.

use vstd::prelude::*;
use crate::db::row::DbError;
use crate::response::{is_error, BotResponse};
use crate::text::{cat, join_with_spec};

verus! {

/// The answer to a failed statement: `DB error: <message>`.
pub fn db_error(e: &DbError) -> (r: BotResponse)
    ensures
        is_error(r, "DB error: "@ + e.message@),
{
    BotResponse::Error(cat("DB error: ", e.message.as_str()))
}

/// One bullet line per item.
pub open spec fn bullets_spec(items: Seq<Seq<char>>) -> Seq<char> {
    join_with_spec(items.map_values(|t: Seq<char>| "  • "@ + t), "\n"@)
}

/// The items as bullet lines (`  • item`), one per line.
pub fn bullet_lines(items: &Vec<String>) -> (r: String)
    ensures
        r@ == bullets_spec(items@.map_values(|p: String| p@)),
{
    let ghost pv = items@.map_values(|p: String| p@).map_values(|t: Seq<char>| "  • "@ + t);
    let mut r = String::new();
    let mut i: usize = 0;
    assert(pv.take(0) =~= Seq::<Seq<char>>::empty());
    while i < items.len()
        invariant
            i <= items@.len(),
            pv == items@.map_values(|p: String| p@).map_values(|t: Seq<char>| "  • "@ + t),
            r@ == join_with_spec(pv.take(i as int), "\n"@),
        decreases items@.len() - i,
    {
        assert(pv.take(i + 1).drop_last() =~= pv.take(i as int));
        assert(pv.take(i + 1).last() == "  • "@ + items@[i as int]@);
        if i > 0 {
            r.append("\n");
        } else {
            assert(pv.take(i + 1).len() == 1);
        }
        r.append("  • ");
        r.append(items[i].as_str());
        i = i + 1;
    }
    assert(pv.take(i as int) =~= pv);
    r
}

} // verus!
