use vstd::prelude::*;

use crate::decode::{flag_of, DecodeError};
use crate::document::{query_text, QueryModel};
use crate::metadata::{attribute_row, dataset_row, filter_row};
use crate::query::{built, filter_entry, BuilderModel};

verus! {

/// Building twice from the same builder state gives the same XML text, byte
/// for byte.
pub proof fn lemma_build_repeatable(b: BuilderModel, first: QueryModel, second: QueryModel)
    requires
        first == built(b),
        second == built(b),
    ensures
        query_text(first) == query_text(second),
{
}

/// The built document holds one filter element for each recorded filter and
/// one attribute element for each recorded attribute, in call order.
pub proof fn lemma_build_keeps_call_order(b: BuilderModel)
    ensures
        built(b).dataset.filters.len() == b.filters.len(),
        forall|i: int|
            0 <= i < b.filters.len() ==> #[trigger] built(b).dataset.filters[i] == filter_entry(
                b.filters[i].0,
                b.filters[i].1,
            ),
        built(b).dataset.attributes == b.attributes,
        built(b).dataset.name == b.dataset,
{
}

/// A flag byte decodes only from zero (to false) and one (to true); every
/// other byte fails.
pub proof fn lemma_flag_strict(v: u8)
    ensures
        flag_of(v) == Ok::<bool, DecodeError>(false) <==> v == 0,
        flag_of(v) == Ok::<bool, DecodeError>(true) <==> v == 1,
        flag_of(v) is Err <==> v > 1,
{
}

/// The number of rows that `decode` accepts.
pub open spec fn count_decoded<A>(
    rows: Seq<Seq<Seq<char>>>,
    decode: spec_fn(Seq<Seq<char>>) -> Option<A>,
) -> nat
    decreases rows.len(),
{
    if rows.len() == 0 {
        0
    } else {
        count_decoded(rows.drop_last(), decode) + if decode(rows.last()) is Some {
            1nat
        } else {
            0nat
        }
    }
}

proof fn lemma_filter_map_counts<A>(
    rows: Seq<Seq<Seq<char>>>,
    decode: spec_fn(Seq<Seq<char>>) -> Option<A>,
)
    ensures
        rows.filter_map(decode).len() == count_decoded(rows, decode),
    decreases rows.len(),
{
    if rows.len() > 0 {
        lemma_filter_map_counts(rows.drop_last(), decode);
    }
}

/// Decoding the dataset listing keeps one record per valid row and drops the
/// rest; a row with another number of columns than nine is never valid.
pub proof fn lemma_dataset_listing_drops_malformed(rows: Seq<Seq<Seq<char>>>)
    ensures
        rows.filter_map(|f: Seq<Seq<char>>| dataset_row(f)).len() == count_decoded(
            rows,
            |f: Seq<Seq<char>>| dataset_row(f),
        ),
        forall|f: Seq<Seq<char>>| f.len() != 9 ==> #[trigger] dataset_row(f) is None,
{
    lemma_filter_map_counts(rows, |f: Seq<Seq<char>>| dataset_row(f));
}

/// Decoding the filter listing keeps one record per valid row and drops the
/// rest; a row with another number of columns than nine is never valid.
pub proof fn lemma_filter_listing_drops_malformed(rows: Seq<Seq<Seq<char>>>)
    ensures
        rows.filter_map(|f: Seq<Seq<char>>| filter_row(f)).len() == count_decoded(
            rows,
            |f: Seq<Seq<char>>| filter_row(f),
        ),
        forall|f: Seq<Seq<char>>| #[trigger] filter_row(f) is None <==> f.len() != 9,
{
    lemma_filter_map_counts(rows, |f: Seq<Seq<char>>| filter_row(f));
}

/// Decoding the attribute listing keeps one record per valid row and drops
/// the rest; a row with another number of columns than seven is never valid.
pub proof fn lemma_attribute_listing_drops_malformed(rows: Seq<Seq<Seq<char>>>)
    ensures
        rows.filter_map(|f: Seq<Seq<char>>| attribute_row(f)).len() == count_decoded(
            rows,
            |f: Seq<Seq<char>>| attribute_row(f),
        ),
        forall|f: Seq<Seq<char>>| #[trigger] attribute_row(f) is None <==> f.len() != 7,
{
    lemma_filter_map_counts(rows, |f: Seq<Seq<char>>| attribute_row(f));
}

} // verus!
