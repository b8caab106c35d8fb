use vstd::prelude::*;

use crate::text::{copy_strings, strs};

verus! {

#[verifier::external_type_specification]
#[verifier::external_body]
pub struct ExCsvError(csv::Error);

/// The fields of each row.
pub open spec fn table(rows: Seq<Vec<String>>) -> Seq<Seq<Seq<char>>> {
    rows.map_values(|r: Vec<String>| strs(r@))
}

/// The records that the csv reader finds in tab-separated `text`, in order:
/// the fields of each, or `None` where the reader gave an error.
pub uninterp spec fn tsv_records(text: Seq<char>) -> Seq<Option<Seq<Seq<char>>>>;

/// `s` without leading and trailing whitespace.
pub uninterp spec fn trimmed(s: Seq<char>) -> Seq<char>;

/// Relies on csv::Reader::records, read with a tab delimiter, no header row
/// and rows of any length: each record of `text` in order, as its fields or
/// as the error that the reader gave for it.
#[verifier::external_body]
pub(crate) fn read_records(text: &str) -> (r: Vec<Result<Vec<String>, csv::Error>>)
    ensures
        r@.len() == tsv_records(text@).len(),
        forall|i: int|
            0 <= i < r@.len() ==> (#[trigger] r@[i] is Ok <==> tsv_records(text@)[i] is Some),
        forall|i: int|
            0 <= i < r@.len() && #[trigger] r@[i] is Ok ==> strs(r@[i]->Ok_0@) == tsv_records(
                text@,
            )[i]->Some_0,
{
    csv::ReaderBuilder::new()
        .has_headers(false)
        .delimiter(b'\t')
        .flexible(true)
        .from_reader(text.as_bytes())
        .records()
        .map(|r| r.map(|rec| rec.iter().map(String::from).collect()))
        .collect()
}

/// Relies on str::trim: `s` without its leading and trailing whitespace.
#[verifier::external_body]
pub(crate) fn trim_text(s: &str) -> (r: &str)
    ensures
        r@ == trimmed(s@),
{
    s.trim()
}

/// The records that the reader read without error, in order.
pub open spec fn good_records(recs: Seq<Option<Seq<Seq<char>>>>) -> Seq<Seq<Seq<char>>> {
    recs.filter_map(|r: Option<Seq<Seq<char>>>| r)
}

/// Keeps the records that were read without error.
pub(crate) fn ok_records(
    recs: &Vec<Result<Vec<String>, csv::Error>>,
    text: Ghost<Seq<char>>,
) -> (r: Vec<Vec<String>>)
    requires
        recs@.len() == tsv_records(text@).len(),
        forall|i: int|
            0 <= i < recs@.len() ==> (#[trigger] recs@[i] is Ok <==> tsv_records(text@)[i] is Some),
        forall|i: int|
            0 <= i < recs@.len() && #[trigger] recs@[i] is Ok ==> strs(recs@[i]->Ok_0@)
                == tsv_records(text@)[i]->Some_0,
    ensures
        table(r@) == good_records(tsv_records(text@)),
{
    let ghost all = tsv_records(text@);
    let mut out: Vec<Vec<String>> = Vec::new();
    let n = recs.len();
    let mut i: usize = 0;
    while i < n
        invariant
            n == recs.len(),
            i <= n,
            all == tsv_records(text@),
            recs@.len() == all.len(),
            forall|k: int| 0 <= k < recs@.len() ==> (#[trigger] recs@[k] is Ok <==> all[k] is Some),
            forall|k: int|
                0 <= k < recs@.len() && #[trigger] recs@[k] is Ok ==> strs(recs@[k]->Ok_0@)
                    == all[k]->Some_0,
            table(out@) == good_records(all.take(i as int)),
        decreases n - i,
    {
        assert(all.take(i as int + 1).drop_last() == all.take(i as int));
        assert(all.take(i as int + 1).last() == all[i as int]);
        match &recs[i] {
            Ok(f) => {
                let ghost prev = out@;
                let fields = copy_strings(f);
                out.push(fields);
                assert(table(out@) =~= table(prev).push(strs(f@)));
            },
            Err(_) => {},
        }
        i += 1;
    }
    assert(all.take(n as int) == all);
    out
}

} // verus!
