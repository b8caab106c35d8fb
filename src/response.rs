use vstd::prelude::*;

use crate::text::{copy_strings, strs};
use crate::tsv::{read_records, table, tsv_records};

verus! {

/// The raw tab-separated text of a query's result, with its header row.
#[derive(Debug)]
pub struct Response {
    raw: String,
}

impl View for Response {
    type V = Seq<char>;

    closed spec fn view(&self) -> Seq<char> {
        self.raw@
    }
}

/// The header row of a result: the first record, or an empty one where the
/// text holds none; `None` where the reader refused the first record.
pub open spec fn header_of(recs: Seq<Option<Seq<Seq<char>>>>) -> Option<Seq<Seq<char>>> {
    if recs.len() == 0 {
        Some(Seq::empty())
    } else {
        recs[0]
    }
}

/// The number of fields that every data row must have.
pub open spec fn width_of(recs: Seq<Option<Seq<Seq<char>>>>) -> nat {
    match header_of(recs) {
        Some(h) => h.len(),
        None => 0,
    }
}

/// A data row that is kept: read without error and as wide as the header.
pub open spec fn kept_row(rec: Option<Seq<Seq<char>>>, width: nat) -> Option<Seq<Seq<char>>> {
    match rec {
        Some(f) => if f.len() == width {
            Some(f)
        } else {
            None
        },
        None => None,
    }
}

/// The data rows of a result, in order: every record after the header that is
/// as wide as the header.
pub open spec fn rows_of(recs: Seq<Option<Seq<Seq<char>>>>) -> Seq<Seq<Seq<char>>> {
    if recs.len() == 0 {
        Seq::empty()
    } else {
        recs.drop_first().filter_map(
            |r: Option<Seq<Seq<char>>>| kept_row(r, width_of(recs)),
        )
    }
}

impl Response {
    /// Wraps the text that the service sent back.
    pub fn new(raw: String) -> (r: Response)
        ensures
            r@ == raw@,
    {
        Response { raw }
    }

    /// The text as it came.
    pub fn raw(&self) -> (r: &str)
        ensures
            r@ == self@,
    {
        self.raw.as_str()
    }

    /// The header row, read again from the text at each call.
    pub fn header(&self) -> (r: Option<Vec<String>>)
        ensures
            r is Some <==> header_of(tsv_records(self@)) is Some,
            r is Some ==> header_of(tsv_records(self@)) == Some(strs(r->Some_0@)),
    {
        let recs = read_records(self.raw.as_str());
        if recs.len() == 0 {
            let h: Vec<String> = Vec::new();
            assert(strs(h@) =~= Seq::<Seq<char>>::empty());
            Some(h)
        } else {
            match &recs[0] {
                Ok(f) => Some(copy_strings(f)),
                Err(_) => None,
            }
        }
    }

    /// The data rows after the header, read again from the text at each
    /// call; a row of another width than the header is left out.
    pub fn records(&self) -> (r: Vec<Vec<String>>)
        ensures
            table(r@) == rows_of(tsv_records(self@)),
    {
        let recs = read_records(self.raw.as_str());
        let ghost all = tsv_records(self@);
        let mut out: Vec<Vec<String>> = Vec::new();
        if recs.len() == 0 {
            assert(table(out@) =~= Seq::<Seq<Seq<char>>>::empty());
            return out;
        }
        let width: usize = match &recs[0] {
            Ok(f) => f.len(),
            Err(_) => 0,
        };
        assert(width == width_of(all)) by {
            if recs@[0] is Ok {
                assert(strs(recs@[0]->Ok_0@).len() == recs@[0]->Ok_0@.len());
            }
        }
        let ghost rest = all.drop_first();
        let mut i: usize = 1;
        while i < recs.len()
            invariant
                1 <= i <= recs.len(),
                recs@.len() == all.len(),
                all == tsv_records(self@),
                rest == all.drop_first(),
                width == width_of(all),
                forall|k: int|
                    0 <= k < recs@.len() ==> (#[trigger] recs@[k] is Ok <==> all[k] is Some),
                forall|k: int|
                    0 <= k < recs@.len() && #[trigger] recs@[k] is Ok ==> strs(recs@[k]->Ok_0@)
                        == all[k]->Some_0,
                table(out@) == rest.take(i - 1).filter_map(
                    |r: Option<Seq<Seq<char>>>| kept_row(r, width as nat),
                ),
            decreases recs.len() - i,
        {
            assert(rest.take(i as int).drop_last() == rest.take(i - 1));
            assert(rest.take(i as int).last() == all[i as int]);
            match &recs[i] {
                Ok(f) => {
                    if f.len() == width {
                        let ghost prev = out@;
                        out.push(copy_strings(f));
                        assert(table(out@) =~= table(prev).push(strs(f@)));
                    }
                },
                Err(_) => {},
            }
            i += 1;
        }
        assert(rest.take(recs.len() - 1) == rest);
        out
    }
}

} // verus!
