use vstd::prelude::*;

use super::decode::{column_names, row_values};
use crate::rdb_qry_handler::datatype::DataValue;
use crate::rdb_qry_handler::protocol::QueryItem;
use crate::rdb_qry_handler::{DataRecord, DataRows};

verus! {

/// The column names that a stream item announces, where it is metadata.
pub open spec fn item_meta(item: QueryItem) -> Option<Seq<String>> {
    match item {
        QueryItem::Metadata(meta) => Some(column_names(meta)),
        QueryItem::Row(_) => None,
    }
}

/// The cells of the row that a stream item carries, where it is a row.
pub open spec fn item_row(item: QueryItem) -> Option<Seq<Option<DataValue>>> {
    match item {
        QueryItem::Metadata(_) => None,
        QueryItem::Row(row) => Some(row_values(row)),
    }
}

/// The column names announced last among `items`; absent where no item is
/// metadata. Later names replace earlier ones.
pub open spec fn latest_meta(items: Seq<QueryItem>) -> Option<Seq<String>>
    decreases items.len(),
{
    if items.len() == 0 {
        None
    } else {
        match item_meta(items.last()) {
            Some(names) => Some(names),
            None => latest_meta(items.drop_last()),
        }
    }
}

/// The rows among `items`, decoded, in the order of their arrival.
pub open spec fn rows_of(items: Seq<QueryItem>) -> Seq<Seq<Option<DataValue>>>
    decreases items.len(),
{
    if items.len() == 0 {
        Seq::empty()
    } else {
        match item_row(items.last()) {
            Some(cells) => rows_of(items.drop_last()).push(cells),
            None => rows_of(items.drop_last()),
        }
    }
}

/// The cells of each of `records`.
pub open spec fn record_values(records: Seq<DataRecord>) -> Seq<Seq<Option<DataValue>>> {
    records.map_values(|record: DataRecord| record.values())
}

/// The column names that a continuation is shown.
pub open spec fn shown_names(names: Option<&[String]>) -> Option<Seq<String>> {
    match names {
        Some(names) => Some(names@),
        None => None,
    }
}

/// The cells of the record that a continuation is shown.
pub open spec fn shown_row(record: Option<&DataRecord>) -> Option<Seq<Option<DataValue>>> {
    match record {
        Some(record) => Some(record.values()),
        None => None,
    }
}

/// The continuation may give `answer` when it is shown the column names
/// `names` and the row `row`.
pub open spec fn may_answer<F: Fn(Option<&[String]>, Option<&DataRecord>) -> bool>(
    fetch_more: &F,
    names: Option<Seq<String>>,
    row: Option<Seq<Option<DataValue>>>,
    answer: bool,
) -> bool {
    exists|shown: (Option<&[String]>, Option<&DataRecord>)|
        shown_names(shown.0) == names && shown_row(shown.1) == row && #[trigger] call_ensures(
            fetch_more,
            shown,
            answer,
        )
}

/// The continuation may give `answer` at item `k` of the stream `items`: it
/// is then shown the column names announced last up to that item, and the
/// item's row if it is one.
pub open spec fn answers_at<F: Fn(Option<&[String]>, Option<&DataRecord>) -> bool>(
    fetch_more: &F,
    items: Seq<QueryItem>,
    k: int,
    answer: bool,
) -> bool {
    may_answer(fetch_more, latest_meta(items.take(k + 1)), item_row(items[k]), answer)
}

/// Reading the stream `items` under the continuation may end after `n`
/// items: the continuation asked for more at each item before the last one
/// read, and where items are left over it asked for no more at that last one.
pub open spec fn reads_to<F: Fn(Option<&[String]>, Option<&DataRecord>) -> bool>(
    fetch_more: &F,
    items: Seq<QueryItem>,
    n: int,
) -> bool {
    &&& 0 <= n <= items.len()
    &&& forall|k: int| 0 <= k < n - 1 ==> answers_at(fetch_more, items, k, true)
    &&& n < items.len() ==> n > 0 && answers_at(fetch_more, items, n - 1, false)
}

/// The continuation that always asks for more.
pub fn default_fetch_more(names: Option<&[String]>, record: Option<&DataRecord>) -> (more: bool)
    ensures
        more,
{
    true
}

/// What has been gathered of a result while its stream is read.
pub struct RowCollector {
    column_meta: Option<Vec<String>>,
    records: Vec<DataRecord>,
}

impl RowCollector {
    /// The column names announced last, where any were.
    pub closed spec fn spec_column_meta(&self) -> Option<Seq<String>> {
        match self.column_meta {
            Some(names) => Some(names@),
            None => None,
        }
    }

    /// The records gathered, first arrived first.
    pub closed spec fn spec_records(&self) -> Seq<DataRecord> {
        self.records@
    }

    pub fn new() -> (collector: RowCollector)
        ensures
            collector.spec_column_meta().is_none(),
            collector.spec_records().len() == 0,
    {
        RowCollector { column_meta: None, records: Vec::new() }
    }

    /// Takes in one stream item and asks the continuation whether to go on.
    /// Metadata replaces the column names held; a row is decoded and put
    /// behind the records held. The continuation is shown the column names
    /// then held and, for a row, its record.
    pub fn observe<F>(&mut self, item: QueryItem, fetch_more: &F) -> (need_more: bool) where
        F: Fn(Option<&[String]>, Option<&DataRecord>) -> bool,

        requires
            forall|names: Option<&[String]>, record: Option<&DataRecord>|
                call_requires(fetch_more, (names, record)),
        ensures
            final(self).spec_column_meta() == match item_meta(item) {
                Some(names) => Some(names),
                None => old(self).spec_column_meta(),
            },
            record_values(final(self).spec_records()) == match item_row(item) {
                Some(cells) => record_values(old(self).spec_records()).push(cells),
                None => record_values(old(self).spec_records()),
            },
            item_row(item).is_none() ==> final(self).spec_records() == old(self).spec_records(),
            item_row(item).is_some() ==> final(self).spec_records().drop_last() == old(
                self,
            ).spec_records(),
            may_answer(fetch_more, final(self).spec_column_meta(), item_row(item), need_more),
    {
        let (col_meta, record) = item.into_meta_rec();
        if col_meta.is_some() {
            self.column_meta = col_meta;
        }
        let names: Option<&[String]> = match &self.column_meta {
            Some(names) => Some(names.as_slice()),
            None => None,
        };
        let shown = record.as_ref();
        let need_more = fetch_more(names, shown);
        assert(call_ensures(fetch_more, (names, shown), need_more));
        if let Some(record) = record {
            self.records.push(record);
            assert(self.records@.drop_last() =~= old(self).records@);
            assert(record_values(self.records@) =~= record_values(old(self).records@).push(
                record.values(),
            ));
        }
        need_more
    }

    /// The result as gathered so far.
    pub fn finish(self) -> (rows: DataRows)
        ensures
            rows.spec_column_meta() == self.spec_column_meta(),
            rows.spec_records() == self.spec_records(),
    {
        DataRows::new(self.column_meta, self.records)
    }
}

/// Reads the stream `items` from its start, item by item, until it is used
/// up or the continuation asks for no more. The result holds the column
/// names announced last among the items read and the rows among them in the
/// order of their arrival; items behind the one at which the continuation
/// stopped the reading are not looked at.
pub fn collect_rows<F>(items: Vec<QueryItem>, fetch_more: &F) -> (rows: DataRows) where
    F: Fn(Option<&[String]>, Option<&DataRecord>) -> bool,

    requires
        forall|names: Option<&[String]>, record: Option<&DataRecord>|
            call_requires(fetch_more, (names, record)),
    ensures
        exists|n: int|
            {
                &&& #[trigger] reads_to(fetch_more, items@, n)
                &&& rows.spec_column_meta() == latest_meta(items@.take(n))
                &&& record_values(rows.spec_records()) == rows_of(items@.take(n))
            },
{
    let ghost all = items@;
    let mut collector = RowCollector::new();
    assert(record_values(collector.spec_records()) =~= rows_of(all.take(0)));
    for item in it: items
        invariant
            it.seq() == all,
            forall|names: Option<&[String]>, record: Option<&DataRecord>|
                call_requires(fetch_more, (names, record)),
            collector.spec_column_meta() == latest_meta(all.take(it.index() as int)),
            record_values(collector.spec_records()) == rows_of(all.take(it.index() as int)),
            forall|k: int| 0 <= k < it.index() ==> answers_at(fetch_more, all, k, true),
    {
        let ghost i = it.index() as int;
        assert(all.take(i + 1).drop_last() =~= all.take(i));
        assert(all.take(i + 1).last() == all[i]);
        let need_more = collector.observe(item, fetch_more);
        assert(answers_at(fetch_more, all, i, need_more));
        if !need_more {
            let rows = collector.finish();
            assert(reads_to(fetch_more, all, i + 1));
            return rows;
        }
    }
    assert(all.take(all.len() as int) =~= all);
    let rows = collector.finish();
    assert(reads_to(fetch_more, all, all.len() as int));
    rows
}

/// The rows among the first `n` items are the first rows of the whole
/// stream, in the same order.
proof fn rows_of_prefix(items: Seq<QueryItem>, n: int)
    requires
        0 <= n <= items.len(),
    ensures
        rows_of(items.take(n)).len() <= rows_of(items).len(),
        rows_of(items.take(n)) == rows_of(items).take(rows_of(items.take(n)).len() as int),
    decreases items.len(),
{
    if n == items.len() {
        assert(items.take(n) =~= items);
        assert(rows_of(items).take(rows_of(items).len() as int) =~= rows_of(items));
    } else {
        let shorter = items.drop_last();
        assert(shorter.take(n) =~= items.take(n));
        rows_of_prefix(shorter, n);
        let count = rows_of(items.take(n)).len() as int;
        assert(rows_of(items).take(count) =~= rows_of(shorter).take(count));
    }
}

/// Where the stream holds metadata, the column names announced last are
/// those of its last metadata item, however many came before it.
pub proof fn latest_meta_is_last_announced(items: Seq<QueryItem>, j: int)
    requires
        0 <= j < items.len(),
        item_meta(items[j]).is_some(),
        forall|k: int| j < k < items.len() ==> item_meta(#[trigger] items[k]).is_none(),
    ensures
        latest_meta(items) == item_meta(items[j]),
    decreases items.len(),
{
    if j < items.len() - 1 {
        latest_meta_is_last_announced(items.drop_last(), j);
    }
}

/// A stream without metadata announces no column names.
pub proof fn latest_meta_absent_without_metadata(items: Seq<QueryItem>)
    requires
        forall|k: int| 0 <= k < items.len() ==> item_meta(#[trigger] items[k]).is_none(),
    ensures
        latest_meta(items).is_none(),
    decreases items.len(),
{
    if items.len() > 0 {
        latest_meta_absent_without_metadata(items.drop_last());
    }
}

/// A continuation that never asks for no more has the whole stream read.
pub proof fn asking_for_more_reads_all<F: Fn(Option<&[String]>, Option<&DataRecord>) -> bool>(
    fetch_more: &F,
    items: Seq<QueryItem>,
    n: int,
)
    requires
        reads_to(fetch_more, items, n),
        forall|k: int| 0 <= k < items.len() ==> !#[trigger] answers_at(fetch_more, items, k, false),
    ensures
        n == items.len(),
        items.take(n) == items,
{
    assert(items.take(items.len() as int) =~= items);
}

/// Where the continuation asks for more at every item before item `stop`,
/// a row, and for no more at `stop`, the reading ends right behind `stop`:
/// the records gathered are the rows up to and including that one, which
/// are the first rows of the stream in the order of their arrival, and none
/// of a later item.
pub proof fn early_stop_keeps_first_rows<F: Fn(Option<&[String]>, Option<&DataRecord>) -> bool>(
    fetch_more: &F,
    items: Seq<QueryItem>,
    n: int,
    stop: int,
)
    requires
        reads_to(fetch_more, items, n),
        0 <= stop < items.len(),
        item_row(items[stop]).is_some(),
        forall|k: int| 0 <= k < stop ==> !#[trigger] answers_at(fetch_more, items, k, false),
        !answers_at(fetch_more, items, stop, true),
    ensures
        n == stop + 1,
        rows_of(items.take(n)).len() == rows_of(items.take(stop)).len() + 1,
        rows_of(items.take(n)) == rows_of(items).take(rows_of(items.take(n)).len() as int),
{
    if n - 1 > stop {
        assert(answers_at(fetch_more, items, stop, true));
    }
    if n - 1 < stop {
        assert(answers_at(fetch_more, items, n - 1, false));
    }
    assert(items.take(stop + 1).drop_last() =~= items.take(stop));
    rows_of_prefix(items, n);
}

} // verus!
