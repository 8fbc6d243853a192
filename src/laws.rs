use vstd::prelude::*;

use crate::entry::EntryView;
use crate::parse::{
    entries_of, entry_for, first_tab, has_tab, lemma_first_tab, record_entry, records_of,
    split_lines, UNINITIALIZED_NOTICE,
};

verus! {

/// A record made of an id without tabs, a tab and any content gives the entry
/// whose value is that id and whose name and description are that content;
/// tabs in the content stay in it.
pub proof fn lemma_record_fields(id: Seq<char>, content: Seq<char>)
    requires
        !has_tab(id),
    ensures
        record_entry(id + seq!['\t'] + content) == Some(entry_for(id, content)),
{
    let r = id + seq!['\t'] + content;
    let k = id.len() as int;
    assert(r[k] == '\t');
    assert forall|j: int| 0 <= j < k implies r[j] != '\t' by {
        assert(r[j] == id[j]);
    }
    lemma_first_tab(r, k);
    assert(r.take(k) =~= id);
    assert(r.skip(k + 1) =~= content);
}

/// The entry that a record holding a tab gives.
pub open spec fn entry_of_record(r: Seq<char>) -> EntryView {
    entry_for(r.take(first_tab(r)), r.skip(first_tab(r) + 1))
}

/// The entries are those of the records that hold a tab, one each, in the
/// order of the records: nothing is reordered.
pub proof fn lemma_entries_in_record_order(records: Seq<Seq<char>>)
    ensures
        entries_of(records) == records.filter(|r: Seq<char>| has_tab(r)).map_values(
            |r: Seq<char>| entry_of_record(r),
        ),
    decreases records.len(),
{
    let p = |r: Seq<char>| has_tab(r);
    let f = |r: Seq<char>| entry_of_record(r);
    if records.len() > 0 {
        let rest = records.drop_last();
        lemma_entries_in_record_order(rest);
        reveal(Seq::filter);
        assert(records.filter(p) == if p(records.last()) {
            rest.filter(p).push(records.last())
        } else {
            rest.filter(p)
        });
        if has_tab(records.last()) {
            assert(rest.filter(p).push(records.last()).map_values(f) =~= rest.filter(p).map_values(
                f,
            ).push(f(records.last())));
        }
    } else {
        reveal(Seq::filter);
        assert(entries_of(records) =~= Seq::empty());
    }
}

/// Records without a tab are skipped: taking them out changes nothing, and
/// there are as many entries as records that hold a tab.
pub proof fn lemma_malformed_records_skipped(records: Seq<Seq<char>>)
    ensures
        entries_of(records) == entries_of(records.filter(|r: Seq<char>| has_tab(r))),
        entries_of(records).len() == records.filter(|r: Seq<char>| has_tab(r)).len(),
{
    let p = |r: Seq<char>| has_tab(r);
    let kept = records.filter(p);
    lemma_entries_in_record_order(records);
    lemma_entries_in_record_order(kept);
    assert forall|i: int| 0 <= i < kept.len() implies p(kept[i]) by {
        records.lemma_filter_pred(p, i);
    }
    assert(kept.filter(p) =~= kept) by {
        lemma_filter_keeps_all(kept, p);
    }
}

proof fn lemma_filter_keeps_all(s: Seq<Seq<char>>, p: spec_fn(Seq<char>) -> bool)
    requires
        forall|i: int| 0 <= i < s.len() ==> p(s[i]),
    ensures
        s.filter(p) == s,
    decreases s.len(),
{
    reveal(Seq::filter);
    if s.len() > 0 {
        lemma_filter_keeps_all(s.drop_last(), p);
        assert(s.drop_last().push(s.last()) =~= s);
    }
}

/// A notice line at the head of a listing with more lines is dropped.
pub proof fn lemma_notice_dropped(output: Seq<char>)
    requires
        split_lines(output).len() > 1,
        split_lines(output)[0] == UNINITIALIZED_NOTICE@,
    ensures
        records_of(output) == split_lines(output).drop_first(),
{
}

/// A notice line that is the whole listing is kept as its one record.
pub proof fn lemma_lone_notice_kept(output: Seq<char>)
    requires
        split_lines(output) == seq![UNINITIALIZED_NOTICE@],
    ensures
        records_of(output) == seq![UNINITIALIZED_NOTICE@],
{
}

/// Any other listing keeps all its lines as records.
pub proof fn lemma_lines_kept(output: Seq<char>)
    requires
        split_lines(output).len() <= 1 || split_lines(output)[0] != UNINITIALIZED_NOTICE@,
    ensures
        records_of(output) == split_lines(output),
{
}

} // verus!
