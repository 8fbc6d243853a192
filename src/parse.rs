use vstd::prelude::*;

use crate::entry::{Entry, EntryList, EntryView};
use crate::text::{chars_of, string_of};

verus! {

/// Line that the history tool prints ahead of its listing while its store is
/// still empty.
pub const UNINITIALIZED_NOTICE: &'static str = "opening db: please store something first";

/// The pieces of `s` between newline characters, as `str::split('\n')` yields
/// them: always at least one piece, and an empty one after a trailing newline.
pub open spec fn split_lines(s: Seq<char>) -> Seq<Seq<char>>
    decreases s.len(),
{
    if s.len() == 0 {
        seq![Seq::empty()]
    } else {
        let prev = split_lines(s.drop_last());
        if s.last() == '\n' {
            prev.push(Seq::empty())
        } else {
            prev.update(prev.len() - 1, prev.last().push(s.last()))
        }
    }
}

pub proof fn lemma_split_lines_nonempty(s: Seq<char>)
    ensures
        split_lines(s).len() >= 1,
    decreases s.len(),
{
    if s.len() > 0 {
        lemma_split_lines_nonempty(s.drop_last());
    }
}

/// The records of a listing: its lines, without a leading notice line when
/// more lines follow it.
pub open spec fn records_of(output: Seq<char>) -> Seq<Seq<char>> {
    let lines = split_lines(output);
    if lines.len() > 1 && lines[0] == UNINITIALIZED_NOTICE@ {
        lines.drop_first()
    } else {
        lines
    }
}

/// Splits `text` into its lines.
fn split_lines_exec(text: &Vec<char>) -> (r: Vec<String>)
    ensures
        r@.map_values(|s: String| s@) == split_lines(text@),
{
    let mut done: Vec<String> = Vec::new();
    let mut cur: Vec<char> = Vec::new();
    let mut i: usize = 0;
    while i < text.len()
        invariant
            i <= text@.len(),
            done@.map_values(|s: String| s@).push(cur@) == split_lines(text@.take(i as int)),
        decreases text@.len() - i,
    {
        let c = text[i];
        proof {
            assert(text@.take(i + 1).drop_last() =~= text@.take(i as int));
            lemma_split_lines_nonempty(text@.take(i as int));
        }
        if c == '\n' {
            let line = string_of(cur.as_slice());
            done.push(line);
            cur = Vec::new();
            assert(done@.map_values(|s: String| s@).push(cur@) =~= split_lines(
                text@.take(i + 1),
            ));
        } else {
            let ghost before = done@.map_values(|s: String| s@).push(cur@);
            cur.push(c);
            assert(done@.map_values(|s: String| s@).push(cur@) =~= before.update(
                before.len() - 1,
                before.last().push(c),
            ));
        }
        i = i + 1;
    }
    assert(text@.take(i as int) =~= text@);
    let line = string_of(cur.as_slice());
    done.push(line);
    assert(done@.map_values(|s: String| s@) =~= split_lines(text@));
    done
}

/// The records of the history tool's listing `output`: its lines, with a
/// leading uninitialized-store notice dropped when more lines follow it.
pub fn get_clipboard_history(output: &str) -> (r: Vec<String>)
    ensures
        r@.map_values(|s: String| s@) == records_of(output@),
{
    let text = chars_of(output);
    let mut lines = split_lines_exec(&text);
    let notice = UNINITIALIZED_NOTICE.to_owned();
    if lines.len() > 1 && lines[0].eq(&notice) {
        let ghost before = lines@;
        lines.remove(0);
        assert(lines@.map_values(|s: String| s@) =~= before.map_values(
            |s: String| s@,
        ).drop_first());
    }
    lines
}

/// Whether `r` holds a tab character.
pub open spec fn has_tab(r: Seq<char>) -> bool {
    exists|i: int| 0 <= i < r.len() && r[i] == '\t'
}

/// Whether position `k` of `r` holds its first tab character.
pub open spec fn is_first_tab(r: Seq<char>, k: int) -> bool {
    &&& 0 <= k < r.len()
    &&& r[k] == '\t'
    &&& forall|j: int| 0 <= j < k ==> r[j] != '\t'
}

/// Position of the first tab character of `r` (meaningful where `has_tab(r)`).
pub open spec fn first_tab(r: Seq<char>) -> int {
    choose|k: int| is_first_tab(r, k)
}

/// The entry for history item `id` with text `content`.
pub open spec fn entry_for(id: Seq<char>, content: Seq<char>) -> EntryView {
    EntryView { name: content, description: content, value: id, icon: None, emoji: None }
}

/// The entry of one record: split at its first tab into id and content; none
/// where the record holds no tab.
pub open spec fn record_entry(r: Seq<char>) -> Option<EntryView> {
    if has_tab(r) {
        let k = first_tab(r);
        Some(entry_for(r.take(k), r.skip(k + 1)))
    } else {
        None
    }
}

/// The entries of `records`, in their order, one per record that holds a tab.
pub open spec fn entries_of(records: Seq<Seq<char>>) -> Seq<EntryView> {
    records.filter_map(|r: Seq<char>| record_entry(r))
}

pub proof fn lemma_first_tab(r: Seq<char>, k: int)
    requires
        is_first_tab(r, k),
    ensures
        has_tab(r),
        first_tab(r) == k,
{
    let c = first_tab(r);
    assert(is_first_tab(r, c));
    if c < k {
        assert(r[c] != '\t');
    } else if c > k {
        assert(r[k] != '\t');
    }
}

/// The characters `cs[lo..hi]` as a string.
fn string_between(cs: &Vec<char>, lo: usize, hi: usize) -> (r: String)
    requires
        lo <= hi <= cs@.len(),
    ensures
        r@ == cs@.subrange(lo as int, hi as int),
{
    let mut part: Vec<char> = Vec::new();
    let mut i: usize = lo;
    while i < hi
        invariant
            lo <= i <= hi <= cs@.len(),
            part@ == cs@.subrange(lo as int, i as int),
        decreases hi - i,
    {
        part.push(cs[i]);
        i = i + 1;
        assert(part@ =~= cs@.subrange(lo as int, i as int));
    }
    string_of(part.as_slice())
}

/// Parses one `id<TAB>content` record. The id is what precedes the first tab;
/// the content is all that follows it, further tabs included. A record without
/// a tab gives no entry.
pub fn parse_record(record: &str) -> (r: Option<Entry>)
    ensures
        match r {
            Some(e) => record_entry(record@) == Some(e@),
            None => record_entry(record@) is None,
        },
{
    let cs = chars_of(record);
    let mut k: usize = 0;
    while k < cs.len() && cs[k] != '\t'
        invariant
            k <= cs@.len(),
            cs@ == record@,
            forall|j: int| 0 <= j < k ==> cs@[j] != '\t',
        decreases cs@.len() - k,
    {
        k = k + 1;
    }
    if k == cs.len() {
        None
    } else {
        proof {
            lemma_first_tab(record@, k as int);
        }
        let id = string_between(&cs, 0, k);
        let content = string_between(&cs, k + 1, cs.len());
        assert(id@ =~= record@.take(k as int));
        assert(content@ =~= record@.skip(k + 1));
        let name = content.clone();
        let description = content;
        Some(Entry { name, description, value: id, icon: None, emoji: None })
    }
}

/// The entries of `records`, in their order; records without a tab are
/// skipped.
pub fn entries_from_records(records: &Vec<String>) -> (r: EntryList)
    ensures
        r.wf(),
        r@ == entries_of(records@.map_values(|s: String| s@)),
{
    let ghost rs = records@.map_values(|s: String| s@);
    let mut entries: Vec<Entry> = Vec::new();
    let mut i: usize = 0;
    while i < records.len()
        invariant
            i <= records@.len(),
            rs == records@.map_values(|s: String| s@),
            entries@.map_values(|e: Entry| e@) == entries_of(rs.take(i as int)),
        decreases records@.len() - i,
    {
        proof {
            rs.lemma_filter_map_take_succ(|r: Seq<char>| record_entry(r), i as int);
        }
        let ghost before = entries@;
        match parse_record(records[i].as_str()) {
            Some(e) => {
                entries.push(e);
                assert(entries@.map_values(|e: Entry| e@) =~= before.map_values(
                    |e: Entry| e@,
                ) + seq![e@]);
            },
            None => {},
        }
        i = i + 1;
    }
    assert(rs.take(i as int) =~= rs);
    EntryList::from_entries(entries)
}

/// The entries of the history tool's listing `output`: one per record that
/// holds a tab, in the listing's order, after a leading notice line is dropped
/// as [`get_clipboard_history`] does.
pub fn get_entries(output: &str) -> (r: EntryList)
    ensures
        r.wf(),
        r@ == entries_of(records_of(output@)),
{
    let records = get_clipboard_history(output);
    entries_from_records(&records)
}

} // verus!
