use vstd::prelude::*;

verus! {

use crate::transform::{TransformRule, RuleView, OutRecord, spec_relative, spec_transform};

/// One raw entry of a listing page, as the storage service reports it.
/// Either field may be absent; such an entry carries no usable data and is
/// silently skipped.
pub struct RawEntry {
    pub key: Option<String>,
    pub size: Option<i64>,
}

/// The mathematical image of a raw entry.
pub struct EntryView {
    pub key: Option<Seq<char>>,
    pub size: Option<i64>,
}

impl View for RawEntry {
    type V = EntryView;

    open spec fn view(&self) -> EntryView {
        EntryView {
            key: match self.key {
                Some(k) => Some(k@),
                None => None,
            },
            size: self.size,
        }
    }
}

/// One page of a listing: its entries in listing order, and whether the
/// service reports that more pages follow.
pub struct Page {
    pub entries: Vec<RawEntry>,
    pub truncated: bool,
}

/// How the enumeration goes on after a page: stop, or fetch the next page
/// from the given marker (the key of this page's last raw entry).
pub enum Continuation {
    Done,
    Resume { marker: Option<String> },
}

pub open spec fn entry_views(es: Seq<RawEntry>) -> Seq<EntryView> {
    es.map_values(|e: RawEntry| e@)
}

/// What one raw entry contributes to the output: nothing when its key or
/// size is absent, otherwise whatever the rule makes of its relative key.
pub open spec fn spec_entry_record(e: EntryView, plen: nat, rule: RuleView) -> Option<(Seq<char>, i64)> {
    match (e.key, e.size) {
        (Some(k), Some(sz)) => if plen <= k.len() {
            spec_transform(spec_relative(k, plen), sz, rule)
        } else {
            None
        },
        _ => None,
    }
}

/// The records of a whole page, in listing order: each entry's contribution
/// in place, dropped entries contributing nothing. Order is preserved and
/// nothing is reordered or deduplicated.
pub open spec fn spec_page_records(es: Seq<EntryView>, plen: nat, rule: RuleView) -> Seq<(Seq<char>, i64)>
    decreases es.len(),
{
    if es.len() == 0 {
        Seq::empty()
    } else {
        (match spec_entry_record(es[0], plen, rule) {
            Some(r) => seq![r],
            None => Seq::empty(),
        }) + spec_page_records(es.drop_first(), plen, rule)
    }
}

proof fn lemma_page_records_snoc(es: Seq<EntryView>, plen: nat, rule: RuleView)
    requires
        es.len() > 0,
    ensures
        spec_page_records(es, plen, rule) == spec_page_records(es.drop_last(), plen, rule)
            + (match spec_entry_record(es.last(), plen, rule) {
                Some(r) => seq![r],
                None => Seq::<(Seq<char>, i64)>::empty(),
            }),
    decreases es.len(),
{
    if es.len() == 1 {
        assert(es.drop_last() =~= Seq::<EntryView>::empty());
        assert(es.drop_first() =~= Seq::<EntryView>::empty());
        assert(es.last() == es[0]);
        assert(spec_page_records(es, plen, rule) =~= spec_page_records(es.drop_last(), plen, rule)
            + (match spec_entry_record(es.last(), plen, rule) {
                Some(r) => seq![r],
                None => Seq::<(Seq<char>, i64)>::empty(),
            }));
    } else {
        lemma_page_records_snoc(es.drop_first(), plen, rule);
        assert(es.drop_first().drop_last() =~= es.drop_last().drop_first());
        assert(es.drop_first().last() == es.last());
        assert(es.drop_last()[0] == es[0]);
        assert(spec_page_records(es, plen, rule) =~= spec_page_records(es.drop_last(), plen, rule)
            + (match spec_entry_record(es.last(), plen, rule) {
                Some(r) => seq![r],
                None => Seq::<(Seq<char>, i64)>::empty(),
            }));
    }
}

/// The views of the records a page-processing pass returns.
pub open spec fn record_views(out: Seq<OutRecord>) -> Seq<(Seq<char>, i64)> {
    out.map_values(|r: OutRecord| r@)
}

/// Whether every usable entry of a page is at least as long as the listed
/// prefix — what a listing scoped to that prefix guarantees.
pub open spec fn keys_cover_prefix(es: Seq<EntryView>, plen: nat) -> bool {
    forall|i: int| 0 <= i < es.len() ==> (#[trigger] es[i].key matches Some(k) ==> plen <= k.len())
}

/// Applies the rule to every usable entry of one page, in listing order.
pub fn page_records(entries: &Vec<RawEntry>, prefix_len: usize, rule: &TransformRule) -> (out: Vec<OutRecord>)
    requires
        keys_cover_prefix(entry_views(entries@), prefix_len as nat),
    ensures
        record_views(out@) == spec_page_records(entry_views(entries@), prefix_len as nat, rule@),
{
    let ghost es = entry_views(entries@);
    let mut out: Vec<OutRecord> = Vec::new();
    let mut i: usize = 0;
    while i < entries.len()
        invariant
            0 <= i <= entries@.len(),
            es == entry_views(entries@),
            keys_cover_prefix(es, prefix_len as nat),
            record_views(out@) == spec_page_records(es.take(i as int), prefix_len as nat, rule@),
        decreases entries@.len() - i,
    {
        let ghost prev = out@;
        match (&entries[i].key, &entries[i].size) {
            (Some(k), Some(sz)) => {
                assert(es[i as int].key matches Some(kk) && kk == k@);
                match crate::transform::transform_entry(k.as_str(), *sz, prefix_len, rule) {
                    Some(rec) => out.push(rec),
                    None => {},
                }
            },
            _ => {},
        }
        proof {
            lemma_page_records_snoc(es.take(i + 1), prefix_len as nat, rule@);
            assert(es.take(i + 1).drop_last() =~= es.take(i as int));
            assert(es.take(i + 1).last() == es[i as int]);
            assert(record_views(out@) =~= spec_page_records(es.take(i + 1), prefix_len as nat, rule@));
        }
        i += 1;
    }
    proof {
        assert(es.take(es.len() as int) =~= es);
    }
    out
}

/// How the enumeration continues after `es` with the service's truncation
/// flag `truncated`: an empty page ends it; a truncated non-empty page
/// resumes from the last raw entry's key; otherwise it ends after this page.
pub open spec fn spec_continuation(es: Seq<EntryView>, truncated: bool) -> Option<Option<Seq<char>>> {
    if es.len() == 0 {
        None
    } else if truncated {
        Some(es.last().key)
    } else {
        None
    }
}

/// Decides how the enumeration goes on after one fetched page.
pub fn page_continuation(page: &Page) -> (r: Continuation)
    ensures
        (r is Done) <==> spec_continuation(entry_views(page.entries@), page.truncated) is None,
        r matches Continuation::Resume { marker } ==> spec_continuation(
            entry_views(page.entries@),
            page.truncated,
        ) == Some(match marker {
            Some(m) => Some(m@),
            None => None::<Seq<char>>,
        }),
{
    if page.entries.len() == 0 || !page.truncated {
        return Continuation::Done;
    }
    let last = &page.entries[page.entries.len() - 1];
    let marker = match &last.key {
        Some(k) => Some(k.clone()),
        None => None,
    };
    proof {
        assert(entry_views(page.entries@).last() == page.entries@.last()@);
    }
    Continuation::Resume { marker }
}

/// One step of the enumeration: the surviving records of a fetched page, in
/// listing order, and how the run goes on afterwards. Mirrors one turn of
/// the listing loop: process the page, then either resume from the last
/// entry's key or stop.
pub fn process_page(page: &Page, prefix_len: usize, rule: &TransformRule) -> (r: (Vec<OutRecord>, Continuation))
    requires
        keys_cover_prefix(entry_views(page.entries@), prefix_len as nat),
    ensures
        record_views(r.0@) == spec_page_records(entry_views(page.entries@), prefix_len as nat, rule@),
        (r.1 is Done) <==> spec_continuation(entry_views(page.entries@), page.truncated) is None,
        r.1 matches Continuation::Resume { marker } ==> spec_continuation(
            entry_views(page.entries@),
            page.truncated,
        ) == Some(match marker {
            Some(m) => Some(m@),
            None => None::<Seq<char>>,
        }),
{
    let records = page_records(&page.entries, prefix_len, rule);
    let cont = page_continuation(page);
    (records, cont)
}

} // verus!
