use vstd::prelude::*;
use crate::timefmt::Timestamp;

verus! {

/// One recorded access: the request URL and the local time at which the
/// relay saw it.  Immutable once created.
pub struct UrlRecord {
    pub url: String,
    pub time: Timestamp,
}

/// The mathematical content of a `UrlRecord`.
pub ghost struct RecordV {
    pub url: Seq<char>,
    pub time: Timestamp,
}

impl View for UrlRecord {
    type V = RecordV;

    open spec fn view(&self) -> RecordV {
        RecordV { url: self.url@, time: self.time }
    }
}

impl Clone for UrlRecord {
    fn clone(&self) -> (r: UrlRecord)
        ensures
            r@ == self@,
    {
        UrlRecord { url: self.url.clone(), time: self.time }
    }
}

/// The sequence of records a vector of `UrlRecord` denotes.
pub open spec fn records_view(s: Seq<UrlRecord>) -> Seq<RecordV> {
    s.map_values(|r: UrlRecord| r@)
}

/// The append-only, insertion-ordered store of recorded accesses.  The sole
/// writer appends; readers take owned snapshots.  Nothing is ever removed or
/// reordered.
pub struct UrlHistory {
    records: Vec<UrlRecord>,
}

impl View for UrlHistory {
    type V = Seq<RecordV>;

    closed spec fn view(&self) -> Seq<RecordV> {
        records_view(self.records@)
    }
}

impl UrlHistory {
    /// A fresh store holds no records.
    pub fn new() -> (h: UrlHistory)
        ensures
            h@ == Seq::<RecordV>::empty(),
    {
        let h = UrlHistory { records: Vec::new() };
        proof {
            assert(h@ =~= Seq::<RecordV>::empty());
        }
        h
    }

    /// Appends one record at the end; every earlier record keeps its place.
    pub fn append(&mut self, rec: UrlRecord)
        ensures
            final(self)@ == old(self)@.push(rec@),
    {
        let ghost pre = self.records@;
        let ghost rv = rec@;
        self.records.push(rec);
        proof {
            assert(records_view(self.records@) =~= records_view(pre).push(rv));
        }
    }

    /// How many records the store holds.
    pub fn len(&self) -> (n: usize)
        ensures
            n == self@.len(),
    {
        self.records.len()
    }

    /// An owned copy of the whole ordered sequence of records, so that no
    /// caller has to keep the store borrowed while using it.
    pub fn snapshot(&self) -> (out: Vec<UrlRecord>)
        ensures
            records_view(out@) == self@,
    {
        let mut out: Vec<UrlRecord> = Vec::new();
        let mut i: usize = 0;
        proof {
            assert(records_view(out@) =~= self@.take(0));
        }
        while i < self.records.len()
            invariant
                i <= self.records.len(),
                self.records@.len() == self@.len(),
                records_view(out@) == self@.take(i as int),
            decreases self.records.len() - i,
        {
            let ghost prev = out@;
            out.push(self.records[i].clone());
            proof {
                assert(records_view(out@) =~= records_view(prev).push(self.records@[i as int]@));
                assert(self@.take(i + 1 as int) =~= self@.take(i as int).push(self@[i as int]));
            }
            i += 1;
        }
        proof {
            assert(self@.take(self@.len() as int) =~= self@);
        }
        out
    }
}

/// Law: two snapshots taken from the same store state, with no intervening
/// append, are the same ordered sequence.  `first` and `second` are what the
/// contract of `snapshot` yields for the two calls.
pub proof fn lemma_snapshot_stable(state: Seq<RecordV>, first: Seq<RecordV>, second: Seq<RecordV>)
    requires
        first == state,
        second == state,
    ensures
        first == second,
{
}

/// One accepted communication unit, as the consumer sees it: the record made
/// on arrival and whether the upstream exchange later succeeded.
pub ghost struct UnitV {
    pub record: RecordV,
    pub upstream_ok: bool,
}

/// The store contents after the consumer has processed `units` in arrival
/// order starting from `init`: one `append` per unit, made before the unit's
/// request is forwarded, whatever its upstream outcome.
pub open spec fn store_after(init: Seq<RecordV>, units: Seq<UnitV>) -> Seq<RecordV>
    decreases units.len(),
{
    if units.len() == 0 {
        init
    } else {
        store_after(init.push(units[0].record), units.skip(1))
    }
}

/// Law: after N accepted units the store holds exactly its old records
/// followed by the N unit records, in acceptance order — also when some
/// units later failed upstream, since `store_after` never reads the outcome.
pub proof fn lemma_every_arrival_recorded(init: Seq<RecordV>, units: Seq<UnitV>)
    ensures
        store_after(init, units) == init + units.map_values(|u: UnitV| u.record),
        store_after(init, units).len() == init.len() + units.len(),
    decreases units.len(),
{
    let mapped = units.map_values(|u: UnitV| u.record);
    if units.len() == 0 {
        assert(store_after(init, units) =~= init + mapped);
    } else {
        lemma_every_arrival_recorded(init.push(units[0].record), units.skip(1));
        let rest_mapped = units.skip(1).map_values(|u: UnitV| u.record);
        assert(init.push(units[0].record) + rest_mapped =~= init + mapped);
    }
}

/// Law: the store is strictly append-only.  Whatever units the consumer
/// processes, every record already in the store keeps its index and value.
pub proof fn lemma_append_only(init: Seq<RecordV>, units: Seq<UnitV>)
    ensures
        store_after(init, units).take(init.len() as int) == init,
    decreases units.len(),
{
    lemma_every_arrival_recorded(init, units);
    assert((init + units.map_values(|u: UnitV| u.record)).take(init.len() as int) =~= init);
}

/// Law: acceptance order is kept.  If unit `i` was accepted before unit `j`,
/// its record stands at the earlier index, however their upstream exchanges
/// resolved.
pub proof fn lemma_acceptance_order(init: Seq<RecordV>, units: Seq<UnitV>, i: int, j: int)
    requires
        0 <= i < j < units.len(),
    ensures
        store_after(init, units)[init.len() + i] == units[i].record,
        store_after(init, units)[init.len() + j] == units[j].record,
    decreases units.len(),
{
    lemma_every_arrival_recorded(init, units);
}

} // verus!
