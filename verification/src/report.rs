//! Assembly of a vehicle report from the outcomes of the individual sources.
use vstd::prelude::*;

use crate::error::SourceError;
use crate::models::{
    date_before, is_before, lemma_date_before_is_chronological, CalendarDate, Encumbrance, Inspection, Recall, Registration, SourceData,
    SourceResult, SourceStatus, Timestamp, VehicleReport, VinDecode,
};

verus! {

broadcast use vstd::seq_lib::group_seq_properties, vstd::seq_lib::group_seq_lib_default;

/// Selects the inspections held on day `d`.
pub open spec fn dated(d: CalendarDate) -> spec_fn(Inspection) -> bool {
    |x: Inspection| x.date == d
}

/// Inspections in descending order of date: none is older than one after it.
pub open spec fn newest_first(s: Seq<Inspection>) -> bool {
    forall|i: int, j: int| 0 <= i < j < s.len() ==> !date_before(#[trigger] s[i].date, #[trigger] s[j].date)
}

/// `out` is `input` stably sorted newest first: it is in descending order of
/// date, and the inspections of each day come in the order they had in `input`.
/// (This determines `out` from `input`.)
pub open spec fn stably_newest_first(out: Seq<Inspection>, input: Seq<Inspection>) -> bool {
    &&& newest_first(out)
    &&& forall|d: CalendarDate| #[trigger] out.filter(dated(d)) == input.filter(dated(d))
}

proof fn lemma_insert_in_place(out: Seq<Inspection>, p: int, x: Inspection)
    requires
        newest_first(out),
        0 <= p <= out.len(),
        forall|j: int| 0 <= j < p ==> !date_before(#[trigger] out[j].date, x.date),
        p < out.len() ==> date_before(out[p].date, x.date),
    ensures
        newest_first(out.insert(p, x)),
        forall|d: CalendarDate| #[trigger] out.insert(p, x).filter(dated(d)) == if x.date == d {
            out.filter(dated(d)).push(x)
        } else {
            out.filter(dated(d))
        },
{
    let new = out.insert(p, x);
    assert forall|j: int| p <= j < out.len() implies date_before(#[trigger] out[j].date, x.date) by {
        if j > p {
            assert(!date_before(out[p].date, out[j].date));
        }
    }
    assert forall|i: int, j: int| 0 <= i < j < new.len() implies !date_before(
        #[trigger] new[i].date,
        #[trigger] new[j].date,
    ) by {
        if j < p {
            assert(new[i] == out[i] && new[j] == out[j]);
        } else if j == p {
            assert(new[i] == out[i]);
        } else if i < p {
            assert(new[i] == out[i] && new[j] == out[j - 1]);
            assert(!date_before(out[i].date, x.date));
            assert(date_before(out[j - 1].date, x.date));
        } else if i == p {
            assert(new[j] == out[j - 1]);
        } else {
            assert(new[i] == out[i - 1] && new[j] == out[j - 1]);
        }
    }
    let head = out.take(p);
    let tail = out.skip(p);
    assert(out =~= head + tail);
    assert(new =~= head.push(x) + tail);
    assert forall|d: CalendarDate| #[trigger] new.filter(dated(d)) == if x.date == d {
        out.filter(dated(d)).push(x)
    } else {
        out.filter(dated(d))
    } by {
        let pred = dated(d);
        Seq::filter_distributes_over_add(head.push(x), tail, pred);
        Seq::filter_distributes_over_add(head, tail, pred);
        head.lemma_filter_push(x, pred);
        if x.date == d {
            assert forall|j: int| 0 <= j < tail.len() implies !pred(#[trigger] tail[j]) by {
                assert(tail[j] == out[p + j]);
                assert(date_before(out[p + j].date, x.date));
            }
            assert(tail.all(|y: Inspection| !pred(y)));
            tail.lemma_all_neg_filter_empty(pred);
            assert(tail.filter(pred) =~= Seq::<Inspection>::empty());
        }
    }
}

proof fn lemma_oldest_is_last(s: Seq<Inspection>, x: Inspection)
    requires
        newest_first(s),
        s.len() > 0,
        s.contains(x),
    ensures
        !date_before(x.date, s.last().date),
{
    let i = choose|i: int| 0 <= i < s.len() && s[i] == x;
    if i < s.len() - 1 {
        assert(!date_before(s[i].date, s[s.len() - 1].date));
    }
}

proof fn lemma_newest_first_drop_last(s: Seq<Inspection>)
    requires
        newest_first(s),
        s.len() > 0,
    ensures
        newest_first(s.drop_last()),
{
    let t = s.drop_last();
    assert forall|i: int, j: int| 0 <= i < j < t.len() implies !date_before(
        #[trigger] t[i].date,
        #[trigger] t[j].date,
    ) by {
        assert(t[i] == s[i] && t[j] == s[j]);
    }
}

/// Inspections newest first go down the calendar: of any two, the later one in
/// the list is from an earlier or the same year; from the same year, an earlier
/// or the same month; from the same month, an earlier or the same day.
pub proof fn lemma_newest_first_goes_back_in_time(s: Seq<Inspection>)
    requires
        newest_first(s),
    ensures
        forall|i: int, j: int|
            0 <= i < j < s.len() ==> {
                let (a, b) = (#[trigger] s[i].date, #[trigger] s[j].date);
                ||| b.year < a.year
                ||| (b.year == a.year && b.month < a.month)
                ||| (b.year == a.year && b.month == a.month && b.day <= a.day)
            },
{
    assert forall|i: int, j: int| 0 <= i < j < s.len() implies {
        let (a, b) = (#[trigger] s[i].date, #[trigger] s[j].date);
        ||| b.year < a.year
        ||| (b.year == a.year && b.month < a.month)
        ||| (b.year == a.year && b.month == a.month && b.day <= a.day)
    } by {
        lemma_date_before_is_chronological(s[i].date, s[j].date);
    }
}

/// A stable newest-first order is unique: two sequences in descending order of
/// date that hold the same inspections of each day in the same order are equal.
pub proof fn lemma_newest_first_unique(a: Seq<Inspection>, b: Seq<Inspection>)
    requires
        newest_first(a),
        newest_first(b),
        forall|d: CalendarDate| #[trigger] a.filter(dated(d)) == b.filter(dated(d)),
    ensures
        a == b,
    decreases a.len() + b.len(),
{
    broadcast use vstd::seq::Seq::lemma_filter_contains_rev;

    if a.len() == 0 && b.len() == 0 {
        assert(a =~= b);
    } else if a.len() == 0 || b.len() == 0 {
        let (full, empty) = if a.len() == 0 {
            (b, a)
        } else {
            (a, b)
        };
        let d = full[0].date;
        full.lemma_filter_contains(dated(d), 0);
        assert(empty.filter(dated(d)).len() == 0);
        assert(false);
    } else {
        let ma = a.last().date;
        let mb = b.last().date;
        a.lemma_filter_contains(dated(ma), a.len() - 1);
        b.lemma_filter_contains(dated(mb), b.len() - 1);
        let xa = a.last();
        let xb = b.last();
        assert(b.filter(dated(ma)).contains(xa));
        assert(b.contains(xa));
        lemma_oldest_is_last(b, xa);
        assert(a.filter(dated(mb)).contains(xb));
        assert(a.contains(xb));
        lemma_oldest_is_last(a, xb);
        assert(ma == mb);
        let ra = a.drop_last();
        let rb = b.drop_last();
        assert(a =~= ra.push(xa));
        assert(b =~= rb.push(xb));
        ra.lemma_filter_push(xa, dated(ma));
        rb.lemma_filter_push(xb, dated(ma));
        assert(a.filter(dated(ma)) == b.filter(dated(ma)));
        assert(a.filter(dated(ma)) == ra.filter(dated(ma)).push(xa));
        assert(b.filter(dated(ma)) == rb.filter(dated(ma)).push(xb));
        assert(ra.filter(dated(ma)).push(xa).last() == xa);
        assert(xa == xb);
        assert forall|d: CalendarDate| #[trigger] ra.filter(dated(d)) == rb.filter(dated(d)) by {
            ra.lemma_filter_push(xa, dated(d));
            rb.lemma_filter_push(xb, dated(d));
            assert(a.filter(dated(d)) == b.filter(dated(d)));
            if xa.date == d {
                assert(ra.filter(dated(d)) =~= a.filter(dated(d)).drop_last());
                assert(rb.filter(dated(d)) =~= b.filter(dated(d)).drop_last());
            }
        }
        lemma_newest_first_drop_last(a);
        lemma_newest_first_drop_last(b);
        lemma_newest_first_unique(ra, rb);
    }
}

/// Sorting inspections that are already stably sorted changes nothing: the
/// stable newest-first order of a stably sorted sequence is that sequence.
pub proof fn lemma_stable_sort_idempotent(sorted: Seq<Inspection>, input: Seq<Inspection>, again: Seq<Inspection>)
    requires
        stably_newest_first(sorted, input),
        stably_newest_first(again, sorted),
    ensures
        again == sorted,
{
    lemma_newest_first_unique(again, sorted);
}

proof fn lemma_count_in_filter(s: Seq<Inspection>, p: spec_fn(Inspection) -> bool, x: Inspection)
    requires
        p(x),
    ensures
        s.to_multiset().count(x) == s.filter(p).to_multiset().count(x),
    decreases s.len(),
{
    broadcast use vstd::multiset::group_multiset_axioms, vstd::seq_lib::group_to_multiset_ensures;

    if s.len() == 0 {
        assert(s.filter(p).len() == 0);
        assert(s.filter(p) =~= s);
    } else {
        let rest = s.drop_last();
        let last = s.last();
        assert(s =~= rest.push(last));
        rest.lemma_filter_push(last, p);
        lemma_count_in_filter(rest, p, x);
    }
}

/// A stable sort keeps every inspection: the sorted sequence holds each one as
/// many times as the input does.
pub proof fn lemma_stable_sort_permutes(out: Seq<Inspection>, input: Seq<Inspection>)
    requires
        stably_newest_first(out, input),
    ensures
        out.to_multiset() == input.to_multiset(),
{
    assert forall|x: Inspection| #[trigger] out.to_multiset().count(x) == input.to_multiset().count(
        x,
    ) by {
        lemma_count_in_filter(out, dated(x.date), x);
        lemma_count_in_filter(input, dated(x.date), x);
        assert(out.filter(dated(x.date)) == input.filter(dated(x.date)));
    }
    assert(out.to_multiset() =~= input.to_multiset());
}

/// Sorts inspections newest first, keeping the order of those of the same day
/// (a stable sort by descending date).
pub fn sort_newest_first(v: Vec<Inspection>) -> (r: Vec<Inspection>)
    ensures
        stably_newest_first(r@, v@),
{
    let ghost input = v@;
    let mut rest = v;
    let mut out: Vec<Inspection> = Vec::new();
    let ghost mut k: int = 0;
    assert(input.skip(0) =~= input);
    while rest.len() > 0
        invariant
            0 <= k <= input.len(),
            rest@ == input.skip(k),
            newest_first(out@),
            forall|d: CalendarDate| #[trigger] out@.filter(dated(d)) == input.take(k).filter(
                dated(d),
            ),
        decreases rest@.len(),
    {
        let x = rest.remove(0);
        assert(x == input[k]);
        let mut p: usize = 0;
        while p < out.len() && !is_before(out[p].date, x.date)
            invariant
                p <= out@.len(),
                forall|j: int| 0 <= j < p ==> !date_before(#[trigger] out@[j].date, x.date),
            decreases out@.len() - p,
        {
            p = p + 1;
        }
        proof {
            lemma_insert_in_place(out@, p as int, x);
            assert(input.take(k + 1) =~= input.take(k).push(x));
            assert forall|d: CalendarDate| #[trigger] input.take(k + 1).filter(dated(d)) == if x.date
                == d {
                input.take(k).filter(dated(d)).push(x)
            } else {
                input.take(k).filter(dated(d))
            } by {
                input.take(k).lemma_filter_push(x, dated(d));
            }
        }
        out.insert(p, x);
        proof {
            k = k + 1;
            assert(rest@ =~= input.skip(k));
        }
    }
    assert(input.take(k) =~= input);
    out
}


/// What one source gave for a lookup: who it is, its result, when it was
/// asked and whether the result came from the cache.
#[derive(Debug, PartialEq, Eq)]
pub struct SourceOutcome {
    pub id: String,
    pub country: String,
    pub name: String,
    pub result: Result<SourceData, SourceError>,
    pub queried_at: Timestamp,
    pub cached: bool,
}

/// The status a source's result is reported with.
pub open spec fn status_for(r: Result<SourceData, SourceError>) -> SourceStatus {
    match r {
        Ok(_) => SourceStatus::Success,
        Err(SourceError::NotFound) => SourceStatus::NotFound,
        Err(SourceError::RateLimited) => SourceStatus::RateLimited,
        Err(SourceError::NotSupported) => SourceStatus::Skipped,
        Err(SourceError::Unavailable(_)) => SourceStatus::Skipped,
        Err(_) => SourceStatus::Error,
    }
}

/// The error text a source's result is reported with, if any.
pub open spec fn error_text_for(r: Result<SourceData, SourceError>) -> Option<Seq<char>> {
    match r {
        Ok(_) => None,
        Err(SourceError::NotFound) => None,
        Err(SourceError::RateLimited) => Some("Rate limited"@),
        Err(SourceError::NotSupported) => None,
        Err(SourceError::Unavailable(m)) => Some(m@),
        Err(e) => Some(e.spec_message()),
    }
}

/// `t` is the text `expected` stands for.
pub open spec fn text_matches(t: Option<String>, expected: Option<Seq<char>>) -> bool {
    match t {
        Some(s) => expected == Some(s@),
        None => expected is None,
    }
}

/// The status and error text of a source's result.
pub fn classify(result: &Result<SourceData, SourceError>) -> (r: (SourceStatus, Option<String>))
    ensures
        r.0 == status_for(*result),
        text_matches(r.1, error_text_for(*result)),
{
    match result {
        Ok(_) => (SourceStatus::Success, None),
        Err(SourceError::NotFound) => (SourceStatus::NotFound, None),
        Err(SourceError::RateLimited) => (
            SourceStatus::RateLimited,
            Some(String::from_str("Rate limited")),
        ),
        Err(SourceError::NotSupported) => (SourceStatus::Skipped, None),
        Err(SourceError::Unavailable(m)) => (SourceStatus::Skipped, Some(m.clone())),
        Err(e) => (SourceStatus::Error, Some(e.message())),
    }
}

/// `s` is the entry the report lists for outcome `o`.
pub open spec fn records(o: SourceOutcome, s: SourceResult) -> bool {
    &&& s.id == o.id
    &&& s.country == o.country
    &&& s.name == o.name
    &&& s.status == status_for(o.result)
    &&& s.queried_at == o.queried_at
    &&& s.cached == o.cached
    &&& text_matches(s.error, error_text_for(o.result))
}

/// The data of an outcome, when the source answered.
pub open spec fn data_of(o: SourceOutcome) -> Option<SourceData> {
    match o.result {
        Ok(d) => Some(d),
        Err(_) => None,
    }
}

/// What the outcomes that carry data contribute, in order, of the part `part`.
pub open spec fn contributed<T>(os: Seq<SourceOutcome>, part: spec_fn(SourceData) -> Seq<T>) -> Seq<T>
    decreases os.len(),
{
    if os.len() == 0 {
        Seq::empty()
    } else {
        contributed(os.drop_last(), part) + match data_of(os.last()) {
            Some(d) => part(d),
            None => Seq::empty(),
        }
    }
}

pub open spec fn registrations_of(d: SourceData) -> Seq<Registration> {
    d.registrations@
}

pub open spec fn inspections_of(d: SourceData) -> Seq<Inspection> {
    d.inspections@
}

pub open spec fn recalls_of(d: SourceData) -> Seq<Recall> {
    d.recalls@
}

pub open spec fn encumbrances_of(d: SourceData) -> Seq<Encumbrance> {
    d.encumbrances@
}

/// The decode a report holds after the outcomes `os`, starting from `start`:
/// the first one given, by the report or by an outcome that carries data.
pub open spec fn decode_after(start: Option<VinDecode>, os: Seq<SourceOutcome>) -> Option<VinDecode>
    decreases os.len(),
{
    if os.len() == 0 {
        start
    } else {
        let before = decode_after(start, os.drop_last());
        match (before, data_of(os.last())) {
            (None, Some(d)) => d.decode,
            _ => before,
        }
    }
}

impl VehicleReport {
    /// Adds a source's outcome: its entry in `sources`, and, when it answered,
    /// its data (its decode only if the report has none yet).
    pub fn absorb(&mut self, outcome: SourceOutcome)
        ensures
            final(self).vin == old(self).vin,
            final(self).generated_at == old(self).generated_at,
            final(self).sources@.len() == old(self).sources@.len() + 1,
            final(self).sources@.drop_last() == old(self).sources@,
            records(outcome, final(self).sources@.last()),
            final(self).decode == decode_after(old(self).decode, seq![outcome]),
            final(self).registrations@ == old(self).registrations@ + contributed(
                seq![outcome],
                |d: SourceData| registrations_of(d),
            ),
            final(self).inspections@ == old(self).inspections@ + contributed(
                seq![outcome],
                |d: SourceData| inspections_of(d),
            ),
            final(self).recalls@ == old(self).recalls@ + contributed(
                seq![outcome],
                |d: SourceData| recalls_of(d),
            ),
            final(self).encumbrances@ == old(self).encumbrances@ + contributed(
                seq![outcome],
                |d: SourceData| encumbrances_of(d),
            ),
    {
        proof {
            lemma_single(old(self).decode, outcome, |d: SourceData| registrations_of(d));
            lemma_single(old(self).decode, outcome, |d: SourceData| inspections_of(d));
            lemma_single(old(self).decode, outcome, |d: SourceData| recalls_of(d));
            lemma_single(old(self).decode, outcome, |d: SourceData| encumbrances_of(d));
        }
        let (status, error) = classify(&outcome.result);
        let SourceOutcome { id, country, name, result, queried_at, cached } = outcome;
        self.sources.push(SourceResult { id, country, name, status, queried_at, cached, error });
        assert(self.sources@.drop_last() =~= old(self).sources@);
        match result {
            Ok(data) => {
                let SourceData {
                    mut registrations,
                    mut inspections,
                    mut recalls,
                    mut encumbrances,
                    decode,
                } = data;
                if self.decode.is_none() {
                    self.decode = decode;
                }
                self.registrations.append(&mut registrations);
                self.inspections.append(&mut inspections);
                self.recalls.append(&mut recalls);
                self.encumbrances.append(&mut encumbrances);
            },
            Err(_) => {
                assert(self.registrations@ =~= old(self).registrations@ + Seq::<Registration>::empty());
                assert(self.inspections@ =~= old(self).inspections@ + Seq::<Inspection>::empty());
                assert(self.recalls@ =~= old(self).recalls@ + Seq::<Recall>::empty());
                assert(self.encumbrances@ =~= old(self).encumbrances@ + Seq::<Encumbrance>::empty());
            },
        }
    }
}

/// `r` is report `start` with the outcomes `os` added in order and its
/// inspections then sorted newest first.
pub open spec fn assembled_from(r: VehicleReport, start: VehicleReport, os: Seq<SourceOutcome>) -> bool {
    &&& r.vin == start.vin
    &&& r.generated_at == start.generated_at
    &&& r.sources@.len() == start.sources@.len() + os.len()
    &&& forall|i: int| 0 <= i < start.sources@.len() ==> #[trigger] r.sources@[i] == start.sources@[i]
    &&& forall|i: int|
        0 <= i < os.len() ==> #[trigger] records(os[i], r.sources@[start.sources@.len() + i])
    &&& r.decode == decode_after(start.decode, os)
    &&& r.registrations@ == start.registrations@ + contributed(os, |d: SourceData| registrations_of(d))
    &&& r.recalls@ == start.recalls@ + contributed(os, |d: SourceData| recalls_of(d))
    &&& r.encumbrances@ == start.encumbrances@ + contributed(os, |d: SourceData| encumbrances_of(d))
    &&& stably_newest_first(
        r.inspections@,
        start.inspections@ + contributed(os, |d: SourceData| inspections_of(d)),
    )
}

/// What successive outcomes contribute is what each contributes, concatenated
/// in the order the outcomes come.
pub proof fn lemma_contributed_push<T>(os: Seq<SourceOutcome>, o: SourceOutcome, part: spec_fn(SourceData) -> Seq<T>)
    ensures
        contributed(os.push(o), part) == contributed(os, part) + contributed(seq![o], part),
{
    let one = seq![o];
    assert(os.push(o).drop_last() =~= os);
    assert(one.drop_last() =~= Seq::<SourceOutcome>::empty());
    assert(contributed(Seq::<SourceOutcome>::empty(), part) =~= Seq::<T>::empty());
    assert(contributed(one, part) =~= Seq::<T>::empty() + match data_of(o) {
        Some(d) => part(d),
        None => Seq::empty(),
    });
}

/// The decode after successive outcomes is found by taking them one at a time.
pub proof fn lemma_decode_push(start: Option<VinDecode>, os: Seq<SourceOutcome>, o: SourceOutcome)
    ensures
        decode_after(start, os.push(o)) == decode_after(decode_after(start, os), seq![o]),
{
    let one = seq![o];
    assert(os.push(o).drop_last() =~= os);
    assert(os.push(o).last() == o);
    lemma_single(decode_after(start, os), o, |d: SourceData| registrations_of(d));
}

/// A single outcome contributes its data when the source answered and nothing
/// otherwise; its decode is taken only if none was there before.
pub proof fn lemma_single<T>(start: Option<VinDecode>, o: SourceOutcome, part: spec_fn(SourceData) -> Seq<T>)
    ensures
        decode_after(start, seq![o]) == match (start, data_of(o)) {
            (None, Some(d)) => d.decode,
            _ => start,
        },
        contributed(seq![o], part) == match data_of(o) {
            Some(d) => part(d),
            None => Seq::empty(),
        },
{
    let one = seq![o];
    assert(one.drop_last() =~= Seq::<SourceOutcome>::empty());
    assert(one.last() == o);
    assert(decode_after(start, one.drop_last()) == start);
    assert(contributed(one.drop_last(), part) == Seq::<T>::empty());
    assert(contributed(one, part) =~= Seq::<T>::empty() + match data_of(o) {
        Some(d) => part(d),
        None => Seq::empty(),
    });
}

/// Adds the outcomes to the report in order, then sorts its inspections newest
/// first (stably).
pub fn assemble(report: VehicleReport, outcomes: Vec<SourceOutcome>) -> (r: VehicleReport)
    ensures
        assembled_from(r, report, outcomes@),
{
    let ghost start = report;
    let ghost os = outcomes@;
    let ghost base = start.sources@.len();
    let mut report = report;
    let mut rest = outcomes;
    let ghost mut k: int = 0;
    assert(os.skip(0) =~= os);
    assert(os.take(0) =~= Seq::<SourceOutcome>::empty());
    assert(report.registrations@ =~= start.registrations@ + Seq::<Registration>::empty());
    assert(report.inspections@ =~= start.inspections@ + Seq::<Inspection>::empty());
    assert(report.recalls@ =~= start.recalls@ + Seq::<Recall>::empty());
    assert(report.encumbrances@ =~= start.encumbrances@ + Seq::<Encumbrance>::empty());
    while rest.len() > 0
        invariant
            0 <= k <= os.len(),
            rest@ == os.skip(k),
            report.vin == start.vin,
            report.generated_at == start.generated_at,
            report.sources@.len() == base + k,
            forall|i: int| 0 <= i < base ==> #[trigger] report.sources@[i] == start.sources@[i],
            forall|i: int| 0 <= i < k ==> #[trigger] records(os[i], report.sources@[base + i]),
            report.decode == decode_after(start.decode, os.take(k)),
            report.registrations@ == start.registrations@ + contributed(
                os.take(k),
                |d: SourceData| registrations_of(d),
            ),
            report.inspections@ == start.inspections@ + contributed(
                os.take(k),
                |d: SourceData| inspections_of(d),
            ),
            report.recalls@ == start.recalls@ + contributed(os.take(k), |d: SourceData| recalls_of(d)),
            report.encumbrances@ == start.encumbrances@ + contributed(
                os.take(k),
                |d: SourceData| encumbrances_of(d),
            ),
        decreases rest@.len(),
    {
        let o = rest.remove(0);
        assert(o == os[k]);
        let ghost prev = report;
        report.absorb(o);
        proof {
            assert(os.take(k + 1) =~= os.take(k).push(o));
            lemma_decode_push(start.decode, os.take(k), o);
            lemma_contributed_push(os.take(k), o, |d: SourceData| registrations_of(d));
            lemma_contributed_push(os.take(k), o, |d: SourceData| inspections_of(d));
            lemma_contributed_push(os.take(k), o, |d: SourceData| recalls_of(d));
            lemma_contributed_push(os.take(k), o, |d: SourceData| encumbrances_of(d));
            assert forall|i: int| 0 <= i < base implies #[trigger] report.sources@[i]
                == start.sources@[i] by {
                assert(report.sources@[i] == report.sources@.drop_last()[i]);
            }
            assert forall|i: int| 0 <= i < k + 1 implies #[trigger] records(
                os[i],
                report.sources@[base + i],
            ) by {
                if i < k {
                    assert(report.sources@[base + i] == report.sources@.drop_last()[base + i]);
                }
            }
            k = k + 1;
            assert(rest@ =~= os.skip(k));
        }
    }
    assert(os.take(k) =~= os);
    let mut inspections: Vec<Inspection> = Vec::new();
    std::mem::swap(&mut inspections, &mut report.inspections);
    report.inspections = sort_newest_first(inspections);
    report
}

} // verus!
