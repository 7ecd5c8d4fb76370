//! Pack listings: paging through the helper's packs, and collecting the
//! packs of liked samples into one list ordered by name.

use vstd::prelude::*;
use crate::catalog::{summarize_helper_pack, PackSummary, SamplePackRecord};
use crate::search::clamp;
use crate::text::{lower_seq, str_eq, to_ascii_lowercase, chars_of};

verus! {

// ---------------------------------------------------------------------------
// Ordering packs by name
// ---------------------------------------------------------------------------

/// Lexicographic order on characters by code point. For UTF-8 text this is
/// the order `String`'s `Ord` gives by comparing bytes.
pub open spec fn lex_lt(a: Seq<char>, b: Seq<char>) -> bool
    decreases a.len(),
{
    if a.len() == 0 {
        b.len() > 0
    } else if b.len() == 0 {
        false
    } else if a[0] != b[0] {
        a[0] < b[0]
    } else {
        lex_lt(a.drop_first(), b.drop_first())
    }
}

/// The key packs are ordered by: the ASCII-lowercased name.
pub open spec fn name_key(p: SamplePackRecord) -> Seq<char> {
    lower_seq(p.name@)
}

/// `s` is in nondecreasing order of lowercased name.
pub open spec fn sorted_by_name(s: Seq<SamplePackRecord>) -> bool {
    forall|i: int, j: int| 0 <= i < j < s.len() ==> !lex_lt(name_key(s[j]), name_key(s[i]))
}

proof fn lemma_lex_irreflexive(a: Seq<char>)
    ensures
        !lex_lt(a, a),
    decreases a.len(),
{
    if a.len() > 0 {
        lemma_lex_irreflexive(a.drop_first());
    }
}

proof fn lemma_lex_asymmetric(a: Seq<char>, b: Seq<char>)
    ensures
        lex_lt(a, b) ==> !lex_lt(b, a),
    decreases a.len(),
{
    if a.len() > 0 && b.len() > 0 && a[0] == b[0] {
        lemma_lex_asymmetric(a.drop_first(), b.drop_first());
    }
}

proof fn lemma_lex_trichotomy(a: Seq<char>, b: Seq<char>)
    ensures
        lex_lt(a, b) || a == b || lex_lt(b, a),
    decreases a.len(),
{
    if a.len() > 0 && b.len() > 0 && a[0] == b[0] {
        lemma_lex_trichotomy(a.drop_first(), b.drop_first());
        if !lex_lt(a.drop_first(), b.drop_first()) && !lex_lt(b.drop_first(), a.drop_first()) {
            assert(a.drop_first() == b.drop_first());
            assert(a =~= seq![a[0]] + a.drop_first());
            assert(b =~= seq![b[0]] + b.drop_first());
            assert(a =~= b);
        }
    } else if a.len() > 0 && b.len() > 0 {
    } else if a.len() == 0 && b.len() == 0 {
        assert(a =~= b);
    }
}

proof fn lemma_lex_transitive(a: Seq<char>, b: Seq<char>, c: Seq<char>)
    requires
        lex_lt(a, b),
        lex_lt(b, c),
    ensures
        lex_lt(a, c),
    decreases a.len(),
{
    if a.len() > 0 && b.len() > 0 && c.len() > 0 && a[0] == b[0] && b[0] == c[0] {
        lemma_lex_transitive(a.drop_first(), b.drop_first(), c.drop_first());
    }
}

/// "Not greater" is transitive.
proof fn lemma_lex_le_transitive(a: Seq<char>, b: Seq<char>, c: Seq<char>)
    requires
        !lex_lt(b, a),
        !lex_lt(c, b),
    ensures
        !lex_lt(c, a),
{
    lemma_lex_trichotomy(a, b);
    lemma_lex_trichotomy(b, c);
    if lex_lt(a, b) && lex_lt(b, c) {
        lemma_lex_transitive(a, b, c);
        lemma_lex_asymmetric(a, c);
    } else if lex_lt(a, b) {
        lemma_lex_asymmetric(a, b);
    } else if lex_lt(b, c) {
        lemma_lex_asymmetric(b, c);
    } else {
        lemma_lex_irreflexive(a);
    }
}

/// Whether `a` comes strictly before `b` by code point.
fn chars_lt(a: &Vec<char>, b: &Vec<char>) -> (r: bool)
    ensures
        r == lex_lt(a@, b@),
{
    let mut k: usize = 0;
    assert(a@.subrange(0, a@.len() as int) =~= a@);
    assert(b@.subrange(0, b@.len() as int) =~= b@);
    while k < a.len() && k < b.len() && a[k] == b[k]
        invariant
            k <= a@.len(),
            k <= b@.len(),
            lex_lt(a@, b@) == lex_lt(
                a@.subrange(k as int, a@.len() as int),
                b@.subrange(k as int, b@.len() as int),
            ),
        decreases a@.len() - k,
    {
        let ghost x = a@.subrange(k as int, a@.len() as int);
        let ghost y = b@.subrange(k as int, b@.len() as int);
        assert(x.drop_first() =~= a@.subrange(k + 1, a@.len() as int));
        assert(y.drop_first() =~= b@.subrange(k + 1, b@.len() as int));
        k = k + 1;
    }
    let ghost x = a@.subrange(k as int, a@.len() as int);
    let ghost y = b@.subrange(k as int, b@.len() as int);
    if k == a.len() {
        assert(x.len() == 0);
        k < b.len()
    } else if k == b.len() {
        assert(y.len() == 0);
        false
    } else {
        assert(x[0] == a@[k as int] && y[0] == b@[k as int]);
        a[k] < b[k]
    }
}

/// `packs` in nondecreasing order of ASCII-lowercased name.
pub fn sort_packs_by_name(packs: Vec<SamplePackRecord>) -> (out: Vec<SamplePackRecord>)
    ensures
        out@.to_multiset() == packs@.to_multiset(),
        sorted_by_name(out@),
{
    broadcast use vstd::seq_lib::group_to_multiset_ensures;

    let mut rest = packs;
    let ghost all = rest@;
    let total = rest.len();
    let mut out: Vec<SamplePackRecord> = Vec::new();
    let mut keys: Vec<Vec<char>> = Vec::new();
    let mut taken: usize = 0;
    while rest.len() > 0
        invariant
            total == all.len(),
            taken + rest@.len() == all.len(),
            rest@ == all.subrange(taken as int, all.len() as int),
            out@.to_multiset() == all.subrange(0, taken as int).to_multiset(),
            sorted_by_name(out@),
            keys@.len() == out@.len(),
            forall|i: int| 0 <= i < keys@.len() ==> #[trigger] keys@[i]@ == name_key(out@[i]),
        decreases rest@.len(),
    {
        let item = rest.remove(0);
        assert(item == all[taken as int]);
        let lowered = to_ascii_lowercase(item.name.as_str());
        let key = chars_of(lowered.as_str());
        assert(key@ == name_key(item));
        let mut p: usize = 0;
        while p < out.len() && !chars_lt(&key, &keys[p])
            invariant
                p <= out@.len(),
                key@ == name_key(item),
                keys@.len() == out@.len(),
                forall|i: int| 0 <= i < keys@.len() ==> #[trigger] keys@[i]@ == name_key(out@[i]),
                forall|k: int| 0 <= k < p ==> !lex_lt(name_key(item), #[trigger] name_key(out@[k])),
            decreases out@.len() - p,
        {
            p = p + 1;
        }
        let ghost before = out@;
        proof {
            assert forall|k: int| p <= k < before.len() implies !lex_lt(
                #[trigger] name_key(before[k]),
                name_key(item),
            ) by {
                assert(lex_lt(name_key(item), name_key(before[p as int])));
                lemma_lex_asymmetric(name_key(item), name_key(before[p as int]));
                if k > p {
                    lemma_lex_le_transitive(
                        name_key(item),
                        name_key(before[p as int]),
                        name_key(before[k]),
                    );
                }
            }
        }
        out.insert(p, item);
        keys.insert(p, key);
        proof {
            let now = out@;
            assert(now == before.insert(p as int, item));
            assert(now.remove(p as int) =~= before);
            assert(now[p as int] == item);
            now.to_multiset_ensures();
            before.to_multiset_ensures();
            all.subrange(0, taken as int).to_multiset_ensures();
            assert(now.remove(p as int).to_multiset() =~= now.to_multiset().remove(now[p as int]));
            assert(now.contains(item));
            assert(now.to_multiset().count(item) > 0);
            assert(now.to_multiset() =~= before.to_multiset().insert(item));
            assert(all.subrange(0, taken + 1) =~= all.subrange(0, taken as int).push(item));
            assert forall|i: int, j: int| 0 <= i < j < now.len() implies !lex_lt(
                name_key(now[j]),
                name_key(now[i]),
            ) by {
                if j < p {
                    assert(now[i] == before[i] && now[j] == before[j]);
                } else if j == p {
                    assert(now[i] == before[i]);
                } else if i == p {
                    assert(now[j] == before[j - 1]);
                } else if i < p {
                    assert(now[i] == before[i] && now[j] == before[j - 1]);
                } else {
                    assert(now[i] == before[i - 1] && now[j] == before[j - 1]);
                }
            }
            assert forall|i: int| 0 <= i < keys@.len() implies #[trigger] keys@[i]@ == name_key(
                out@[i],
            ) by {
                if i < p {
                } else if i > p {
                    assert(out@[i] == before[i - 1]);
                }
            }
        }
        taken = taken + 1;
        assert(rest@ =~= all.subrange(taken as int, all.len() as int));
    }
    assert(all.subrange(0, all.len() as int) =~= all);
    out
}

// ---------------------------------------------------------------------------
// Liked packs
// ---------------------------------------------------------------------------

/// When a liked-packs scan stops: with no limit given it goes on until a
/// page returns fewer than 100 samples or 500 distinct packs are held, over
/// a budget of 5 pages; with a limit, until fewer than 100 samples come
/// back or that many packs are held (a negative limit is never reached),
/// over the limit bounded to 50..=1000 in pages of 100.
pub proof fn lemma_liked_scan_limits(limit: Option<i32>, samples_returned: nat, packs_held: nat)
    ensures
        limit is None ==> (liked_scan_stops(limit, samples_returned, packs_held) <==> (samples_returned
            < 100 || packs_held >= 500)),
        limit is None ==> liked_scan_pages(limit) == 5,
        limit matches Some(l) ==> (liked_scan_stops(limit, samples_returned, packs_held) <==> (
        samples_returned < 100 || (l >= 0 && packs_held >= l))),
        limit matches Some(l) ==> liked_scan_pages(limit) == (if l < 50 {
            1
        } else if l > 1000 {
            10
        } else {
            (l + 99) / 100
        }),
{
}

/// `packs` has a pack with the given uuid.
pub open spec fn has_uuid(packs: Seq<SamplePackRecord>, uuid: Seq<char>) -> bool {
    exists|k: int| 0 <= k < packs.len() && #[trigger] packs[k].uuid@ == uuid
}

/// `seen` followed by each pack of `more` whose uuid is not yet present:
/// the first pack met with a uuid is the one kept.
pub open spec fn add_unseen(seen: Seq<SamplePackRecord>, more: Seq<SamplePackRecord>) -> Seq<
    SamplePackRecord,
>
    decreases more.len(),
{
    if more.len() == 0 {
        seen
    } else {
        let before = add_unseen(seen, more.drop_last());
        if has_uuid(before, more.last().uuid@) {
            before
        } else {
            before.push(more.last())
        }
    }
}

/// How many result pages a liked-packs scan may request for `limit`:
/// the limit (500 by default) bounded to 50..=1000, over 100 per page.
pub open spec fn liked_scan_pages(limit: Option<i32>) -> int {
    let wanted = clamp(
        match limit {
            Some(l) => l as int,
            None => 500,
        },
        50,
        1000,
    );
    (wanted + 99) / 100
}

/// Samples per page in a liked-packs scan.
pub open spec fn liked_scan_per_page() -> i32 {
    100
}

/// A liked-packs scan stops after a page with fewer samples than asked for,
/// or once it holds as many packs as the (unbounded) limit, 500 by default.
pub open spec fn liked_scan_stops(limit: Option<i32>, samples_returned: nat, packs_held: nat) -> bool {
    let lim = match limit {
        Some(l) => l as int,
        None => 500,
    };
    samples_returned < 100 || (lim >= 0 && packs_held >= lim)
}

fn uuid_present(packs: &Vec<SamplePackRecord>, uuid: &str) -> (r: bool)
    ensures
        r == has_uuid(packs@, uuid@),
{
    let mut k: usize = 0;
    while k < packs.len()
        invariant
            k <= packs@.len(),
            forall|m: int| 0 <= m < k ==> #[trigger] packs@[m].uuid@ != uuid@,
        decreases packs@.len() - k,
    {
        if str_eq(packs[k].uuid.as_str(), uuid) {
            assert(packs@[k as int].uuid@ == uuid@);
            return true;
        }
        k = k + 1;
    }
    false
}

/// The state of a scan of liked samples for the packs they belong to.
#[derive(Debug)]
pub struct LikedPacksScan {
    packs: Vec<SamplePackRecord>,
    limit: Option<i32>,
    max_pages: i32,
    next_page: i32,
    finished: bool,
}

impl LikedPacksScan {
    /// The packs collected so far, first-seen first.
    pub closed spec fn collected(&self) -> Seq<SamplePackRecord> {
        self.packs@
    }

    /// The page to request next, if the scan goes on.
    pub closed spec fn pending_page(&self) -> Option<i32> {
        if !self.finished && self.next_page <= self.max_pages {
            Some(self.next_page)
        } else {
            None
        }
    }

    /// The limit the scan was started with.
    pub closed spec fn scan_limit(&self) -> Option<i32> {
        self.limit
    }

    /// The number of pages the scan may request at most.
    pub closed spec fn page_budget(&self) -> int {
        self.max_pages as int
    }

    /// A scan that has collected nothing and will first request page 1.
    pub fn new(limit: Option<i32>) -> (r: LikedPacksScan)
        ensures
            r.collected() == Seq::<SamplePackRecord>::empty(),
            uuids_distinct(r.collected()),
            r.scan_limit() == limit,
            r.page_budget() == liked_scan_pages(limit),
            r.pending_page() == Some(1i32),
    {
        let wanted: i32 = match limit {
            Some(l) => if l < 50 {
                50
            } else if l > 1000 {
                1000
            } else {
                l
            },
            None => 500,
        };
        let max_pages = (wanted + 99) / 100;
        LikedPacksScan { packs: Vec::new(), limit, max_pages, next_page: 1, finished: false }
    }

    /// The page to request next, if the scan goes on.
    pub fn next_page(&self) -> (r: Option<i32>)
        ensures
            r == self.pending_page(),
    {
        if !self.finished && self.next_page <= self.max_pages {
            Some(self.next_page)
        } else {
            None
        }
    }

    /// Takes in the answer for the pending page: its matching packs and the
    /// number of samples it held.
    pub fn record_page(&mut self, matching_packs: Vec<SamplePackRecord>, samples_returned: usize)
        requires
            old(self).pending_page() is Some,
        ensures
            final(self).collected() == add_unseen(old(self).collected(), matching_packs@),
            uuids_distinct(old(self).collected()) ==> uuids_distinct(final(self).collected()),
            final(self).scan_limit() == old(self).scan_limit(),
            final(self).page_budget() == old(self).page_budget(),
            final(self).pending_page() == if liked_scan_stops(
                old(self).scan_limit(),
                samples_returned as nat,
                final(self).collected().len(),
            ) || old(self).pending_page()->0 >= old(self).page_budget() {
                None::<i32>
            } else {
                Some((old(self).pending_page()->0 + 1) as i32)
            },
    {
        let mut i: usize = 0;
        let ghost start = self.packs@;
        while i < matching_packs.len()
            invariant
                i <= matching_packs@.len(),
                self.packs@ == add_unseen(start, matching_packs@.subrange(0, i as int)),
                self.limit == old(self).limit,
                self.max_pages == old(self).max_pages,
                self.next_page == old(self).next_page,
                self.finished == old(self).finished,
            decreases matching_packs@.len() - i,
        {
            let ghost prefix = matching_packs@.subrange(0, i + 1);
            assert(prefix.drop_last() =~= matching_packs@.subrange(0, i as int));
            if !uuid_present(&self.packs, matching_packs[i].uuid.as_str()) {
                self.packs.push(matching_packs[i].duplicate());
            }
            i = i + 1;
        }
        assert(matching_packs@.subrange(0, matching_packs@.len() as int) =~= matching_packs@);
        proof {
            if uuids_distinct(start) {
                lemma_add_unseen_keeps_one_per_uuid(start, matching_packs@);
            }
        }
        let lim: i32 = match self.limit {
            Some(l) => l,
            None => 500,
        };
        let stops = samples_returned < 100 || (lim >= 0 && self.packs.len() >= lim as usize);
        if stops || self.next_page >= self.max_pages {
            self.finished = true;
        } else {
            self.next_page = self.next_page + 1;
        }
    }

    /// Ends the scan: the collected packs as summaries, ordered by name.
    pub fn finish(self) -> (out: Vec<PackSummary>)
        ensures
            uuids_distinct(self.collected()) ==> forall|i: int, j: int|
                0 <= i < j < out@.len() ==> #[trigger] out@[i].uuid@ != #[trigger] out@[j].uuid@,
            exists|sorted: Seq<SamplePackRecord>|
                {
                    &&& sorted.to_multiset() == self.collected().to_multiset()
                    &&& sorted_by_name(sorted)
                    &&& out@.len() == sorted.len()
                    &&& forall|i: int|
                        0 <= i < out@.len() ==> is_helper_pack_summary(#[trigger] out@[i], sorted[i])
                },
    {
        let ghost collected = self.packs@;
        let sorted = sort_packs_by_name(self.packs);
        let ghost order = sorted@;
        proof {
            if uuids_distinct(collected) {
                lemma_same_multiset_keeps_uuids_distinct(order, collected);
            }
        }
        let mut rest = sorted;
        let mut out: Vec<PackSummary> = Vec::new();
        while rest.len() > 0
            invariant
                out@.len() + rest@.len() == order.len(),
                rest@ == order.subrange(out@.len() as int, order.len() as int),
                forall|i: int|
                    0 <= i < out@.len() ==> is_helper_pack_summary(#[trigger] out@[i], order[i]),
            decreases rest@.len(),
        {
            let pack = rest.remove(0);
            assert(pack == order[out@.len() as int]);
            out.push(summarize_helper_pack(pack));
            assert(rest@ =~= order.subrange(out@.len() as int, order.len() as int));
        }
        out
    }
}

/// `out` is the helper pack summary of `pack`.
pub open spec fn is_helper_pack_summary(out: PackSummary, pack: SamplePackRecord) -> bool {
    &&& out.uuid == pack.uuid
    &&& out.name == pack.name
    &&& out.cover_url == pack.cover_url
    &&& out.banner_url@ == Seq::<char>::empty()
    &&& out.demo_url@ == Seq::<char>::empty()
    &&& out.genre == pack.genre
    &&& out.provider_name == pack.provider_name
    &&& out.permalink == pack.permalink
    &&& out.sample_count is None
}

// ---------------------------------------------------------------------------
// Paging through the helper's packs
// ---------------------------------------------------------------------------

/// The state of a walk through the helper's pack listing, page token by
/// page token, of at most 50 requests.
#[derive(Debug)]
pub struct HelperPackPager {
    packs: Vec<SamplePackRecord>,
    next_token: i64,
    requests: u32,
    done: bool,
}

impl HelperPackPager {
    /// The packs listed so far, in order.
    pub closed spec fn listed(&self) -> Seq<SamplePackRecord> {
        self.packs@
    }

    /// The token of the next request, if the walk goes on.
    pub closed spec fn pending_token(&self) -> Option<i64> {
        if !self.done && self.requests < 50 {
            Some(self.next_token)
        } else {
            None
        }
    }

    /// The number of requests answered so far.
    pub closed spec fn requests_made(&self) -> nat {
        self.requests as nat
    }

    /// A walk that starts at token 0.
    pub fn new() -> (r: HelperPackPager)
        ensures
            r.listed() == Seq::<SamplePackRecord>::empty(),
            r.pending_token() == Some(0i64),
            r.requests_made() == 0,
    {
        HelperPackPager { packs: Vec::new(), next_token: 0, requests: 0, done: false }
    }

    /// The token of the next request, if the walk goes on.
    pub fn next_token(&self) -> (r: Option<i64>)
        ensures
            r == self.pending_token(),
    {
        if !self.done && self.requests < 50 {
            Some(self.next_token)
        } else {
            None
        }
    }

    /// Takes in one page: its packs, and the token the helper gave for the
    /// next page. A zero token, or the token just used, ends the walk.
    pub fn record_page(&mut self, page_packs: Vec<SamplePackRecord>, response_token: i64)
        requires
            old(self).pending_token() is Some,
        ensures
            final(self).listed() == old(self).listed() + page_packs@,
            final(self).requests_made() == old(self).requests_made() + 1,
            final(self).pending_token() == if response_token == 0 || response_token
                == old(self).pending_token()->0 || final(self).requests_made() >= 50 {
                None::<i64>
            } else {
                Some(response_token)
            },
    {
        let mut page_packs = page_packs;
        self.packs.append(&mut page_packs);
        self.requests = self.requests + 1;
        if response_token == 0 || response_token == self.next_token {
            self.done = true;
        } else {
            self.next_token = response_token;
        }
    }

    /// A failed request ends the walk with what was listed.
    pub fn record_failure(&mut self)
        ensures
            final(self).listed() == old(self).listed(),
            final(self).pending_token() is None,
            final(self).requests_made() == old(self).requests_made(),
    {
        self.done = true;
    }

    /// The packs listed, in order.
    pub fn into_packs(self) -> (r: Vec<SamplePackRecord>)
        ensures
            r@ == self.listed(),
    {
        self.packs
    }
}

/// A reordering of packs with distinct uuids has distinct uuids.
proof fn lemma_same_multiset_keeps_uuids_distinct(s1: Seq<SamplePackRecord>, s2: Seq<SamplePackRecord>)
    requires
        s1.to_multiset() == s2.to_multiset(),
        uuids_distinct(s2),
    ensures
        uuids_distinct(s1),
{
    assert(s2.no_duplicates()) by {
        assert forall|i: int, j: int| 0 <= i < s2.len() && 0 <= j < s2.len() && i != j implies s2[i]
            != s2[j] by {
            if i < j {
                assert(s2[i].uuid@ != s2[j].uuid@);
            } else {
                assert(s2[j].uuid@ != s2[i].uuid@);
            }
        }
    }
    s2.lemma_multiset_has_no_duplicates();
    s1.lemma_multiset_has_no_duplicates_conv();
    s1.to_multiset_ensures();
    s2.to_multiset_ensures();
    assert forall|i: int, j: int| 0 <= i < j < s1.len() implies #[trigger] s1[i].uuid@ != #[trigger] s1[j].uuid@ by {
        assert(s1[i] != s1[j]);
        assert(s1.contains(s1[i]) && s1.to_multiset().count(s1[i]) > 0);
        assert(s1.contains(s1[j]) && s1.to_multiset().count(s1[j]) > 0);
        assert(s2.contains(s1[i]));
        assert(s2.contains(s1[j]));
        let k = choose|k: int| 0 <= k < s2.len() && s2[k] == s1[i];
        let l = choose|l: int| 0 <= l < s2.len() && s2[l] == s1[j];
        assert(k != l);
        if k < l {
            assert(s2[k].uuid@ != s2[l].uuid@);
        } else {
            assert(s2[l].uuid@ != s2[k].uuid@);
        }
    }
}

/// The listing shown for the helper's packs: each pack summarized, in the
/// order the helper gave them.
pub fn summarize_helper_packs(packs: Vec<SamplePackRecord>) -> (out: Vec<PackSummary>)
    ensures
        out@.len() == packs@.len(),
        forall|i: int| 0 <= i < out@.len() ==> is_helper_pack_summary(#[trigger] out@[i], packs@[i]),
{
    let ghost order = packs@;
    let mut rest = packs;
    let mut out: Vec<PackSummary> = Vec::new();
    while rest.len() > 0
        invariant
            out@.len() + rest@.len() == order.len(),
            rest@ == order.subrange(out@.len() as int, order.len() as int),
            forall|i: int| 0 <= i < out@.len() ==> is_helper_pack_summary(#[trigger] out@[i], order[i]),
        decreases rest@.len(),
    {
        let pack = rest.remove(0);
        out.push(summarize_helper_pack(pack));
    }
    out
}

/// No two packs of `s` share a uuid.
pub open spec fn uuids_distinct(s: Seq<SamplePackRecord>) -> bool {
    forall|i: int, j: int| 0 <= i < j < s.len() ==> #[trigger] s[i].uuid@ != #[trigger] s[j].uuid@
}

/// Collecting packs keeps each uuid once and loses none: from a list
/// without repeated uuids, adding packs gives a list without repeated
/// uuids that starts with the old list and has every uuid of the packs
/// added.
pub proof fn lemma_add_unseen_keeps_one_per_uuid(seen: Seq<SamplePackRecord>, more: Seq<SamplePackRecord>)
    requires
        uuids_distinct(seen),
    ensures
        uuids_distinct(add_unseen(seen, more)),
        add_unseen(seen, more).len() >= seen.len(),
        add_unseen(seen, more).subrange(0, seen.len() as int) == seen,
        forall|k: int| 0 <= k < more.len() ==> has_uuid(add_unseen(seen, more), #[trigger] more[k].uuid@),
    decreases more.len(),
{
    if more.len() > 0 {
        let before = add_unseen(seen, more.drop_last());
        lemma_add_unseen_keeps_one_per_uuid(seen, more.drop_last());
        let after = add_unseen(seen, more);
        if !has_uuid(before, more.last().uuid@) {
            assert(after == before.push(more.last()));
            assert forall|i: int, j: int| 0 <= i < j < after.len() implies #[trigger] after[i].uuid@
                != #[trigger] after[j].uuid@ by {
                if j == after.len() - 1 {
                    assert(before[i] == after[i]);
                    if after[i].uuid@ == after[j].uuid@ {
                        assert(has_uuid(before, more.last().uuid@));
                    }
                }
            }
            assert(after.subrange(0, seen.len() as int) =~= before.subrange(0, seen.len() as int));
            assert(has_uuid(after, more.last().uuid@)) by {
                assert(after[after.len() - 1].uuid@ == more.last().uuid@);
            }
        }
        assert forall|k: int| 0 <= k < more.len() implies has_uuid(after, #[trigger] more[k].uuid@) by {
            if k < more.len() - 1 {
                assert(more.drop_last()[k] == more[k]);
                assert(has_uuid(before, more.drop_last()[k].uuid@));
                let w = choose|w: int| 0 <= w < before.len() && #[trigger] before[w].uuid@ == more[k].uuid@;
                assert(after[w] == before[w]);
            }
        }
    } else {
        assert(seen.subrange(0, seen.len() as int) =~= seen);
    }
}

} // verus!
