//! Offline cache of scan events that could not be delivered.
//!
//! Each record is identified by the pair of its tag id and its creation
//! time in milliseconds. The cache keeps records ordered oldest-first by
//! creation time, so a drain always works in arrival order (FIFO
//! fairness), and it never holds two records with the same identity.
//! `attempts` counts delivery tries; records that reach
//! [`MAX_SEND_ATTEMPTS`] are retained but no longer retried, and nothing
//! purges them. The runtime mirrors every operation to one file per
//! record in a cache directory; this module is the authoritative
//! semantics of those operations.

use crate::text::{format_i64, int_text};
use vstd::prelude::*;
use vstd::string::*;

verus! {

/// Delivery attempts after which a record is kept but no longer retried.
pub const MAX_SEND_ATTEMPTS: u8 = 3;

/// A scan that has not reached the remote service yet.
#[derive(Debug)]
pub struct PendingScan {
    /// UID of the scanned tag.
    pub tag_id: String,
    /// Identifier of this kiosk.
    pub terminal_id: String,
    /// Unix seconds of the scan itself.
    pub timestamp: i64,
    pub room_id: Option<i32>,
    pub activity_id: Option<i32>,
    pub staff_id: Option<i32>,
    /// Delivery attempts made so far.
    pub attempts: u8,
    /// Unix milliseconds at which the record was created; together with
    /// `tag_id` this is the record's identity.
    pub created_at: i64,
}

impl Clone for PendingScan {
    /// An exact copy of the record.
    fn clone(&self) -> (r: Self)
        ensures
            r == *self,
    {
        PendingScan {
            tag_id: self.tag_id.clone(),
            terminal_id: self.terminal_id.clone(),
            timestamp: self.timestamp,
            room_id: self.room_id,
            activity_id: self.activity_id,
            staff_id: self.staff_id,
            attempts: self.attempts,
            created_at: self.created_at,
        }
    }
}

impl PendingScan {
    /// A fresh record for one scan, with no delivery attempts yet.
    pub fn new(
        tag_id: String,
        terminal_id: String,
        timestamp: i64,
        room_id: Option<i32>,
        activity_id: Option<i32>,
        staff_id: Option<i32>,
        created_at: i64,
    ) -> (r: PendingScan)
        ensures
            r == (PendingScan {
                tag_id,
                terminal_id,
                timestamp,
                room_id,
                activity_id,
                staff_id,
                attempts: 0,
                created_at,
            }),
    {
        PendingScan {
            tag_id,
            terminal_id,
            timestamp,
            room_id,
            activity_id,
            staff_id,
            attempts: 0,
            created_at,
        }
    }
}

/// Whether a record carries the given identity.
pub open spec fn scan_key_matches(r: PendingScan, tag: Seq<char>, created_at: int) -> bool {
    r.tag_id@ == tag && r.created_at == created_at
}

/// Index of the first record with the given identity, or -1.
pub open spec fn key_index(s: Seq<PendingScan>, tag: Seq<char>, created_at: int) -> int
    decreases s.len(),
{
    if s.len() == 0 {
        -1
    } else if scan_key_matches(s[0], tag, created_at) {
        0
    } else {
        let rest = key_index(s.skip(1), tag, created_at);
        if rest < 0 {
            -1
        } else {
            rest + 1
        }
    }
}

/// Whether some record carries the given identity.
pub open spec fn has_key(s: Seq<PendingScan>, tag: Seq<char>, created_at: int) -> bool {
    key_index(s, tag, created_at) >= 0
}

/// The record with the given identity, if any.
pub open spec fn lookup(s: Seq<PendingScan>, tag: Seq<char>, created_at: int) -> Option<PendingScan> {
    if has_key(s, tag, created_at) {
        Some(s[key_index(s, tag, created_at)])
    } else {
        None
    }
}

/// Oldest-first order by creation time.
pub open spec fn sorted_by_created(s: Seq<PendingScan>) -> bool {
    forall|i: int, j: int| 0 <= i < j < s.len() ==> s[i].created_at <= s[j].created_at
}

/// No two records share an identity.
pub open spec fn unique_keys(s: Seq<PendingScan>) -> bool {
    forall|i: int, j: int|
        0 <= i < j < s.len() ==> !scan_key_matches(s[i], s[j].tag_id@, s[j].created_at as int)
}

/// Position at which a record created at the given time is inserted:
/// after every record that is not younger, so ties keep arrival order.
pub open spec fn insertion_point(s: Seq<PendingScan>, created_at: int) -> int
    decreases s.len(),
{
    if s.len() == 0 {
        0
    } else if s[0].created_at <= created_at {
        1 + insertion_point(s.skip(1), created_at)
    } else {
        0
    }
}

/// What `key_index` finds: either nothing matches, or it is the first
/// matching position.
pub proof fn lemma_key_index_spec(s: Seq<PendingScan>, tag: Seq<char>, created_at: int)
    ensures
        key_index(s, tag, created_at) < 0 ==> key_index(s, tag, created_at) == -1 && forall|i: int|
            0 <= i < s.len() ==> !scan_key_matches(s[i], tag, created_at),
        key_index(s, tag, created_at) >= 0 ==> {
            let k = key_index(s, tag, created_at);
            &&& 0 <= k < s.len()
            &&& scan_key_matches(s[k], tag, created_at)
            &&& forall|i: int| 0 <= i < k ==> !scan_key_matches(s[i], tag, created_at)
        },
    decreases s.len(),
{
    if s.len() > 0 && !scan_key_matches(s[0], tag, created_at) {
        lemma_key_index_spec(s.skip(1), tag, created_at);
        let rest = key_index(s.skip(1), tag, created_at);
        if rest < 0 {
            assert forall|i: int| 0 <= i < s.len() implies !scan_key_matches(
                s[i],
                tag,
                created_at,
            ) by {
                if i > 0 {
                    assert(s.skip(1)[i - 1] == s[i]);
                }
            }
        } else {
            assert(s.skip(1)[rest] == s[rest + 1]);
            assert forall|i: int| 0 <= i < rest + 1 implies !scan_key_matches(
                s[i],
                tag,
                created_at,
            ) by {
                if i > 0 {
                    assert(s.skip(1)[i - 1] == s[i]);
                }
            }
        }
    }
}

/// `key_index` returns the first matching position.
pub proof fn lemma_key_index_first(s: Seq<PendingScan>, tag: Seq<char>, created_at: int, j: int)
    requires
        0 <= j < s.len(),
        scan_key_matches(s[j], tag, created_at),
        forall|i: int| 0 <= i < j ==> !scan_key_matches(s[i], tag, created_at),
    ensures
        key_index(s, tag, created_at) == j,
    decreases j,
{
    if j > 0 {
        assert(s.skip(1)[j - 1] == s[j]);
        assert forall|i: int| 0 <= i < j - 1 implies !scan_key_matches(
            s.skip(1)[i],
            tag,
            created_at,
        ) by {
            assert(s.skip(1)[i] == s[i + 1]);
        }
        lemma_key_index_first(s.skip(1), tag, created_at, j - 1);
    }
}

/// `key_index` finds nothing when nothing matches.
pub proof fn lemma_key_index_absent(s: Seq<PendingScan>, tag: Seq<char>, created_at: int)
    requires
        forall|i: int| 0 <= i < s.len() ==> !scan_key_matches(s[i], tag, created_at),
    ensures
        key_index(s, tag, created_at) == -1,
    decreases s.len(),
{
    if s.len() > 0 {
        assert forall|i: int| 0 <= i < s.len() - 1 implies !scan_key_matches(
            s.skip(1)[i],
            tag,
            created_at,
        ) by {
            assert(s.skip(1)[i] == s[i + 1]);
        }
        lemma_key_index_absent(s.skip(1), tag, created_at);
    }
}

/// In a sequence without duplicate identities, `key_index` finds a
/// matching record exactly at its position.
pub proof fn lemma_key_index_of_match(s: Seq<PendingScan>, j: int)
    requires
        unique_keys(s),
        0 <= j < s.len(),
    ensures
        key_index(s, s[j].tag_id@, s[j].created_at as int) == j,
{
    let tag = s[j].tag_id@;
    let created_at = s[j].created_at as int;
    lemma_key_index_spec(s, tag, created_at);
    let k = key_index(s, tag, created_at);
    if k < 0 {
        assert(scan_key_matches(s[j], tag, created_at));
    } else if k < j {
        assert(scan_key_matches(s[k], s[j].tag_id@, s[j].created_at as int));
    } else if k > j {
        assert(scan_key_matches(s[k], tag, created_at));
        assert(scan_key_matches(s[j], s[k].tag_id@, s[k].created_at as int));
    }
}

/// `insertion_point` is the boundary between the records that are not
/// younger and the rest.
pub proof fn lemma_insertion_point_at(s: Seq<PendingScan>, created_at: int, j: int)
    requires
        0 <= j <= s.len(),
        forall|i: int| 0 <= i < j ==> s[i].created_at <= created_at,
        j == s.len() || s[j].created_at > created_at,
    ensures
        insertion_point(s, created_at) == j,
    decreases j,
{
    if j == 0 {
        if s.len() > 0 {
            assert(s[0].created_at > created_at);
        }
    } else {
        assert forall|i: int| 0 <= i < j - 1 implies s.skip(1)[i].created_at <= created_at by {
            assert(s.skip(1)[i] == s[i + 1]);
        }
        if j < s.len() {
            assert(s.skip(1)[j - 1] == s[j]);
        }
        lemma_insertion_point_at(s.skip(1), created_at, j - 1);
    }
}

/// The durable queue of pending scans.
pub struct OfflineScanCache {
    records: Vec<PendingScan>,
}

impl View for OfflineScanCache {
    type V = Seq<PendingScan>;

    /// The records, oldest first.
    closed spec fn view(&self) -> Seq<PendingScan> {
        self.records@
    }
}

impl OfflineScanCache {
    /// Well-formedness: oldest-first order and unique identities.
    pub open spec fn wf(&self) -> bool {
        &&& sorted_by_created(self@)
        &&& unique_keys(self@)
    }

    /// An empty cache.
    pub fn new() -> (r: OfflineScanCache)
        ensures
            r.wf(),
            r@.len() == 0,
    {
        OfflineScanCache { records: Vec::new() }
    }

    /// Number of pending records.
    pub fn len(&self) -> (r: usize)
        ensures
            r == self@.len(),
    {
        self.records.len()
    }

    /// Position of the record with the given identity, if present.
    fn find_index(&self, tag: &String, created_at: i64) -> (r: Option<usize>)
        ensures
            match r {
                Some(j) => j as int == key_index(self@, tag@, created_at as int),
                None => !has_key(self@, tag@, created_at as int),
            },
    {
        let n = self.records.len();
        let mut i: usize = 0;
        while i < n
            invariant
                i <= n,
                n == self@.len(),
                forall|k: int| 0 <= k < i ==> !scan_key_matches(self@[k], tag@, created_at as int),
            decreases n - i,
        {
            let rec = &self.records[i];
            if rec.created_at == created_at && rec.tag_id == *tag {
                proof {
                    lemma_key_index_first(self@, tag@, created_at as int, i as int);
                }
                return Some(i);
            }
            i = i + 1;
        }
        proof {
            lemma_key_index_absent(self@, tag@, created_at as int);
        }
        None
    }

    /// Persist one scan. A record with the same identity is replaced;
    /// otherwise the scan is inserted at its place in creation order,
    /// after any record created at the same time.
    pub fn cache_scan(&mut self, scan: PendingScan)
        requires
            old(self).wf(),
        ensures
            final(self).wf(),
            has_key(old(self)@, scan.tag_id@, scan.created_at as int) ==> final(self)@ == old(
                self,
            )@.update(key_index(old(self)@, scan.tag_id@, scan.created_at as int), scan),
            !has_key(old(self)@, scan.tag_id@, scan.created_at as int) ==> final(self)@ == old(
                self,
            )@.insert(insertion_point(old(self)@, scan.created_at as int), scan),
            lookup(final(self)@, scan.tag_id@, scan.created_at as int) == Some(scan),
    {
        let ghost s0 = self@;
        match self.find_index(&scan.tag_id, scan.created_at) {
            Some(j) => {
                proof {
                    lemma_key_index_spec(s0, scan.tag_id@, scan.created_at as int);
                }
                self.records[j] = scan;
                proof {
                    let t = self@;
                    let ji = j as int;
                    assert forall|i: int, k: int| 0 <= i < k < t.len() implies t[i].created_at
                        <= t[k].created_at by {
                        assert(scan.created_at == s0[ji].created_at);
                    }
                    assert forall|i: int, k: int| 0 <= i < k < t.len() implies !scan_key_matches(
                        t[i],
                        t[k].tag_id@,
                        t[k].created_at as int,
                    ) by {
                        assert(scan.tag_id@ == s0[ji].tag_id@);
                        assert(scan.created_at == s0[ji].created_at);
                    }
                    assert(t[ji] == scan);
                    lemma_key_index_of_match(t, ji);
                }
            },
            None => {
                let n = self.records.len();
                let mut p: usize = 0;
                while p < n && self.records[p].created_at <= scan.created_at
                    invariant
                        p <= n,
                        n == self@.len(),
                        self@ == s0,
                        forall|k: int| 0 <= k < p ==> self@[k].created_at <= scan.created_at,
                    decreases n - p,
                {
                    p = p + 1;
                }
                proof {
                    lemma_insertion_point_at(s0, scan.created_at as int, p as int);
                    lemma_key_index_spec(s0, scan.tag_id@, scan.created_at as int);
                }
                self.records.insert(p, scan);
                proof {
                    let t = self@;
                    let pi = p as int;
                    assert forall|i: int| 0 <= i < t.len() implies t[i] == (if i < pi {
                        s0[i]
                    } else if i == pi {
                        scan
                    } else {
                        s0[i - 1]
                    }) by {}
                    assert forall|i: int, k: int| 0 <= i < k < t.len() implies t[i].created_at
                        <= t[k].created_at by {}
                    assert forall|i: int, k: int| 0 <= i < k < t.len() implies !scan_key_matches(
                        t[i],
                        t[k].tag_id@,
                        t[k].created_at as int,
                    ) by {
                        if i == pi {
                            assert(t[k] == s0[k - 1]);
                            assert(!scan_key_matches(s0[k - 1], scan.tag_id@, scan.created_at as int));
                        } else if k == pi {
                            assert(t[i] == s0[i]);
                            assert(!scan_key_matches(s0[i], scan.tag_id@, scan.created_at as int));
                        }
                    }
                    assert(t[pi] == scan);
                    lemma_key_index_of_match(t, pi);
                }
            },
        }
    }

    /// All pending records, oldest first.
    pub fn get_cached_scans(&self) -> (r: Vec<PendingScan>)
        requires
            self.wf(),
        ensures
            r@ == self@,
            sorted_by_created(r@),
    {
        let n = self.records.len();
        let mut out: Vec<PendingScan> = Vec::new();
        let mut i: usize = 0;
        while i < n
            invariant
                i <= n,
                n == self@.len(),
                out@ == self@.take(i as int),
            decreases n - i,
        {
            out.push(self.records[i].clone());
            proof {
                assert(out@ =~= self@.take(i + 1 as int));
            }
            i = i + 1;
        }
        proof {
            assert(out@ =~= self@);
        }
        out
    }

    /// Remove the record with the given record's identity. Reports
    /// whether one was present.
    pub fn remove_cached_scan(&mut self, scan: &PendingScan) -> (removed: bool)
        requires
            old(self).wf(),
        ensures
            final(self).wf(),
            removed == has_key(old(self)@, scan.tag_id@, scan.created_at as int),
            removed ==> final(self)@ == old(self)@.remove(
                key_index(old(self)@, scan.tag_id@, scan.created_at as int),
            ),
            !removed ==> final(self)@ == old(self)@,
    {
        let ghost s0 = self@;
        match self.find_index(&scan.tag_id, scan.created_at) {
            Some(j) => {
                proof {
                    lemma_key_index_spec(s0, scan.tag_id@, scan.created_at as int);
                }
                self.records.remove(j);
                proof {
                    let t = self@;
                    let ji = j as int;
                    assert forall|i: int| 0 <= i < t.len() implies t[i] == (if i < ji {
                        s0[i]
                    } else {
                        s0[i + 1]
                    }) by {}
                    assert forall|i: int, k: int| 0 <= i < k < t.len() implies t[i].created_at
                        <= t[k].created_at by {}
                    assert forall|i: int, k: int| 0 <= i < k < t.len() implies !scan_key_matches(
                        t[i],
                        t[k].tag_id@,
                        t[k].created_at as int,
                    ) by {}
                }
                true
            },
            None => false,
        }
    }

    /// Rewrite the record with the given record's identity, inserting it
    /// if it is absent.
    pub fn update_cached_scan(&mut self, scan: &PendingScan)
        requires
            old(self).wf(),
        ensures
            final(self).wf(),
            has_key(old(self)@, scan.tag_id@, scan.created_at as int) ==> final(self)@ == old(
                self,
            )@.update(key_index(old(self)@, scan.tag_id@, scan.created_at as int), *scan),
            !has_key(old(self)@, scan.tag_id@, scan.created_at as int) ==> final(self)@ == old(
                self,
            )@.insert(insertion_point(old(self)@, scan.created_at as int), *scan),
            lookup(final(self)@, scan.tag_id@, scan.created_at as int) == Some(*scan),
    {
        self.cache_scan(scan.clone());
    }

    /// Count one delivery attempt against the record with the given
    /// identity, before the attempt is made. Fails without change when
    /// the record is absent or already at the attempt cap.
    pub fn mark_attempt(&mut self, tag: &String, created_at: i64) -> (marked: bool)
        requires
            old(self).wf(),
        ensures
            final(self).wf(),
            ({
                let s0 = old(self)@;
                let k = key_index(s0, tag@, created_at as int);
                if has_key(s0, tag@, created_at as int) && s0[k].attempts < MAX_SEND_ATTEMPTS {
                    marked && final(self)@ == s0.update(
                        k,
                        PendingScan { attempts: (s0[k].attempts + 1) as u8, ..s0[k] },
                    )
                } else {
                    !marked && final(self)@ == s0
                }
            }),
    {
        let ghost s0 = self@;
        match self.find_index(tag, created_at) {
            Some(j) => {
                proof {
                    lemma_key_index_spec(s0, tag@, created_at as int);
                }
                if self.records[j].attempts < MAX_SEND_ATTEMPTS {
                    let updated = PendingScan {
                        attempts: self.records[j].attempts + 1,
                        ..self.records[j].clone()
                    };
                    self.records[j] = updated;
                    proof {
                        let t = self@;
                        let ji = j as int;
                        assert forall|i: int, k: int| 0 <= i < k < t.len() implies t[i].created_at
                            <= t[k].created_at by {}
                        assert forall|i: int, k: int| 0 <= i < k
                            < t.len() implies !scan_key_matches(
                            t[i],
                            t[k].tag_id@,
                            t[k].created_at as int,
                        ) by {}
                    }
                    true
                } else {
                    false
                }
            },
            None => false,
        }
    }
}

/// Name of the file that persists one record: deterministic in the
/// record's identity.
pub fn cache_file_name(tag_id: &str, created_at: i64) -> (r: String)
    ensures
        r@ == "scan_"@ + tag_id@ + "_"@ + int_text(created_at as int) + ".json"@,
{
    let mut name = "scan_".to_owned();
    name.append(tag_id);
    name.append("_");
    let digits = format_i64(created_at);
    name.append(digits.as_str());
    name.append(".json");
    proof {
        assert(name@ =~= "scan_"@ + tag_id@ + "_"@ + int_text(created_at as int) + ".json"@);
    }
    name
}

} // verus!
