//! Daily cache of student presence, keyed by tag.
//!
//! The cache is valid for one calendar day: its file is named after the
//! day it was created, and a cache read on a later day is discarded.
//! The runtime does the reading and writing; the naming, the validity
//! rule, the staleness rule for old files, and the statistics are
//! decided here.

use crate::text::{bytes_have_prefix, bytes_have_suffix, is_prefix, is_suffix};
use vstd::prelude::*;
use vstd::string::*;

verus! {

/// One student's presence, as last seen by the remote service.
#[derive(Debug)]
pub struct CachedStudent {
    pub id: i32,
    pub name: String,
    /// `"checked_in"` or `"checked_out"`.
    pub status: String,
    /// ISO timestamp of the last observation.
    pub last_seen: String,
    pub room: Option<String>,
    pub activity: Option<String>,
    /// ISO timestamp at which the entry was cached.
    pub cached_at: String,
}

/// Bookkeeping of one day's cache.
#[derive(Debug)]
pub struct CacheMetadata {
    /// ISO timestamp of the last synchronization.
    pub last_sync: String,
    /// Layout version; only version 1 is valid.
    pub version: i32,
    /// The day the cache was created, as `YYYY-MM-DD`.
    pub date_created: String,
}

/// One day's cache: students by tag, and its bookkeeping.
#[derive(Debug)]
pub struct StudentCacheData {
    /// Students keyed by their tag; no tag occurs twice.
    pub students: Vec<(String, CachedStudent)>,
    pub metadata: CacheMetadata,
}

impl StudentCacheData {
    /// Well-formedness: no two entries share a tag.
    pub open spec fn wf(&self) -> bool {
        forall|i: int, j: int|
            0 <= i < j < self.students@.len() ==> self.students@[i].0@ != self.students@[j].0@
    }
}

/// The `YYYY-MM-DD` key of the calendar day that contains the given
/// Unix second.
pub uninterp spec fn ymd_key(secs: int) -> Seq<char>;

/// Relies on chrono's `DateTime::from_timestamp` and its `%Y-%m-%d`
/// formatting: the calendar date is a function of the seconds alone,
/// and formats as a four-digit year, a two-digit month and a two-digit
/// day separated by dashes.
#[verifier::external_body]
pub fn date_key_of(secs: i64) -> (r: String)
    requires
        0 <= secs <= 253402300799,
    ensures
        r@ == ymd_key(secs as int),
        r@.len() == 10,
{
    let moment = chrono::DateTime::<chrono::Utc>::from_timestamp(secs, 0).unwrap();
    moment.format("%Y-%m-%d").to_string()
}

/// Name of the cache file for the day that contains the given moment.
pub fn get_cache_filename(now_secs: i64) -> (r: String)
    requires
        0 <= now_secs <= 253402300799,
    ensures
        r@ == "student_cache_"@ + ymd_key(now_secs as int) + ".json"@,
{
    let mut name = "student_cache_".to_owned();
    let key = date_key_of(now_secs);
    name.append(key.as_str());
    name.append(".json");
    proof {
        assert(name@ =~= "student_cache_"@ + ymd_key(now_secs as int) + ".json"@);
    }
    name
}

/// Whether a cache read back from disk may be used at the given
/// moment: it must be of today and of the supported version.
pub fn is_cache_valid(cache: &StudentCacheData, now_secs: i64) -> (r: bool)
    requires
        0 <= now_secs <= 253402300799,
    ensures
        r == (cache.metadata.date_created@ == ymd_key(now_secs as int) && cache.metadata.version
            == 1),
{
    let today = date_key_of(now_secs);
    cache.metadata.date_created == today && cache.metadata.version == 1
}

/// Whether a file in the cache directory is an out-of-date day cache:
/// named like a day cache, but not named after the given moment's day.
pub fn is_stale_cache_file(name: &str, now_secs: i64) -> (r: bool)
    requires
        0 <= now_secs <= 253402300799,
    ensures
        r == (is_prefix(name.spec_bytes(), "student_cache_".spec_bytes()) && is_suffix(
            name.spec_bytes(),
            ".json".spec_bytes(),
        ) && name@ != "student_cache_"@ + ymd_key(now_secs as int) + ".json"@),
{
    let prefix_ok = bytes_have_prefix(name.as_bytes(), "student_cache_".as_bytes());
    let suffix_ok = bytes_have_suffix(name.as_bytes(), ".json".as_bytes());
    let todays = get_cache_filename(now_secs);
    let same_day = name.to_owned() == todays;
    prefix_ok && suffix_ok && !same_day
}

/// Number of entries whose status is the given one, among the first
/// `n` entries.
pub open spec fn count_with_status(
    s: Seq<(String, CachedStudent)>,
    status: Seq<char>,
) -> int
    decreases s.len(),
{
    if s.len() == 0 {
        0
    } else {
        count_with_status(s.drop_last(), status) + (if s.last().1.status@ == status {
            1int
        } else {
            0int
        })
    }
}

/// Totals of one day's cache: all entries, those checked in, those
/// checked out.
pub fn cache_stats(data: &StudentCacheData) -> (r: (usize, usize, usize))
    ensures
        r.0 == data.students@.len(),
        r.1 == count_with_status(data.students@, "checked_in"@),
        r.2 == count_with_status(data.students@, "checked_out"@),
{
    let checked_in = "checked_in".to_owned();
    let checked_out = "checked_out".to_owned();
    let n = data.students.len();
    let mut in_count: usize = 0;
    let mut out_count: usize = 0;
    let mut i: usize = 0;
    while i < n
        invariant
            i <= n,
            n == data.students@.len(),
            checked_in@ == "checked_in"@,
            checked_out@ == "checked_out"@,
            in_count <= i,
            out_count <= i,
            in_count == count_with_status(data.students@.take(i as int), "checked_in"@),
            out_count == count_with_status(data.students@.take(i as int), "checked_out"@),
        decreases n - i,
    {
        let entry = &data.students[i];
        if entry.1.status == checked_in {
            in_count = in_count + 1;
        }
        if entry.1.status == checked_out {
            out_count = out_count + 1;
        }
        proof {
            let pre = data.students@.take(i as int);
            let cur = data.students@.take(i + 1 as int);
            assert(cur.drop_last() =~= pre);
            assert(cur.last() == data.students@[i as int]);
        }
        i = i + 1;
    }
    proof {
        assert(data.students@.take(n as int) =~= data.students@);
    }
    (n, in_count, out_count)
}

/// Stamp the cache with the moment it was synchronized, leaving
/// everything else unchanged.
pub fn touch_sync(data: &mut StudentCacheData, sync_time: String)
    ensures
        final(data).metadata.last_sync == sync_time,
        final(data).metadata.version == old(data).metadata.version,
        final(data).metadata.date_created == old(data).metadata.date_created,
        final(data).students == old(data).students,
{
    data.metadata.last_sync = sync_time;
}

} // verus!
