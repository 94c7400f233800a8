//! Log naming and log lines.
//!
//! The kiosk writes one application log file per day and one CSV line
//! per tag scan. The runtime owns the files; the shapes of names and
//! lines, the safety rule for a requested log file name, and the
//! cutoff rule for deleting old logs are decided here.

use crate::text::{
    bytes_have_suffix, bytes_less, is_suffix, lemma_lex_less_connex, lemma_lex_less_irreflexive,
    lemma_lex_less_transitive, lex_less,
};
use vstd::multiset::Multiset;
use vstd::prelude::*;
use vstd::string::*;

verus! {

/// One structured log entry, as the UI hands it over. The optional
/// `data` carries the entry's attached JSON as text.
#[derive(Debug)]
pub struct LogEntry {
    pub timestamp: String,
    pub level: String,
    pub source: String,
    pub message: String,
    pub data: Option<String>,
    pub session_id: String,
    pub user_id: Option<String>,
}

/// One CSV line of the tag-scan log: timestamp, tag, user (or
/// `Unknown`), status.
pub fn log_tag_scan(timestamp: &str, tag_id: &str, user_name: Option<&str>, status: &str) -> (r:
    String)
    ensures
        r@ == timestamp@ + ", "@ + tag_id@ + ", "@ + (match user_name {
            Some(u) => u@,
            None => "Unknown"@,
        }) + ", "@ + status@,
{
    let mut line = timestamp.to_owned();
    line.append(", ");
    line.append(tag_id);
    line.append(", ");
    match user_name {
        Some(u) => line.append(u),
        None => line.append("Unknown"),
    }
    line.append(", ");
    line.append(status);
    proof {
        assert(line@ =~= timestamp@ + ", "@ + tag_id@ + ", "@ + (match user_name {
            Some(u) => u@,
            None => "Unknown"@,
        }) + ", "@ + status@);
    }
    line
}

/// Name of the application log file of one day, from its `YYYY-MM-DD`
/// key.
pub fn log_file_name(date_key: &str) -> (r: String)
    ensures
        r@ == "pyre-portal-"@ + date_key@ + ".log"@,
{
    let mut name = "pyre-portal-".to_owned();
    name.append(date_key);
    name.append(".log");
    proof {
        assert(name@ =~= "pyre-portal-"@ + date_key@ + ".log"@);
    }
    name
}

/// Whether a requested log file name may be served: it must be a bare
/// log file name, with no way of leaving the log directory.
pub fn is_safe_log_name(name: &str) -> (r: bool)
    ensures
        r == (is_suffix(name.spec_bytes(), ".log".spec_bytes()) && !name.spec_bytes().contains(
            47u8,
        ) && !name.spec_bytes().contains(92u8)),
{
    let bytes = name.as_bytes();
    let suffix_ok = bytes_have_suffix(bytes, ".log".as_bytes());
    let n = bytes.len();
    let mut i: usize = 0;
    let mut separator = false;
    while i < n
        invariant
            i <= n,
            n == name.spec_bytes().len(),
            bytes@ == name.spec_bytes(),
            separator == (exists|k: int|
                0 <= k < i && (name.spec_bytes()[k] == 47u8 || name.spec_bytes()[k] == 92u8)),
        decreases n - i,
    {
        if bytes[i] == 47 || bytes[i] == 92 {
            separator = true;
        }
        i = i + 1;
    }
    proof {
        if separator {
            assert(name.spec_bytes().contains(47u8) || name.spec_bytes().contains(92u8));
        } else {
            assert(!name.spec_bytes().contains(47u8) && !name.spec_bytes().contains(92u8)) by {
                if name.spec_bytes().contains(47u8) {
                    let k = name.spec_bytes().index_of(47u8);
                    assert(0 <= k < n && name.spec_bytes()[k] == 47u8);
                }
                if name.spec_bytes().contains(92u8) {
                    let k = name.spec_bytes().index_of(92u8);
                    assert(0 <= k < n && name.spec_bytes()[k] == 92u8);
                }
            }
        }
    }
    suffix_ok && !separator
}

/// The bytes of an owned string.
pub open spec fn string_bytes(s: String) -> Seq<u8> {
    vstd::utf8::encode_utf8(s@)
}

/// Whether a directory entry is a log file name.
pub open spec fn is_log_name(n: String) -> bool {
    is_suffix(string_bytes(n), ".log".spec_bytes())
}

/// The log file names among a directory's entries, in their order.
pub open spec fn log_names(s: Seq<String>) -> Seq<String>
    decreases s.len(),
{
    if s.len() == 0 {
        Seq::empty()
    } else if is_log_name(s.last()) {
        log_names(s.drop_last()).push(s.last())
    } else {
        log_names(s.drop_last())
    }
}

/// Newest-first order of log file names; the names embed their day, so
/// byte order is date order.
pub open spec fn sorted_newest_first(s: Seq<String>) -> bool {
    forall|i: int, j: int|
        0 <= i < j < s.len() ==> !lex_less(string_bytes(s[i]), string_bytes(s[j]))
}

/// The log files among a directory's entries, newest first: exactly
/// the names with the log suffix, in descending byte order.
pub fn select_log_files(names: &Vec<String>) -> (r: Vec<String>)
    ensures
        sorted_newest_first(r@),
        r@.to_multiset() == log_names(names@).to_multiset(),
{
    let mut work: Vec<String> = Vec::new();
    let n = names.len();
    let mut i: usize = 0;
    while i < n
        invariant
            i <= n,
            n == names@.len(),
            work@ == log_names(names@.take(i as int)),
        decreases n - i,
    {
        let ghost pre = names@.take(i as int);
        let ghost cur = names@.take(i + 1 as int);
        proof {
            assert(cur.drop_last() =~= pre);
            assert(cur.last() == names@[i as int]);
        }
        let name = &names[i];
        if bytes_have_suffix(name.as_str().as_bytes(), ".log".as_bytes()) {
            work.push(name.clone());
        }
        proof {
            assert(work@ =~= log_names(cur));
        }
        i = i + 1;
    }
    proof {
        assert(names@.take(n as int) =~= names@);
    }
    let ghost filtered = work@;
    let mut out: Vec<String> = Vec::new();
    proof {
        out@.to_multiset_ensures();
        assert(out@.to_multiset().add(work@.to_multiset()) =~= filtered.to_multiset());
    }
    while work.len() > 0
        invariant
            out@.to_multiset().add(work@.to_multiset()) == filtered.to_multiset(),
            sorted_newest_first(out@),
            forall|t: int|
                0 <= t < work@.len() ==> (out@.len() == 0 || !lex_less(
                    string_bytes(out@.last()),
                    string_bytes(work@[t]),
                )),
        decreases work@.len(),
    {
        let m = work.len();
        proof {
            lemma_lex_less_irreflexive(string_bytes(work@[0]));
        }
        let mut best: usize = 0;
        let mut k: usize = 1;
        while k < m
            invariant
                m == work@.len(),
                m > 0,
                best < k,
                k <= m,
                forall|t: int|
                    0 <= t < k ==> !lex_less(
                        string_bytes(work@[best as int]),
                        string_bytes(work@[t]),
                    ),
            decreases m - k,
        {
            if bytes_less(work[best].as_str().as_bytes(), work[k].as_str().as_bytes()) {
                proof {
                    lemma_lex_less_irreflexive(string_bytes(work@[k as int]));
                    assert forall|t: int| 0 <= t < k + 1 implies !lex_less(
                        string_bytes(work@[k as int]),
                        string_bytes(work@[t]),
                    ) by {
                        if t < k && lex_less(
                            string_bytes(work@[k as int]),
                            string_bytes(work@[t]),
                        ) {
                            lemma_lex_less_transitive(
                                string_bytes(work@[best as int]),
                                string_bytes(work@[k as int]),
                                string_bytes(work@[t]),
                            );
                        }
                    }
                }
                best = k;
            }
            k = k + 1;
        }
        let ghost work0 = work@;
        let ghost out0 = out@;
        let picked = work.remove(best);
        out.push(picked);
        proof {
            work0.to_multiset_ensures();
            out0.to_multiset_ensures();
            let picked_now = out@.last();
            assert(work@ == work0.remove(best as int));
            assert(out@ == out0.push(picked_now));
            assert(out@.to_multiset().add(work@.to_multiset()) =~= filtered.to_multiset());
            assert forall|a: int, b: int| 0 <= a < b < out@.len() implies !lex_less(
                string_bytes(out@[a]),
                string_bytes(out@[b]),
            ) by {
                if b == out@.len() - 1 {
                    assert(out@[a] == out0[a]);
                    assert(out@[b] == picked_now);
                    let last = string_bytes(out0[out0.len() - 1]);
                    let cand = string_bytes(out0[a]);
                    let pick = string_bytes(picked_now);
                    assert(!lex_less(last, pick));
                    if lex_less(cand, pick) {
                        lemma_lex_less_connex(cand, last);
                        if cand == last {
                            assert(lex_less(last, pick));
                        } else if lex_less(cand, last) {
                            assert(a < out0.len() - 1 || cand == last) by {
                                if a == out0.len() - 1 {
                                    assert(cand == last);
                                }
                            }
                            assert(!lex_less(cand, last));
                        } else {
                            lemma_lex_less_transitive(last, cand, pick);
                        }
                        assert(false);
                    }
                }
            }
            assert forall|t: int| 0 <= t < work@.len() implies (out@.len() == 0 || !lex_less(
                string_bytes(out@.last()),
                string_bytes(work@[t]),
            )) by {
                if t < best as int {
                    assert(work@[t] == work0[t]);
                } else {
                    assert(work@[t] == work0[t + 1]);
                }
            }
        }
    }
    proof {
        work@.to_multiset_ensures();
        assert(work@.to_multiset().len() == 0);
        assert(work@.to_multiset() =~= Multiset::<String>::empty());
        assert(out@.to_multiset() =~= out@.to_multiset().add(work@.to_multiset()));
    }
    out
}

/// Whether a log file is old enough to delete: it is a log file and
/// its name — which embeds its day — orders strictly before the cutoff
/// day's file name.
pub fn should_delete_log(name: &str, cutoff_name: &str) -> (r: bool)
    ensures
        r == (is_suffix(name.spec_bytes(), ".log".spec_bytes()) && lex_less(
            name.spec_bytes(),
            cutoff_name.spec_bytes(),
        )),
{
    let suffix_ok = bytes_have_suffix(name.as_bytes(), ".log".as_bytes());
    let older = bytes_less(name.as_bytes(), cutoff_name.as_bytes());
    suffix_ok && older
}

} // verus!
