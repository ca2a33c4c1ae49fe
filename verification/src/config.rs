//! The per-host configuration a collaborator persists for this core:
//! SSH usernames keyed by peer hostname.
//!
//! The store is an association list with unique keys; reading and
//! writing it is exact, and loading or saving the file it lives in is
//! the collaborator's business.

use vstd::prelude::*;

verus! {

/// Association-list lookup: the value under the first matching key.
pub open spec fn spec_assoc(m: Seq<(String, String)>, key: Seq<char>) -> Option<Seq<char>>
    decreases m.len(),
{
    if m.len() == 0 {
        None
    } else if m[0].0@ == key {
        Some(m[0].1@)
    } else {
        spec_assoc(m.drop_first(), key)
    }
}

/// Filtering an association list with pairwise-distinct keys keeps the
/// keys pairwise distinct, and keeps only entries the list already had.
proof fn lemma_filter_unique_keys(s: Seq<(String, String)>, pred: spec_fn((String, String)) -> bool)
    requires
        forall|i: int, j: int|
            0 <= i < j < s.len() ==> (#[trigger] s[i]).0@ != (#[trigger] s[j]).0@,
    ensures
        forall|i: int, j: int|
            0 <= i < j < s.filter(pred).len() ==> (#[trigger] s.filter(pred)[i]).0@ != (
            #[trigger] s.filter(pred)[j]).0@,
        forall|x: (String, String)| #[trigger] s.filter(pred).contains(x) ==> s.contains(x),
    decreases s.len(),
{
    reveal(Seq::filter);
    if s.len() > 0 {
        let d = s.drop_last();
        let f = s.filter(pred);
        let fd = d.filter(pred);
        lemma_filter_unique_keys(d, pred);
        assert forall|x: (String, String)| #[trigger] f.contains(x) implies s.contains(x) by {
            if pred(s.last()) && x == s.last() {
                assert(s[s.len() - 1] == x);
            } else {
                assert(fd.contains(x));
                let k = choose|k: int| 0 <= k < d.len() && d[k] == x;
                assert(s[k] == x);
            }
        }
        if pred(s.last()) {
            assert(f =~= fd.push(s.last()));
            assert forall|i: int, j: int| 0 <= i < j < f.len() implies (#[trigger] f[i]).0@ != (
            #[trigger] f[j]).0@ by {
                if j == f.len() - 1 {
                    assert(fd.contains(f[i]));
                    let k = choose|k: int| 0 <= k < d.len() && d[k] == f[i];
                    assert(s[k] == f[i] && s[s.len() - 1] == s.last());
                }
            }
        }
    }
}

/// The persisted per-host configuration: SSH usernames keyed by
/// hostname, one entry per host.
#[derive(Debug, Clone)]
pub struct AppConfig {
    pub ssh_usernames: Vec<(String, String)>,
}

impl AppConfig {
    /// One entry per hostname.
    pub open spec fn wf(self) -> bool {
        forall|i: int, j: int|
            0 <= i < j < self.ssh_usernames@.len() ==> (#[trigger] self.ssh_usernames@[i]).0@ != (
            #[trigger] self.ssh_usernames@[j]).0@
    }

    /// An empty configuration.
    pub fn new() -> (r: AppConfig)
        ensures
            r.wf(),
            r.ssh_usernames@.len() == 0,
    {
        AppConfig { ssh_usernames: Vec::new() }
    }

    /// The username configured for a host, if any.
    pub fn ssh_username(&self, host: &str) -> (r: Option<String>)
        ensures
            match r {
                Some(u) => spec_assoc(self.ssh_usernames@, host@) == Some(u@),
                None => spec_assoc(self.ssh_usernames@, host@) is None,
            },
    {
        let m = &self.ssh_usernames;
        let mut i: usize = 0;
        proof {
            assert(m@.skip(0) =~= m@);
        }
        while i < m.len()
            invariant
                i <= m.len(),
                m@ == self.ssh_usernames@,
                spec_assoc(m@, host@) == spec_assoc(m@.skip(i as int), host@),
            decreases m.len() - i,
        {
            proof {
                assert(m@.skip(i as int).drop_first() =~= m@.skip(i + 1));
            }
            if crate::text::str_eq(m[i].0.as_str(), host) {
                proof {
                    assert(m@.skip(i as int)[0] == m@[i as int]);
                    assert(spec_assoc(m@.skip(i as int), host@) == Some(m@[i as int].1@));
                }
                let u = m[i].1.clone();
                assert(u@ == m@[i as int].1@);
                return Some(u);
            }
            i += 1;
        }
        proof {
            assert(m@.skip(m@.len() as int) =~= Seq::<(String, String)>::empty());
        }
        None
    }

    /// Removes the host's entry, if it has one.
    pub fn remove_ssh_username(&mut self, host: &str)
        ensures
            final(self).ssh_usernames@ == old(self).ssh_usernames@.filter(
                |p: (String, String)| p.0@ != host@,
            ),
            old(self).wf() ==> final(self).wf(),
    {
        let ghost orig = self.ssh_usernames@;
        let ghost pred = |p: (String, String)| p.0@ != host@;
        let mut kept: Vec<(String, String)> = Vec::new();
        proof {
            reveal(Seq::filter);
            assert(orig.take(0) =~= Seq::<(String, String)>::empty());
        }
        let mut i: usize = 0;
        while i < self.ssh_usernames.len()
            invariant
                i <= self.ssh_usernames.len(),
                orig == self.ssh_usernames@,
                pred == (|p: (String, String)| p.0@ != host@),
                kept@ == orig.take(i as int).filter(pred),
            decreases self.ssh_usernames.len() - i,
        {
            proof {
                assert(orig.take(i as int).push(orig[i as int]) =~= orig.take(i + 1));
                crate::prefs::lemma_filter_push(orig.take(i as int), pred, orig[i as int]);
            }
            if !crate::text::str_eq(self.ssh_usernames[i].0.as_str(), host) {
                let entry = (self.ssh_usernames[i].0.clone(), self.ssh_usernames[i].1.clone());
                assert(entry == orig[i as int]);
                kept.push(entry);
            }
            i += 1;
        }
        proof {
            assert(orig.take(orig.len() as int) =~= orig);
        }
        self.ssh_usernames = kept;
        proof {
            if old(self).wf() {
                lemma_filter_unique_keys(orig, pred);
            }
        }
    }

    /// Sets the host's username: the previous entry, if any, is
    /// replaced by the one given.
    pub fn set_ssh_username(&mut self, host: String, username: String)
        ensures
            final(self).ssh_usernames@ == old(self).ssh_usernames@.filter(
                |p: (String, String)| p.0@ != host@,
            ).push((host, username)),
            old(self).wf() ==> final(self).wf(),
    {
        let ghost orig = self.ssh_usernames@;
        let ghost pred = |p: (String, String)| p.0@ != host@;
        self.remove_ssh_username(host.as_str());
        let ghost stripped = self.ssh_usernames@;
        self.ssh_usernames.push((host, username));
        proof {
            if old(self).wf() {
                lemma_filter_unique_keys(orig, pred);
                broadcast use vstd::seq_lib::group_filter_ensures;

                assert forall|a: int, b: int|
                    0 <= a < b < self.ssh_usernames@.len() implies (
                #[trigger] self.ssh_usernames@[a]).0@ != (#[trigger] self.ssh_usernames@[b]).0@ by {
                    if b == self.ssh_usernames@.len() - 1 {
                        // every surviving entry's key differs from the
                        // new entry's key by the filter's own test
                        assert(pred(orig.filter(pred)[a]));
                    }
                }
            }
        }
    }
}

} // verus!
