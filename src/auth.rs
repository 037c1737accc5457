use vstd::prelude::*;
use vstd::string::StringExecFns;

verus! {

/// What a caller may supply as authentication for one call.
///
/// Only `username` together with `password` is acted on. `token` and
/// `use_docker_config` are accepted for compatibility and treated as absent.
#[derive(Debug, Clone, Default)]
pub struct AuthOptions {
    pub username: Option<String>,
    pub password: Option<String>,
    pub token: Option<String>,
    pub use_docker_config: Option<bool>,
}

/// The credential that is presented to a registry.
#[derive(Debug, Clone, PartialEq, Eq)]
pub enum Credential {
    Anonymous,
    Basic(String, String),
}

/// The credential that the supplied options stand for.
pub open spec fn supplied_credential(auth: Option<AuthOptions>) -> Credential {
    match auth {
        Some(o) => match (o.username, o.password) {
            (Some(u), Some(p)) => Credential::Basic(u, p),
            _ => Credential::Anonymous,
        },
        None => Credential::Anonymous,
    }
}

/// Turns the options of one call into a credential: Basic when both a
/// username and a password are given, Anonymous otherwise.
pub fn get_auth(auth: Option<AuthOptions>) -> (r: Credential)
    ensures
        r == supplied_credential(auth),
{
    match auth {
        Some(opts) => match (opts.username, opts.password) {
            (Some(u), Some(p)) => Credential::Basic(u, p),
            _ => Credential::Anonymous,
        },
        None => Credential::Anonymous,
    }
}

impl Credential {
    pub fn is_basic(&self) -> (r: bool)
        ensures
            r == (*self is Basic),
    {
        match self {
            Credential::Basic(_, _) => true,
            Credential::Anonymous => false,
        }
    }

    /// A copy of the credential.
    pub fn duplicate(&self) -> (r: Credential)
        ensures
            r == *self,
    {
        match self {
            Credential::Anonymous => Credential::Anonymous,
            Credential::Basic(u, p) => Credential::Basic(u.clone(), p.clone()),
        }
    }
}

/// Credentials remembered per registry host, at most one entry per host.
#[derive(Debug)]
pub struct CredentialCache {
    entries: Vec<(String, Credential)>,
}

impl CredentialCache {
    pub closed spec fn wf(&self) -> bool {
        forall|i: int, j: int|
            0 <= i < j < self.entries@.len() ==> (#[trigger] self.entries@[i]).0@
                != (#[trigger] self.entries@[j]).0@
    }

    /// The hosts that hold an entry.
    pub closed spec fn hosts(&self) -> Set<Seq<char>> {
        Set::new(|h: Seq<char>| exists|i: int| 0 <= i < self.entries@.len() && #[trigger] self.entries@[i].0@ == h)
    }

    /// The number of entries held.
    pub closed spec fn entry_count(&self) -> nat {
        self.entries@.len()
    }

    /// The credential remembered for `host`, if any.
    pub closed spec fn lookup(&self, host: Seq<char>) -> Option<Credential> {
        if self.hosts().contains(host) {
            let i = choose|i: int| 0 <= i < self.entries@.len() && #[trigger] self.entries@[i].0@ == host;
            Some(self.entries@[i].1)
        } else {
            None
        }
    }

    /// What one resolution for `host` with `supplied` does: `next` is the cache
    /// afterwards and `r` the credential handed out.
    pub open spec fn resolves(
        prev: CredentialCache,
        next: CredentialCache,
        host: Seq<char>,
        supplied: Credential,
        r: Credential,
    ) -> bool {
        &&& next.wf()
        &&& r == (if supplied is Basic {
            supplied
        } else {
            match prev.lookup(host) {
                Some(c) => c,
                None => Credential::Anonymous,
            }
        })
        &&& next.lookup(host) == Some(r)
        &&& forall|h: Seq<char>| h != host ==> #[trigger] next.lookup(h) == prev.lookup(h)
        &&& next.hosts() == prev.hosts().insert(host)
        &&& next.entry_count() == prev.entry_count() + (if prev.hosts().contains(host) {
            0nat
        } else {
            1nat
        })
    }

    pub fn new() -> (r: CredentialCache)
        ensures
            r.wf(),
            r.hosts() == Set::<Seq<char>>::empty(),
            r.entry_count() == 0,
            forall|h: Seq<char>| #[trigger] r.lookup(h) == None::<Credential>,
    {
        let r = CredentialCache { entries: Vec::new() };
        assert(r.hosts() =~= Set::<Seq<char>>::empty());
        r
    }

    /// The number of hosts that hold an entry.
    pub fn len(&self) -> (r: usize)
        ensures
            r == self.entry_count(),
    {
        self.entries.len()
    }

    fn position(&self, host: &str) -> (r: Option<usize>)
        ensures
            match r {
                Some(i) => i < self.entries@.len() && self.entries@[i as int].0@ == host@,
                None => forall|i: int| 0 <= i < self.entries@.len() ==> #[trigger] self.entries@[i].0@ != host@,
            },
    {
        let key = String::from_str(host);
        let mut i: usize = 0;
        while i < self.entries.len()
            invariant
                i <= self.entries@.len(),
                key@ == host@,
                forall|k: int| 0 <= k < i ==> #[trigger] self.entries@[k].0@ != host@,
            decreases self.entries@.len() - i,
        {
            if self.entries[i].0.eq(&key) {
                return Some(i);
            }
            i = i + 1;
        }
        None
    }

    /// The credential remembered for `host`, if any.
    pub fn get(&self, host: &str) -> (r: Option<Credential>)
        requires
            self.wf(),
        ensures
            r == self.lookup(host@),
    {
        match self.position(host) {
            Some(i) => {
                assert(self.hosts().contains(host@));
                Some(self.entries[i].1.duplicate())
            },
            None => None,
        }
    }

    /// Resolves the credential for one call against `host`. Supplied Basic
    /// credentials are used and remembered for the host, replacing what was
    /// there. Otherwise the remembered credential is used, or Anonymous when
    /// there is none, which is then remembered.
    pub fn resolve(&mut self, host: &str, supplied: Option<AuthOptions>) -> (r: Credential)
        requires
            old(self).wf(),
        ensures
            Self::resolves(*old(self), *final(self), host@, supplied_credential(supplied), r),
    {
        let given = get_auth(supplied);
        let ghost prev = *self;
        match self.position(host) {
            Some(i) => {
                assert(prev.hosts().contains(host@));
                let r = if given.is_basic() {
                    given
                } else {
                    self.entries[i].1.duplicate()
                };
                let key = self.entries[i].0.clone();
                self.entries.set(i, (key, r.duplicate()));
                proof {
                    assert forall|h: Seq<char>| #[trigger] self.hosts().contains(h) <==> prev.hosts().insert(host@).contains(h) by {
                        if prev.hosts().contains(h) {
                            let k = choose|k: int| 0 <= k < prev.entries@.len() && #[trigger] prev.entries@[k].0@ == h;
                            assert(self.entries@[k].0@ == h);
                        }
                        if self.hosts().contains(h) {
                            let k = choose|k: int| 0 <= k < self.entries@.len() && #[trigger] self.entries@[k].0@ == h;
                            assert(prev.entries@[k].0@ == h);
                        }
                    }
                    assert(self.hosts() =~= prev.hosts().insert(host@));
                    assert(self.hosts().contains(host@));
                    assert forall|h: Seq<char>| h != host@ implies #[trigger] self.lookup(h) == prev.lookup(h) by {
                        if self.hosts().contains(h) {
                            let k = choose|k: int| 0 <= k < self.entries@.len() && #[trigger] self.entries@[k].0@ == h;
                            let k2 = choose|k: int| 0 <= k < prev.entries@.len() && #[trigger] prev.entries@[k].0@ == h;
                            assert(prev.entries@[k].0@ == h);
                            assert(k != i);
                            assert(k2 == k);
                        }
                    }
                }
                r
            },
            None => {
                let r = if given.is_basic() {
                    given
                } else {
                    Credential::Anonymous
                };
                self.entries.push((String::from_str(host), r.duplicate()));
                proof {
                    let n = prev.entries@.len() as int;
                    assert(self.entries@[n].0@ == host@);
                    assert forall|h: Seq<char>| #[trigger] self.hosts().contains(h) <==> prev.hosts().insert(host@).contains(h) by {
                        if prev.hosts().contains(h) {
                            let k = choose|k: int| 0 <= k < prev.entries@.len() && #[trigger] prev.entries@[k].0@ == h;
                            assert(self.entries@[k].0@ == h);
                        }
                        if self.hosts().contains(h) && h != host@ {
                            let k = choose|k: int| 0 <= k < self.entries@.len() && #[trigger] self.entries@[k].0@ == h;
                            assert(prev.entries@[k].0@ == h);
                        }
                    }
                    assert(self.hosts() =~= prev.hosts().insert(host@));
                    assert(!prev.hosts().contains(host@));
                    assert forall|h: Seq<char>| h != host@ implies #[trigger] self.lookup(h) == prev.lookup(h) by {
                        if self.hosts().contains(h) {
                            let k = choose|k: int| 0 <= k < self.entries@.len() && #[trigger] self.entries@[k].0@ == h;
                            let k2 = choose|k: int| 0 <= k < prev.entries@.len() && #[trigger] prev.entries@[k].0@ == h;
                            assert(k != n);
                            assert(prev.entries@[k].0@ == h);
                            assert(k2 == k);
                        }
                    }
                    let k = choose|k: int| 0 <= k < self.entries@.len() && #[trigger] self.entries@[k].0@ == host@;
                    assert(k == n);
                }
                r
            },
        }
    }
}

/// Credentials are remembered per host, not per call: after two resolutions,
/// whether for the same host or for two hosts, the cache holds exactly the
/// hosts it held before and the hosts resolved, one entry each.
pub proof fn lemma_one_entry_per_host(
    c0: CredentialCache,
    c1: CredentialCache,
    c2: CredentialCache,
    h1: Seq<char>,
    h2: Seq<char>,
    s1: Credential,
    s2: Credential,
    r1: Credential,
    r2: Credential,
)
    requires
        CredentialCache::resolves(c0, c1, h1, s1, r1),
        CredentialCache::resolves(c1, c2, h2, s2, r2),
    ensures
        c2.hosts() == c0.hosts().insert(h1).insert(h2),
        c2.entry_count() == c0.entry_count() + (if c0.hosts().contains(h1) {
            0nat
        } else {
            1nat
        }) + (if c0.hosts().contains(h2) || h2 == h1 {
            0nat
        } else {
            1nat
        }),
        c2.lookup(h2) == Some(r2),
        h1 != h2 ==> c2.lookup(h1) == Some(r1),
{
    assert(c1.hosts().contains(h2) <==> (c0.hosts().contains(h2) || h2 == h1));
}

} // verus!
