//! The peer directory: which display name each connected endpoint has.
use vstd::prelude::*;

verus! {

/// Identifies one peer connection; the transport layer hands these out.
pub type EndpointId = u64;

/// A binding of an endpoint to a display name, as a spec value.
pub type Binding = (EndpointId, Seq<char>);

/// `s` without the bindings of endpoint `e` or of name `n`.
pub open spec fn drop_peer(s: Seq<Binding>, e: EndpointId, n: Option<Seq<char>>) -> Seq<Binding>
    decreases s.len(),
{
    if s.len() == 0 {
        s
    } else {
        let rest = drop_peer(s.drop_last(), e, n);
        if s.last().0 == e || n == Some(s.last().1) {
            rest
        } else {
            rest.push(s.last())
        }
    }
}

/// The name bound to endpoint `e` (the latest binding if there were several).
pub open spec fn name_at(s: Seq<Binding>, e: EndpointId) -> Option<Seq<char>>
    decreases s.len(),
{
    if s.len() == 0 {
        None
    } else if s.last().0 == e {
        Some(s.last().1)
    } else {
        name_at(s.drop_last(), e)
    }
}

/// No endpoint and no name is bound twice.
pub open spec fn unique_bindings(s: Seq<Binding>) -> bool {
    forall|i: int, j: int|
        0 <= i < s.len() && 0 <= j < s.len() && i != j ==> #[trigger] s[i].0 != #[trigger] s[j].0
            && s[i].1 != s[j].1
}

proof fn lemma_drop_peer_sub(s: Seq<Binding>, e: EndpointId, n: Option<Seq<char>>)
    ensures
        forall|k: int|
            0 <= k < drop_peer(s, e, n).len() ==> s.contains(#[trigger] drop_peer(s, e, n)[k])
                && drop_peer(s, e, n)[k].0 != e && n != Some(drop_peer(s, e, n)[k].1),
        unique_bindings(s) ==> unique_bindings(drop_peer(s, e, n)),
        drop_peer(s, e, n).len() <= s.len(),
    decreases s.len(),
{
    if s.len() > 0 {
        lemma_drop_peer_sub(s.drop_last(), e, n);
        let rest = drop_peer(s.drop_last(), e, n);
        assert forall|k: int| 0 <= k < rest.len() implies s.contains(#[trigger] rest[k]) by {
            let q = choose|q: int| 0 <= q < s.drop_last().len() && s.drop_last()[q] == rest[k];
            assert(s[q] == rest[k]);
        }
        if unique_bindings(s) {
            assert(unique_bindings(s.drop_last())) by {
                assert forall|i: int, j: int|
                    0 <= i < s.drop_last().len() && 0 <= j < s.drop_last().len() && i != j implies #[trigger] s.drop_last()[i].0
                        != #[trigger] s.drop_last()[j].0 && s.drop_last()[i].1 != s.drop_last()[j].1 by {
                    assert(s[i] == s.drop_last()[i] && s[j] == s.drop_last()[j]);
                }
            }
            if !(s.last().0 == e || n == Some(s.last().1)) {
                let d = drop_peer(s, e, n);
                assert forall|i: int, j: int|
                    0 <= i < d.len() && 0 <= j < d.len() && i != j implies #[trigger] d[i].0
                        != #[trigger] d[j].0 && d[i].1 != d[j].1 by {
                    if i < rest.len() && j < rest.len() {
                        assert(d[i] == rest[i] && d[j] == rest[j]);
                    } else if i < rest.len() {
                        let q = choose|q: int| 0 <= q < s.drop_last().len() && s.drop_last()[q] == rest[i];
                        assert(s[q] == d[i]);
                        assert(s[s.len() - 1] == d[j]);
                    } else {
                        let q = choose|q: int| 0 <= q < s.drop_last().len() && s.drop_last()[q] == rest[j];
                        assert(s[q] == d[j]);
                        assert(s[s.len() - 1] == d[i]);
                    }
                }
            }
        }
    }
}

/// Connected peers and their display names, in the order they connected.
pub struct PeerDirectory {
    entries: Vec<(EndpointId, String)>,
}

impl View for PeerDirectory {
    type V = Seq<Binding>;

    closed spec fn view(&self) -> Seq<Binding> {
        self.entries@.map_values(|p: (EndpointId, String)| (p.0, p.1@))
    }
}

impl PeerDirectory {
    /// The directory's invariant.
    pub open spec fn wf(&self) -> bool {
        unique_bindings(self@)
    }

    /// An empty directory.
    pub fn new() -> (r: PeerDirectory)
        ensures
            r@ == Seq::<Binding>::empty(),
            r.wf(),
    {
        let r = PeerDirectory { entries: Vec::new() };
        assert(r@ =~= Seq::<Binding>::empty());
        r
    }

    fn without(&self, e: EndpointId, n: Option<&String>) -> (r: Vec<(EndpointId, String)>)
        ensures
            r@.map_values(|p: (EndpointId, String)| (p.0, p.1@)) == drop_peer(
                self@,
                e,
                match n {
                    Some(s) => Some(s@),
                    None => None,
                },
            ),
    {
        let ghost gn = match n {
            Some(s) => Some(s@),
            None => None::<Seq<char>>,
        };
        let mut out: Vec<(EndpointId, String)> = Vec::new();
        let mut i: usize = 0;
        while i < self.entries.len()
            invariant
                i <= self.entries@.len(),
                gn == match n {
                    Some(s) => Some(s@),
                    None => None::<Seq<char>>,
                },
                out@.map_values(|p: (EndpointId, String)| (p.0, p.1@)) == drop_peer(
                    self@.subrange(0, i as int),
                    e,
                    gn,
                ),
            decreases self.entries@.len() - i,
        {
            let ghost sub = self@.subrange(0, i as int + 1);
            assert(sub.drop_last() =~= self@.subrange(0, i as int));
            assert(sub.last() == self@[i as int]);
            let entry = &self.entries[i];
            let same_name = match n {
                Some(s) => entry.1 == *s,
                None => false,
            };
            if !(entry.0 == e || same_name) {
                let ghost before = out@;
                out.push((entry.0, entry.1.clone()));
                assert(out@.map_values(|p: (EndpointId, String)| (p.0, p.1@)) =~= before.map_values(
                    |p: (EndpointId, String)| (p.0, p.1@),
                ).push(self@[i as int]));
            }
            i = i + 1;
        }
        assert(self@.subrange(0, self@.len() as int) =~= self@);
        out
    }

    /// Binds an endpoint to a name, dropping any earlier binding of either.
    pub fn connect_user(&mut self, endpoint: EndpointId, name: &String)
        requires
            old(self).wf(),
        ensures
            final(self).wf(),
            final(self)@ == drop_peer(old(self)@, endpoint, Some(name@)).push((endpoint, name@)),
    {
        let mut kept = self.without(endpoint, Some(name));
        let ghost d = drop_peer(self@, endpoint, Some(name@));
        proof {
            lemma_drop_peer_sub(self@, endpoint, Some(name@));
        }
        kept.push((endpoint, name.clone()));
        self.entries = kept;
        proof {
            assert(self@ =~= d.push((endpoint, name@)));
            assert forall|i: int, j: int|
                0 <= i < self@.len() && 0 <= j < self@.len() && i != j implies #[trigger] self@[i].0
                    != #[trigger] self@[j].0 && self@[i].1 != self@[j].1 by {
                if i < d.len() && j < d.len() {
                    assert(self@[i] == d[i] && self@[j] == d[j]);
                } else if i < d.len() {
                    assert(self@[i] == d[i]);
                } else {
                    assert(self@[j] == d[j]);
                }
            }
        }
    }

    /// Drops the binding of an endpoint, if it has one.
    pub fn disconnect(&mut self, endpoint: EndpointId)
        requires
            old(self).wf(),
        ensures
            final(self).wf(),
            final(self)@ == drop_peer(old(self)@, endpoint, None),
    {
        proof {
            lemma_drop_peer_sub(self@, endpoint, None);
        }
        self.entries = self.without(endpoint, None);
    }

    /// The name bound to an endpoint.
    pub fn name_of(&self, endpoint: EndpointId) -> (r: Option<String>)
        ensures
            r matches Some(s) ==> name_at(self@, endpoint) == Some(s@),
            r is None ==> name_at(self@, endpoint) is None,
    {
        let mut i: usize = self.entries.len();
        assert(self@.subrange(0, i as int) =~= self@);
        while i > 0
            invariant
                i <= self.entries@.len(),
                name_at(self@, endpoint) == name_at(self@.subrange(0, i as int), endpoint),
            decreases i,
        {
            let ghost sub = self@.subrange(0, i as int);
            assert(sub.drop_last() =~= self@.subrange(0, i - 1));
            if self.entries[i - 1].0 == endpoint {
                return Some(self.entries[i - 1].1.clone());
            }
            i = i - 1;
        }
        None
    }

    /// Every bound endpoint, in the order of binding.
    pub fn all_endpoints(&self) -> (r: Vec<EndpointId>)
        ensures
            r@ == self@.map_values(|p: Binding| p.0),
    {
        let mut out: Vec<EndpointId> = Vec::new();
        let mut i: usize = 0;
        while i < self.entries.len()
            invariant
                i <= self.entries@.len(),
                out@ =~= self@.subrange(0, i as int).map_values(|p: Binding| p.0),
            decreases self.entries@.len() - i,
        {
            out.push(self.entries[i].0);
            i = i + 1;
        }
        assert(self@.subrange(0, self@.len() as int) =~= self@);
        out
    }
}

} // verus!
