//! The requests that wait for their responses, each under its correlation
//! id. A response is handed to the waiter registered under its correlation
//! id, at most once; a request that gives up withdraws its registration.
use vstd::prelude::*;

verus! {

/// The map that a sequence of entries with distinct keys stands for.
pub open spec fn entries_view<W>(s: Seq<(String, W)>) -> Map<Seq<char>, W>
    decreases s.len(),
{
    if s.len() == 0 {
        Map::empty()
    } else {
        entries_view(s.drop_last()).insert(s.last().0@, s.last().1)
    }
}

/// No two entries share a key.
pub open spec fn distinct_keys<W>(s: Seq<(String, W)>) -> bool {
    forall|i: int, j: int|
        0 <= i < s.len() && 0 <= j < s.len() && i != j ==> s[i].0@ != s[j].0@
}

/// The keys of the view are the keys of the entries, and with distinct
/// keys each maps to its entry's value.
pub proof fn lemma_entries_view_index<W>(s: Seq<(String, W)>, k: Seq<char>)
    requires
        distinct_keys(s),
    ensures
        entries_view(s).contains_key(k) <==> exists|i: int| 0 <= i < s.len() && s[i].0@ == k,
        forall|i: int| 0 <= i < s.len() && s[i].0@ == k ==> entries_view(s)[k] == s[i].1,
    decreases s.len(),
{
    if s.len() > 0 {
        let t = s.drop_last();
        assert(distinct_keys(t));
        lemma_entries_view_index(t, k);
        if entries_view(s).contains_key(k) && k != s.last().0@ {
            let i = choose|i: int| 0 <= i < t.len() && t[i].0@ == k;
            assert(s[i].0@ == k);
        }
        if exists|i: int| 0 <= i < s.len() && s[i].0@ == k {
            let i = choose|i: int| 0 <= i < s.len() && s[i].0@ == k;
            if i < s.len() - 1 {
                assert(t[i].0@ == k);
            }
        }
        assert forall|i: int| 0 <= i < s.len() && s[i].0@ == k implies entries_view(s)[k] == s[i].1 by {
            if i < s.len() - 1 {
                assert(t[i] == s[i]);
            }
        }
    }
}

/// Taking out one entry takes its key out of the view.
pub proof fn lemma_entries_view_remove<W>(s: Seq<(String, W)>, i: int)
    requires
        distinct_keys(s),
        0 <= i < s.len(),
    ensures
        entries_view(s.remove(i)) == entries_view(s).remove(s[i].0@),
        distinct_keys(s.remove(i)),
    decreases s.len(),
{
    let t = s.drop_last();
    assert(distinct_keys(t));
    if i == s.len() - 1 {
        assert(s.remove(i) =~= t);
        lemma_entries_view_index(t, s[i].0@);
        assert(entries_view(s).remove(s[i].0@) =~= entries_view(t));
    } else {
        lemma_entries_view_remove(t, i);
        assert(s.remove(i) =~= t.remove(i).push(s.last()));
        assert(s.remove(i).drop_last() =~= t.remove(i));
        assert(s[i].0@ != s.last().0@);
        assert(entries_view(s.remove(i)) =~= entries_view(s).remove(s[i].0@));
    }
}

/// Appending an entry under a new key keeps the keys distinct.
pub proof fn lemma_push_distinct<W>(s: Seq<(String, W)>, e: (String, W))
    requires
        distinct_keys(s),
        !entries_view(s).contains_key(e.0@),
    ensures
        distinct_keys(s.push(e)),
        entries_view(s.push(e)) == entries_view(s).insert(e.0@, e.1),
{
    lemma_entries_view_index(s, e.0@);
    assert(s.push(e).drop_last() =~= s);
    assert forall|i: int, j: int|
        0 <= i < s.push(e).len() && 0 <= j < s.push(e).len() && i != j
        implies s.push(e)[i].0@ != s.push(e)[j].0@ by {
        if i < s.len() && j < s.len() {
            assert(s.push(e)[i] == s[i] && s.push(e)[j] == s[j]);
        } else if i < s.len() {
            assert(s.push(e)[i] == s[i]);
        } else if j < s.len() {
            assert(s.push(e)[j] == s[j]);
        }
    }
}

/// Where a response with this correlation id (if it has one) goes.
#[derive(Debug)]
pub enum Routing<W> {
    /// The response carries no correlation id.
    NoCorrelationId,
    /// No request waits under the response's correlation id.
    Unmatched,
    /// The waiter of the request, now taken out of the table.
    Matched(W),
}

/// The table after registering `waiter` under `id`, and the waiter it displaces.
pub open spec fn spec_register<W>(m: Map<Seq<char>, W>, id: Seq<char>, waiter: W) -> (Map<Seq<char>, W>, Option<W>) {
    (m.insert(id, waiter), m.get(id))
}

/// The table after withdrawing the registration under `id`, and its waiter.
pub open spec fn spec_withdraw<W>(m: Map<Seq<char>, W>, id: Seq<char>) -> (Map<Seq<char>, W>, Option<W>) {
    (m.remove(id), m.get(id))
}

/// The table after a response with correlation id `id` arrives, and where it goes.
pub open spec fn spec_route<W>(m: Map<Seq<char>, W>, id: Option<Seq<char>>) -> (Map<Seq<char>, W>, Routing<W>) {
    match id {
        None => (m, Routing::NoCorrelationId),
        Some(k) => if m.contains_key(k) {
            (m.remove(k), Routing::Matched(m[k]))
        } else {
            (m, Routing::Unmatched)
        },
    }
}

pub open spec fn opt_str_view(id: Option<&str>) -> Option<Seq<char>> {
    match id {
        Some(s) => Some(s@),
        None => None,
    }
}

/// The requests waiting for responses, by correlation id.
pub struct PendingResponses<W> {
    entries: Vec<(String, W)>,
}

impl<W> View for PendingResponses<W> {
    type V = Map<Seq<char>, W>;

    closed spec fn view(&self) -> Map<Seq<char>, W> {
        entries_view(self.entries@)
    }
}

impl<W> PendingResponses<W> {
    #[verifier::type_invariant]
    closed spec fn keys_distinct(&self) -> bool {
        distinct_keys(self.entries@)
    }

    /// An empty table.
    pub fn new() -> (res: PendingResponses<W>)
        ensures
            res@ == Map::<Seq<char>, W>::empty(),
    {
        PendingResponses { entries: Vec::new() }
    }

    /// The position of the entry under `id`, if any.
    fn find(&self, id: &str) -> (res: Option<usize>)
        ensures
            match res {
                Some(i) => i < self.entries@.len() && self.entries@[i as int].0@ == id@,
                None => !self@.contains_key(id@),
            },
    {
        proof {
            use_type_invariant(self);
            lemma_entries_view_index(self.entries@, id@);
        }
        let key = id.to_owned();
        let mut i: usize = 0;
        while i < self.entries.len()
            invariant
                i <= self.entries@.len(),
                key@ == id@,
                forall|j: int| 0 <= j < i ==> self.entries@[j].0@ != id@,
            decreases self.entries@.len() - i,
        {
            if self.entries[i].0 == key {
                return Some(i);
            }
            i = i + 1;
        }
        None
    }

    /// Whether a request waits under `id`.
    pub fn contains(&self, id: &str) -> (res: bool)
        ensures
            res == self@.contains_key(id@),
    {
        proof {
            use_type_invariant(self);
            lemma_entries_view_index(self.entries@, id@);
        }
        match self.find(id) {
            Some(_) => true,
            None => false,
        }
    }

    /// Takes the entry under `id` out of the table, if there is one.
    fn take(&mut self, id: &str) -> (res: Option<W>)
        ensures
            final(self)@ == old(self)@.remove(id@),
            res == old(self)@.get(id@),
    {
        proof {
            use_type_invariant(&*self);
            lemma_entries_view_index(self.entries@, id@);
        }
        match self.find(id) {
            None => {
                assert(self@.remove(id@) =~= self@);
                None
            },
            Some(i) => {
                let mut entries: Vec<(String, W)> = Vec::new();
                std::mem::swap(&mut entries, &mut self.entries);
                let ghost before = entries@;
                let (_, waiter) = entries.remove(i);
                proof {
                    lemma_entries_view_remove(before, i as int);
                }
                self.entries = entries;
                Some(waiter)
            },
        }
    }

    /// Registers `waiter` under `id`; a waiter already there is displaced
    /// and handed back.
    pub fn register(&mut self, id: &str, waiter: W) -> (displaced: Option<W>)
        ensures
            (final(self)@, displaced) == spec_register(old(self)@, id@, waiter),
    {
        let displaced = self.take(id);
        proof {
            use_type_invariant(&*self);
        }
        let mut entries: Vec<(String, W)> = Vec::new();
        std::mem::swap(&mut entries, &mut self.entries);
        let ghost before = entries@;
        let entry = (id.to_owned(), waiter);
        let ghost e = entry;
        entries.push(entry);
        proof {
            lemma_push_distinct(before, e);
        }
        self.entries = entries;
        assert(self@ =~= old(self)@.insert(id@, waiter));
        displaced
    }

    /// Withdraws the registration under `id`, handing back its waiter if
    /// there was one.
    pub fn withdraw(&mut self, id: &str) -> (res: Option<W>)
        ensures
            (final(self)@, res) == spec_withdraw(old(self)@, id@),
    {
        self.take(id)
    }

    /// Routes a response with correlation id `id` (if it has one): to the
    /// waiter registered under it, which leaves the table.
    pub fn route(&mut self, id: Option<&str>) -> (res: Routing<W>)
        ensures
            (final(self)@, res) == spec_route(old(self)@, opt_str_view(id)),
    {
        match id {
            None => Routing::NoCorrelationId,
            Some(k) => match self.take(k) {
                Some(waiter) => Routing::Matched(waiter),
                None => Routing::Unmatched,
            },
        }
    }
}

/// A response that carries the correlation id of a registered request is
/// handed to that request's waiter, and the registration is gone afterwards.
pub proof fn law_response_reaches_its_waiter<W>(m: Map<Seq<char>, W>, id: Seq<char>, waiter: W)
    ensures
        ({
            let registered = spec_register(m, id, waiter).0;
            spec_route(registered, Some(id)) == (m.remove(id), Routing::Matched(waiter))
        }),
{
    assert(m.insert(id, waiter).remove(id) =~= m.remove(id));
}

/// A request receives at most one response: once a response has been
/// routed to it, a second one with the same correlation id is unmatched.
pub proof fn law_at_most_one_response<W>(m: Map<Seq<char>, W>, id: Seq<char>)
    requires
        m.contains_key(id),
    ensures
        ({
            let after = spec_route(m, Some(id)).0;
            spec_route(after, Some(id)) == (after, Routing::<W>::Unmatched)
        }),
{
}

/// Withdrawing a registration after its response has arrived changes
/// nothing and hands back no waiter.
pub proof fn law_withdraw_after_response<W>(m: Map<Seq<char>, W>, id: Seq<char>)
    requires
        m.contains_key(id),
    ensures
        ({
            let after = spec_route(m, Some(id)).0;
            spec_withdraw(after, id) == (after, None::<W>)
        }),
{
    assert(m.remove(id).remove(id) =~= m.remove(id));
}

/// A request that registers and then withdraws leaves the table as it found
/// it, but for its own correlation id, and gets its waiter back.
pub proof fn law_register_then_withdraw<W>(m: Map<Seq<char>, W>, id: Seq<char>, waiter: W)
    ensures
        spec_withdraw(spec_register(m, id, waiter).0, id) == (m.remove(id), Some(waiter)),
        !m.contains_key(id) ==> spec_withdraw(spec_register(m, id, waiter).0, id).0 == m,
{
    assert(m.insert(id, waiter).remove(id) =~= m.remove(id));
    if !m.contains_key(id) {
        assert(m.remove(id) =~= m);
    }
}

/// Responses and withdrawals under other correlation ids leave a
/// registration in place.
pub proof fn law_other_ids_leave_registration<W>(m: Map<Seq<char>, W>, id: Seq<char>, other: Seq<char>)
    requires
        m.contains_key(id),
        other != id,
    ensures
        spec_route(m, Some(other)).0.contains_key(id),
        spec_route(m, Some(other)).0[id] == m[id],
        spec_withdraw(m, other).0.contains_key(id),
        spec_withdraw(m, other).0[id] == m[id],
{
}

/// A response without a correlation id reaches no one and changes nothing.
pub proof fn law_unlabelled_response_ignored<W>(m: Map<Seq<char>, W>)
    ensures
        spec_route(m, None) == (m, Routing::<W>::NoCorrelationId),
{
}

/// Registering twice under one correlation id displaces the first waiter:
/// the response goes to the second.
pub proof fn law_second_registration_displaces_first<W>(m: Map<Seq<char>, W>, id: Seq<char>, first: W, second: W)
    ensures
        ({
            let once = spec_register(m, id, first).0;
            let twice = spec_register(once, id, second);
            &&& twice.1 == Some(first)
            &&& spec_route(twice.0, Some(id)).1 == Routing::Matched(second)
        }),
{
}

} // verus!
