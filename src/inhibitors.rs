//! Registry of screensaver inhibitors, as served on the bus under
//! `org.freedesktop.ScreenSaver`.

use vstd::prelude::*;

verus! {

/// One active inhibition lease.
pub struct Inhibitor {
    pub cookie: u32,
    pub application_name: String,
    pub reason_for_inhibit: String,
    /// Unique bus name of the client that asked for it.
    pub client: String,
}

/// The aggregate signal to emit when the number of live inhibitors goes from
/// `before` to `after`: `Some(now_inhibited)` exactly when the registry turns
/// from empty to non-empty or back, `None` otherwise.
pub open spec fn aggregate_signal(before: nat, after: nat) -> Option<bool> {
    if (before == 0) != (after == 0) {
        Some(after > 0)
    } else {
        None
    }
}

/// Whether `client` owns none of the inhibitor `i`.
pub open spec fn not_owned_by(client: Seq<char>) -> spec_fn(Inhibitor) -> bool {
    |i: Inhibitor| i.client@ != client
}

/// All inhibitors of `s` that the client named `client` does not own, in order.
pub open spec fn without_client(s: Seq<Inhibitor>, client: Seq<char>) -> Seq<Inhibitor> {
    s.filter(not_owned_by(client))
}

/// The live inhibitors and the last cookie handed out.
pub struct Screensaver {
    pub inhibitors: Vec<Inhibitor>,
    pub last_cookie: u32,
}

impl Screensaver {
    /// Cookies are unique among the live inhibitors, and none is above the
    /// last cookie handed out (so the next one is fresh).
    pub open spec fn wf(&self) -> bool {
        &&& forall|i: int|
            0 <= i < self.inhibitors@.len() ==> 1 <= #[trigger] self.inhibitors@[i].cookie
                <= self.last_cookie
        &&& forall|i: int, j: int|
            0 <= i < self.inhibitors@.len() && 0 <= j < self.inhibitors@.len() && i != j
                ==> #[trigger] self.inhibitors@[i].cookie != #[trigger] self.inhibitors@[j].cookie
    }

    /// Whether some live inhibitor has the cookie `cookie`.
    pub open spec fn has_cookie(&self, cookie: u32) -> bool {
        exists|i: int| 0 <= i < self.inhibitors@.len() && #[trigger] self.inhibitors@[i].cookie == cookie
    }

    /// An empty registry that has handed out no cookie yet.
    pub fn new() -> (r: Screensaver)
        ensures
            r.wf(),
            r.inhibitors@.len() == 0,
            r.last_cookie == 0,
    {
        Screensaver { inhibitors: Vec::new(), last_cookie: 0 }
    }

    /// Whether at least one inhibitor is live.
    pub fn is_inhibited(&self) -> (r: bool)
        ensures
            r == (self.inhibitors@.len() > 0),
    {
        self.inhibitors.len() > 0
    }

    /// Whether every cookie has been handed out, so that no further inhibit
    /// call can be served.
    pub fn cookies_exhausted(&self) -> (r: bool)
        ensures
            r == (self.last_cookie == u32::MAX),
    {
        self.last_cookie == u32::MAX
    }

    /// Handles an `Inhibit` call from the bus client `sender`. The call gets
    /// the next cookie; a lease is recorded only where the sender is known.
    /// Returns the cookie and the aggregate signal to emit, if any.
    pub fn inhibit(
        &mut self,
        application_name: String,
        reason_for_inhibit: String,
        sender: Option<String>,
    ) -> (r: (u32, Option<bool>))
        requires
            old(self).wf(),
            old(self).last_cookie < u32::MAX,
        ensures
            final(self).wf(),
            r.0 == old(self).last_cookie + 1,
            final(self).last_cookie == r.0,
            !old(self).has_cookie(r.0),
            match sender {
                Some(client) => final(self).inhibitors@ == old(self).inhibitors@.push(
                    (Inhibitor { cookie: r.0, application_name, reason_for_inhibit, client }),
                ),
                None => final(self).inhibitors@ == old(self).inhibitors@,
            },
            r.1 == aggregate_signal(
                old(self).inhibitors@.len(),
                final(self).inhibitors@.len(),
            ),
    {
        let cookie = self.last_cookie + 1;
        self.last_cookie = cookie;
        let mut signal: Option<bool> = None;
        match sender {
            Some(client) => {
                if self.inhibitors.len() == 0 {
                    signal = Some(true);
                }
                self.inhibitors.push(
                    Inhibitor { cookie, application_name, reason_for_inhibit, client },
                );
            },
            None => {},
        }
        (cookie, signal)
    }

    /// Handles an `UnInhibit` call: removes the lease with that cookie, if
    /// any; an unknown cookie is no error. Returns the aggregate signal to
    /// emit, if any.
    pub fn un_inhibit(&mut self, cookie: u32) -> (r: Option<bool>)
        requires
            old(self).wf(),
        ensures
            final(self).wf(),
            final(self).last_cookie == old(self).last_cookie,
            !final(self).has_cookie(cookie),
            old(self).has_cookie(cookie) ==> exists|i: int|
                0 <= i < old(self).inhibitors@.len() && old(self).inhibitors@[i].cookie == cookie
                    && final(self).inhibitors@ == old(self).inhibitors@.remove(i),
            !old(self).has_cookie(cookie) ==> final(self).inhibitors@ == old(self).inhibitors@,
            r == aggregate_signal(old(self).inhibitors@.len(), final(self).inhibitors@.len()),
    {
        let mut idx: usize = 0;
        while idx < self.inhibitors.len() && self.inhibitors[idx].cookie != cookie
            invariant
                idx <= self.inhibitors@.len(),
                forall|j: int| 0 <= j < idx ==> #[trigger] self.inhibitors@[j].cookie != cookie,
            decreases self.inhibitors@.len() - idx,
        {
            idx = idx + 1;
        }
        if idx == self.inhibitors.len() {
            return None;
        }
        let ghost before = self.inhibitors@;
        let _removed = self.inhibitors.remove(idx);
        assert forall|j: int| 0 <= j < self.inhibitors@.len() implies #[trigger] self.inhibitors@[j].cookie != cookie by {
            if j >= idx {
                assert(self.inhibitors@[j] == before[j + 1]);
                assert(before[j + 1].cookie != before[idx as int].cookie);
            } else {
                assert(self.inhibitors@[j] == before[j]);
            }
        }
        assert forall|i: int, j: int|
            0 <= i < self.inhibitors@.len() && 0 <= j < self.inhibitors@.len() && i != j
            implies #[trigger] self.inhibitors@[i].cookie != #[trigger] self.inhibitors@[j].cookie by {
            let bi = if i < idx { i } else { i + 1 };
            let bj = if j < idx { j } else { j + 1 };
            assert(self.inhibitors@[i] == before[bi]);
            assert(self.inhibitors@[j] == before[bj]);
        }
        if self.inhibitors.len() == 0 {
            Some(false)
        } else {
            None
        }
    }

    /// Handles the disconnection of the bus client named `client`: removes
    /// every lease it owns in one pass and keeps the others in order.
    /// Returns the aggregate signal to emit, if any (at most one).
    pub fn client_disconnected(&mut self, client: &String) -> (r: Option<bool>)
        requires
            old(self).wf(),
        ensures
            final(self).wf(),
            final(self).last_cookie == old(self).last_cookie,
            final(self).inhibitors@ == without_client(old(self).inhibitors@, client@),
            r == aggregate_signal(old(self).inhibitors@.len(), final(self).inhibitors@.len()),
    {
        let ghost pred = not_owned_by(client@);
        let ghost before = self.inhibitors@;
        let mut kept: Vec<Inhibitor> = Vec::new();
        let mut i: usize = 0;
        while i < self.inhibitors.len()
            invariant
                i <= before.len(),
                self.inhibitors@ == before,
                pred == not_owned_by(client@),
                kept@ == before.take(i as int).filter(pred),
            decreases before.len() - i,
        {
            let item = &self.inhibitors[i];
            proof {
                reveal(Seq::filter);
            }
            assert(before.take(i + 1).drop_last() =~= before.take(i as int));
            let keep = !(item.client == *client);
            assert(keep == pred(before[i as int]));
            if keep {
                let copy = Inhibitor {
                    cookie: item.cookie,
                    application_name: item.application_name.clone(),
                    reason_for_inhibit: item.reason_for_inhibit.clone(),
                    client: item.client.clone(),
                };
                assert(copy == before[i as int]);
                kept.push(copy);
                assert(before.take(i + 1).filter(pred) == before.take(i as int).filter(pred).push(
                    before[i as int],
                ));
            } else {
                assert(before.take(i + 1).filter(pred) == before.take(i as int).filter(pred));
            }
            i = i + 1;
        }
        assert(before.take(before.len() as int) =~= before);
        let was_inhibited = self.inhibitors.len() > 0;
        self.inhibitors = kept;
        proof {
            lemma_filter_keeps_wf(before, pred, self.last_cookie);
        }
        if was_inhibited && self.inhibitors.len() == 0 {
            Some(false)
        } else {
            None
        }
    }
}

/// The aggregate signals emitted along a trace of registry sizes, one size
/// after each operation, in order.
pub open spec fn emitted(sizes: Seq<nat>) -> Seq<bool>
    decreases sizes.len(),
{
    if sizes.len() < 2 {
        Seq::empty()
    } else {
        let prev = emitted(sizes.drop_last());
        match aggregate_signal(sizes[sizes.len() - 2], sizes.last()) {
            Some(b) => prev.push(b),
            None => prev,
        }
    }
}

/// How many steps of the trace turn the registry from empty to non-empty or
/// back.
pub open spec fn emptiness_transitions(sizes: Seq<nat>) -> nat
    decreases sizes.len(),
{
    if sizes.len() < 2 {
        0
    } else {
        emptiness_transitions(sizes.drop_last()) + if (sizes[sizes.len() - 2] == 0) != (
        sizes.last() == 0) {
            1nat
        } else {
            0nat
        }
    }
}

/// Along any trace that starts from an empty registry, a signal is emitted
/// exactly once per empty/non-empty transition and never in between; the
/// signals alternate, starting with "inhibited", and the last one tells
/// whether the registry is non-empty now.
pub proof fn lemma_signal_only_on_transitions(sizes: Seq<nat>)
    requires
        sizes.len() > 0,
        sizes[0] == 0,
    ensures
        emitted(sizes).len() == emptiness_transitions(sizes),
        forall|k: int| 0 <= k < emitted(sizes).len() ==> #[trigger] emitted(sizes)[k] == (k % 2 == 0),
        (sizes.last() > 0) == (emitted(sizes).len() % 2 == 1),
    decreases sizes.len(),
{
    if sizes.len() >= 2 {
        let d = sizes.drop_last();
        lemma_signal_only_on_transitions(d);
        assert(d.last() == sizes[sizes.len() - 2]);
        assert(d[0] == sizes[0]);
    }
}

/// A disconnect keeps exactly the leases that the departed client does not
/// own: none of its own survives, and every other lease stays.
pub proof fn lemma_disconnect_removes_exactly_owned(s: Seq<Inhibitor>, client: Seq<char>)
    ensures
        forall|x: Inhibitor| #[trigger]
            without_client(s, client).contains(x) <==> (s.contains(x) && x.client@ != client),
{
    let pred = not_owned_by(client);
    broadcast use vstd::seq_lib::group_filter_ensures;

    assert forall|x: Inhibitor| #[trigger]
        without_client(s, client).contains(x) <==> (s.contains(x) && x.client@ != client) by {
        if without_client(s, client).contains(x) {
            s.lemma_filter_contains_rev(pred, x);
            let k = choose|k: int| 0 <= k < s.filter(pred).len() && s.filter(pred)[k] == x;
            assert(pred(s.filter(pred)[k]));
        }
        if s.contains(x) && x.client@ != client {
            let k = choose|k: int| 0 <= k < s.len() && s[k] == x;
            assert(pred(s[k]));
        }
    }
}

proof fn lemma_filter_keeps_wf(s: Seq<Inhibitor>, pred: spec_fn(Inhibitor) -> bool, last: u32)
    requires
        forall|i: int| 0 <= i < s.len() ==> 1 <= #[trigger] s[i].cookie <= last,
        forall|i: int, j: int|
            0 <= i < s.len() && 0 <= j < s.len() && i != j ==> #[trigger] s[i].cookie
                != #[trigger] s[j].cookie,
    ensures
        forall|i: int| 0 <= i < s.filter(pred).len() ==> 1 <= #[trigger] s.filter(pred)[i].cookie <= last,
        forall|i: int, j: int|
            0 <= i < s.filter(pred).len() && 0 <= j < s.filter(pred).len() && i != j
                ==> #[trigger] s.filter(pred)[i].cookie != #[trigger] s.filter(pred)[j].cookie,
    decreases s.len(),
{
    reveal(Seq::filter);
    if s.len() > 0 {
        let d = s.drop_last();
        lemma_filter_keeps_wf(d, pred, last);
        let f = d.filter(pred);
        if pred(s.last()) {
            assert(s.filter(pred) == f.push(s.last()));
            assert forall|i: int| 0 <= i < f.len() implies #[trigger] f[i].cookie != s.last().cookie by {
                d.lemma_filter_contains_rev(pred, f[i]);
                let k = choose|k: int| 0 <= k < d.len() && d[k] == f[i];
                assert(s[k] == d[k]);
                assert(s[s.len() - 1] == s.last());
            }
        } else {
            assert(s.filter(pred) == f);
        }
    }
}

} // verus!
