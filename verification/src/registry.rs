//! The pairing of client windows with the frames that hold them.

use vstd::prelude::*;

verus! {

/// Identifies a window on the display server, a client's or a frame.
pub type WindowId = u32;

/// One client window and the frame that it has been put into.
#[derive(Clone, Copy, Debug, PartialEq, Eq, Structural)]
pub struct Framed {
    pub client: WindowId,
    pub frame: WindowId,
}

/// What makes a map from clients to frames a pairing: it is finite, no two
/// clients share a frame, and no window is a client and a frame at once.
pub open spec fn is_pairing(m: Map<WindowId, WindowId>) -> bool {
    &&& m.dom().finite()
    &&& forall|a: WindowId, b: WindowId|
        m.dom().contains(a) && m.dom().contains(b) && a != b ==> #[trigger] m[a] != #[trigger] m[b]
    &&& forall|a: WindowId, b: WindowId|
        m.dom().contains(a) && m.dom().contains(b) ==> a != #[trigger] m[b] || !#[trigger] m.dom().contains(a)
}

/// The frame of `client`, where it has one.
pub open spec fn frame_of(m: Map<WindowId, WindowId>, client: WindowId) -> Option<WindowId> {
    if m.dom().contains(client) {
        Some(m[client])
    } else {
        None
    }
}

/// `frame` holds some client.
pub open spec fn is_frame(m: Map<WindowId, WindowId>, frame: WindowId) -> bool {
    exists|c: WindowId| #[trigger] m.contains_pair(c, frame)
}

/// The client that `frame` holds, where it holds one.
pub open spec fn client_of(m: Map<WindowId, WindowId>, frame: WindowId) -> Option<WindowId> {
    if is_frame(m, frame) {
        Some(choose|c: WindowId| #[trigger] m.contains_pair(c, frame))
    } else {
        None
    }
}

/// `window` occurs in the pair of `client`, if there is such a pair, on
/// either side.
pub open spec fn touches(m: Map<WindowId, WindowId>, client: WindowId, window: WindowId) -> bool {
    m.dom().contains(client) && (client == window || m[client] == window)
}

/// The pairing without the pairs in which `a` or `b` occurs on either side.
pub open spec fn without_windows(m: Map<WindowId, WindowId>, a: WindowId, b: WindowId) -> Map<
    WindowId,
    WindowId,
> {
    Map::new(|c: WindowId| m.dom().contains(c) && !touches(m, c, a) && !touches(m, c, b), |c: WindowId| m[c])
}

/// The pairing after `client` has been put into `frame`: pairs in which
/// either window occurred before give way. A window cannot be put into
/// itself; the pairing then stays as it is.
pub open spec fn with_pair(m: Map<WindowId, WindowId>, client: WindowId, frame: WindowId) -> Map<
    WindowId,
    WindowId,
> {
    if client == frame {
        m
    } else {
        without_windows(m, client, frame).insert(client, frame)
    }
}

/// The pairing without the pair of `frame`, if there is one.
pub open spec fn without_frame(m: Map<WindowId, WindowId>, frame: WindowId) -> Map<WindowId, WindowId> {
    match client_of(m, frame) {
        Some(c) => m.remove(c),
        None => m,
    }
}

/// The clients and their frames. Each window occurs at most once, as a client
/// or as a frame.
pub struct FrameRegistry {
    pairs: Vec<Framed>,
}

spec fn distinct(pairs: Seq<Framed>) -> bool {
    &&& forall|i: int, j: int|
        0 <= i < pairs.len() && 0 <= j < pairs.len() && i != j ==> (#[trigger] pairs[i]).client != (
        #[trigger] pairs[j]).client
    &&& forall|i: int, j: int|
        0 <= i < pairs.len() && 0 <= j < pairs.len() && i != j ==> (#[trigger] pairs[i]).frame != (
        #[trigger] pairs[j]).frame
    &&& forall|i: int, j: int|
        0 <= i < pairs.len() && 0 <= j < pairs.len() ==> (#[trigger] pairs[i]).client != (
        #[trigger] pairs[j]).frame
}

spec fn came_from(before: Seq<Framed>, limit: int, p: Framed) -> bool {
    exists|j: int| 0 <= j < limit && j < before.len() && #[trigger] before[j] == p
}

spec fn clear_of(p: Framed, client: WindowId, frame: WindowId) -> bool {
    p.client != client && p.client != frame && p.frame != client && p.frame != frame
}

spec fn holds(kept: Seq<Framed>, p: Framed) -> bool {
    exists|a: int| 0 <= a < kept.len() && #[trigger] kept[a] == p
}

spec fn has_client(pairs: Seq<Framed>, client: WindowId) -> bool {
    exists|i: int| 0 <= i < pairs.len() && (#[trigger] pairs[i]).client == client
}

spec fn index_of_client(pairs: Seq<Framed>, client: WindowId) -> int {
    choose|i: int| 0 <= i < pairs.len() && (#[trigger] pairs[i]).client == client
}

spec fn as_map(pairs: Seq<Framed>) -> Map<WindowId, WindowId> {
    Map::new(
        |c: WindowId| has_client(pairs, c),
        |c: WindowId| pairs[index_of_client(pairs, c)].frame,
    )
}

proof fn lemma_as_map(pairs: Seq<Framed>)
    requires
        distinct(pairs),
    ensures
        forall|i: int|
            0 <= i < pairs.len() ==> as_map(pairs).contains_pair(
                (#[trigger] pairs[i]).client,
                pairs[i].frame,
            ),
        forall|c: WindowId| #[trigger]
            as_map(pairs).dom().contains(c) ==> 0 <= index_of_client(pairs, c) < pairs.len()
                && pairs[index_of_client(pairs, c)].client == c,
        forall|c: WindowId, f: WindowId| #[trigger]
            as_map(pairs).contains_pair(c, f) ==> pairs[index_of_client(pairs, c)].frame == f,
        is_pairing(as_map(pairs)),
{
    let m = as_map(pairs);
    assert forall|i: int| 0 <= i < pairs.len() implies m.contains_pair(
        (#[trigger] pairs[i]).client,
        pairs[i].frame,
    ) by {
        let c = pairs[i].client;
        assert(has_client(pairs, c));
        let k = index_of_client(pairs, c);
        assert(pairs[k].client == pairs[i].client);
        assert(k == i);
    }
    assert forall|c: WindowId| #[trigger] m.dom().contains(c) implies 0 <= index_of_client(pairs, c)
        < pairs.len() && pairs[index_of_client(pairs, c)].client == c by {
        assert(has_client(pairs, c));
    }
    assert(m.dom().finite()) by {
        lemma_clients_finite(pairs);
        assert(m.dom() =~= clients(pairs));
    }
    assert forall|a: WindowId, b: WindowId|
        m.dom().contains(a) && m.dom().contains(b) && a != b implies #[trigger] m[a] != #[trigger] m[b] by {
        let i = index_of_client(pairs, a);
        let j = index_of_client(pairs, b);
        assert(pairs[i].frame != pairs[j].frame);
    }
    assert forall|a: WindowId, b: WindowId| m.dom().contains(a) && m.dom().contains(b) implies a
        != #[trigger] m[b] || !#[trigger] m.dom().contains(a) by {
        let i = index_of_client(pairs, a);
        let j = index_of_client(pairs, b);
        assert(pairs[i].client != pairs[j].frame);
    }
}

spec fn clients(pairs: Seq<Framed>) -> Set<WindowId> {
    Set::new(|c: WindowId| has_client(pairs, c))
}

proof fn lemma_clients_finite(pairs: Seq<Framed>)
    ensures
        clients(pairs).finite(),
    decreases pairs.len(),
{
    if pairs.len() == 0 {
        assert(clients(pairs) =~= Set::<WindowId>::empty());
    } else {
        let rest = pairs.drop_last();
        lemma_clients_finite(rest);
        assert forall|c: WindowId| clients(pairs).contains(c) <==> clients(rest).insert(
            pairs.last().client,
        ).contains(c) by {
            if has_client(pairs, c) {
                let i = choose|i: int| 0 <= i < pairs.len() && (#[trigger] pairs[i]).client == c;
                if i < pairs.len() - 1 {
                    assert(rest[i].client == c);
                }
            }
            if has_client(rest, c) {
                let i = choose|i: int| 0 <= i < rest.len() && (#[trigger] rest[i]).client == c;
                assert(pairs[i].client == c);
            }
            if c == pairs.last().client {
                assert(pairs[pairs.len() - 1].client == c);
            }
        }
        assert(clients(pairs) =~= clients(rest).insert(pairs.last().client));
    }
}

impl View for FrameRegistry {
    type V = Map<WindowId, WindowId>;

    closed spec fn view(&self) -> Map<WindowId, WindowId> {
        as_map(self.pairs@)
    }
}

impl FrameRegistry {
    /// The invariant of the registry.
    pub closed spec fn wf(&self) -> bool {
        distinct(self.pairs@)
    }

    /// A well-formed registry holds a pairing.
    pub proof fn lemma_pairing(&self)
        requires
            self.wf(),
        ensures
            is_pairing(self@),
    {
        lemma_as_map(self.pairs@);
    }

    /// No window is framed.
    pub fn new() -> (r: FrameRegistry)
        ensures
            r.wf(),
            r@ == Map::<WindowId, WindowId>::empty(),
    {
        let r = FrameRegistry { pairs: Vec::new() };
        proof {
            assert(r@ =~= Map::<WindowId, WindowId>::empty());
        }
        r
    }

    /// The number of framed clients.
    pub fn len(&self) -> (n: usize)
        requires
            self.wf(),
        ensures
            n == self@.len(),
    {
        proof {
            lemma_len(self.pairs@);
        }
        self.pairs.len()
    }

    fn position_of_client(&self, client: WindowId) -> (at: Option<usize>)
        requires
            self.wf(),
        ensures
            match at {
                Some(i) => i < self.pairs@.len() && self.pairs@[i as int].client == client
                    && self@.contains_pair(client, self.pairs@[i as int].frame),
                None => !self@.dom().contains(client),
            },
    {
        proof {
            lemma_as_map(self.pairs@);
        }
        let mut i: usize = 0;
        while i < self.pairs.len()
            invariant
                i <= self.pairs@.len(),
                self.wf(),
                forall|j: int| 0 <= j < i ==> (#[trigger] self.pairs@[j]).client != client,
            decreases self.pairs@.len() - i,
        {
            if self.pairs[i].client == client {
                proof {
                    lemma_as_map(self.pairs@);
                }
                return Some(i);
            }
            i += 1;
        }
        None
    }

    fn position_of_frame(&self, frame: WindowId) -> (at: Option<usize>)
        requires
            self.wf(),
        ensures
            match at {
                Some(i) => i < self.pairs@.len() && self.pairs@[i as int].frame == frame
                    && self@.contains_pair(self.pairs@[i as int].client, frame) && client_of(self@, frame)
                    == Some(self.pairs@[i as int].client),
                None => !is_frame(self@, frame) && client_of(self@, frame) is None,
            },
    {
        proof {
            lemma_as_map(self.pairs@);
        }
        let mut i: usize = 0;
        while i < self.pairs.len()
            invariant
                i <= self.pairs@.len(),
                self.wf(),
                forall|j: int| 0 <= j < i ==> (#[trigger] self.pairs@[j]).frame != frame,
            decreases self.pairs@.len() - i,
        {
            if self.pairs[i].frame == frame {
                proof {
                    lemma_as_map(self.pairs@);
                    let found = self.pairs@[i as int].client;
                    assert(self@.contains_pair(found, frame));
                    let chosen = choose|c: WindowId| #[trigger] self@.contains_pair(c, frame);
                    assert(self@.contains_pair(chosen, frame));
                    let k = index_of_client(self.pairs@, chosen);
                    assert(self.pairs@[k].frame == self.pairs@[i as int].frame);
                    assert(chosen == found);
                }
                return Some(i);
            }
            i += 1;
        }
        proof {
            if is_frame(self@, frame) {
                let c = choose|c: WindowId| #[trigger] self@.contains_pair(c, frame);
                assert(self@.contains_pair(c, frame));
                let k = index_of_client(self.pairs@, c);
                assert(self.pairs@[k].frame == frame);
            }
        }
        None
    }

    /// The frame of `client`, where it has one.
    pub fn get_by_left(&self, client: WindowId) -> (frame: Option<WindowId>)
        requires
            self.wf(),
        ensures
            frame == frame_of(self@, client),
    {
        match self.position_of_client(client) {
            Some(i) => Some(self.pairs[i].frame),
            None => None,
        }
    }

    /// The client that `frame` holds, where it holds one.
    pub fn get_by_right(&self, frame: WindowId) -> (client: Option<WindowId>)
        requires
            self.wf(),
        ensures
            client == client_of(self@, frame),
            client matches Some(c) ==> self@.contains_pair(c, frame),
            client is None ==> !is_frame(self@, frame),
    {
        match self.position_of_frame(frame) {
            Some(i) => Some(self.pairs[i].client),
            None => None,
        }
    }

    /// Puts `client` into `frame`. Pairs in which either window occurred
    /// give way to the new one. Returns whether the pair was taken: a window
    /// cannot be put into itself.
    pub fn insert(&mut self, client: WindowId, frame: WindowId) -> (taken: bool)
        requires
            old(self).wf(),
        ensures
            final(self).wf(),
            taken == (client != frame),
            final(self)@ == with_pair(old(self)@, client, frame),
    {
        if client == frame {
            return false;
        }
        let ghost before = self.pairs@;
        let mut kept: Vec<Framed> = Vec::new();
        let mut i: usize = 0;
        while i < self.pairs.len()
            invariant
                i <= self.pairs@.len(),
                self.pairs@ == before,
                distinct(before),
                distinct(kept@),
                forall|a: int| 0 <= a < kept@.len() ==> clear_of(#[trigger] kept@[a], client, frame),
                forall|a: int| 0 <= a < kept@.len() ==> came_from(before, i as int, #[trigger] kept@[a]),
                forall|j: int|
                    0 <= j < i && clear_of(#[trigger] before[j], client, frame) ==> holds(kept@, before[j]),
            decreases self.pairs@.len() - i,
        {
            let p: Framed = self.pairs[i];
            let ghost earlier = kept@;
            if p.client != client && p.client != frame && p.frame != client && p.frame != frame {
                kept.push(p);
                proof {
                    lemma_push_distinct(before, earlier, i as int);
                    assert(kept@[earlier.len() as int] == before[i as int]);
                }
            }
            proof {
                assert forall|a: int| 0 <= a < kept@.len() implies came_from(
                    before,
                    i as int + 1,
                    #[trigger] kept@[a],
                ) by {
                    if a < earlier.len() {
                        assert(came_from(before, i as int, earlier[a]));
                        let j = choose|j: int| 0 <= j < i && j < before.len() && #[trigger] before[j] == earlier[a];
                        assert(before[j] == kept@[a]);
                    } else {
                        assert(before[i as int] == kept@[a]);
                    }
                }
                assert forall|j: int| 0 <= j < i + 1 && clear_of(#[trigger] before[j], client, frame) implies holds(
                    kept@,
                    before[j],
                ) by {
                    if j < i {
                        assert(holds(earlier, before[j]));
                        let a = choose|a: int| 0 <= a < earlier.len() && #[trigger] earlier[a] == before[j];
                        assert(kept@[a] == before[j]);
                    }
                }
            }
            i += 1;
        }
        let ghost filtered = kept@;
        kept.push(Framed { client, frame });
        self.pairs = kept;
        proof {
            lemma_as_map(before);
            lemma_insert(before, filtered, client, frame);
        }
        true
    }

    /// Takes the pair of `client` out and returns its frame, if there is such
    /// a pair.
    pub fn remove_by_left(&mut self, client: WindowId) -> (frame: Option<WindowId>)
        requires
            old(self).wf(),
        ensures
            final(self).wf(),
            frame == frame_of(old(self)@, client),
            final(self)@ == old(self)@.remove(client),
    {
        match self.position_of_client(client) {
            Some(i) => {
                let ghost before = self.pairs@;
                let removed: Framed = self.pairs.remove(i);
                proof {
                    lemma_remove_at(before, i as int);
                }
                Some(removed.frame)
            },
            None => {
                proof {
                    assert(self@ =~= self@.remove(client));
                }
                None
            },
        }
    }

    /// Takes the pair of `frame` out and returns its client, if there is such
    /// a pair.
    pub fn remove_by_right(&mut self, frame: WindowId) -> (client: Option<WindowId>)
        requires
            old(self).wf(),
        ensures
            final(self).wf(),
            client == client_of(old(self)@, frame),
            final(self)@ == without_frame(old(self)@, frame),
    {
        match self.position_of_frame(frame) {
            Some(i) => {
                let ghost before = self.pairs@;
                let removed: Framed = self.pairs.remove(i);
                proof {
                    lemma_remove_at(before, i as int);
                }
                Some(removed.client)
            },
            None => None,
        }
    }
}

proof fn lemma_push_distinct(before: Seq<Framed>, earlier: Seq<Framed>, i: int)
    requires
        distinct(before),
        distinct(earlier),
        0 <= i < before.len(),
        forall|k: int| 0 <= k < earlier.len() ==> came_from(before, i, #[trigger] earlier[k]),
    ensures
        distinct(earlier.push(before[i])),
{
    let s = earlier.push(before[i]);
    let origin = |a: int|
        if a < earlier.len() {
            choose|j: int| 0 <= j < i && j < before.len() && #[trigger] before[j] == earlier[a]
        } else {
            i
        };
    assert forall|a: int| 0 <= a < s.len() implies 0 <= origin(a) <= i && before[origin(a)] == #[trigger] s[a]
        && (a < earlier.len() ==> origin(a) < i) by {
        if a < earlier.len() {
            assert(came_from(before, i, earlier[a]));
        }
    }
    assert forall|a: int, b: int| 0 <= a < s.len() && 0 <= b < s.len() && a != b implies (#[trigger] s[a]).client
        != (#[trigger] s[b]).client && s[a].frame != s[b].frame by {
        let ja = origin(a);
        let jb = origin(b);
        assert(before[ja] == s[a] && before[jb] == s[b]);
        if ja == jb {
            assert(a < earlier.len() && b < earlier.len());
            assert(earlier[a] == earlier[b]);
        }
    }
    assert forall|a: int, b: int| 0 <= a < s.len() && 0 <= b < s.len() implies (#[trigger] s[a]).client != (
    #[trigger] s[b]).frame by {
        let ja = origin(a);
        let jb = origin(b);
        assert(before[ja] == s[a] && before[jb] == s[b]);
    }
}

proof fn lemma_insert(before: Seq<Framed>, filtered: Seq<Framed>, client: WindowId, frame: WindowId)
    requires
        client != frame,
        distinct(before),
        distinct(filtered),
        forall|a: int| 0 <= a < filtered.len() ==> clear_of(#[trigger] filtered[a], client, frame),
        forall|a: int| 0 <= a < filtered.len() ==> came_from(before, before.len() as int, #[trigger] filtered[a]),
        forall|j: int|
            0 <= j < before.len() && clear_of(#[trigger] before[j], client, frame) ==> holds(filtered, before[j]),
    ensures
        distinct(filtered.push(Framed { client, frame })),
        as_map(filtered.push(Framed { client, frame })) == with_pair(as_map(before), client, frame),
{
    let pairs = filtered.push(Framed { client, frame });
    assert forall|a: int| 0 <= a < filtered.len() implies #[trigger] pairs[a] == filtered[a] by {}
    assert(distinct(pairs)) by {
        assert forall|a: int, b: int|
            0 <= a < pairs.len() && 0 <= b < pairs.len() && a != b implies (#[trigger] pairs[a]).client != (
        #[trigger] pairs[b]).client && pairs[a].frame != pairs[b].frame by {
            if a < filtered.len() {
                assert(clear_of(filtered[a], client, frame));
            }
            if b < filtered.len() {
                assert(clear_of(filtered[b], client, frame));
            }
        }
        assert forall|a: int, b: int| 0 <= a < pairs.len() && 0 <= b < pairs.len() implies (
        #[trigger] pairs[a]).client != (#[trigger] pairs[b]).frame by {
            if a < filtered.len() {
                assert(clear_of(filtered[a], client, frame));
            }
            if b < filtered.len() {
                assert(clear_of(filtered[b], client, frame));
            }
        }
    }
    lemma_as_map(before);
    lemma_as_map(pairs);
    let after = as_map(pairs);
    let old_map = as_map(before);
    let target = with_pair(old_map, client, frame);
    assert forall|c: WindowId| after.dom().contains(c) <==> target.dom().contains(c) by {
        if after.dom().contains(c) && c != client {
            let k = index_of_client(pairs, c);
            assert(pairs[k] == filtered[k]);
            assert(clear_of(filtered[k], client, frame));
            assert(came_from(before, before.len() as int, filtered[k]));
            let j = choose|j: int| 0 <= j < before.len() && j < before.len() && #[trigger] before[j] == filtered[k];
            assert(old_map.contains_pair(before[j].client, before[j].frame));
        }
        if target.dom().contains(c) && c != client {
            let j = index_of_client(before, c);
            assert(old_map.contains_pair(c, before[j].frame));
            assert(clear_of(before[j], client, frame));
            assert(holds(filtered, before[j]));
            let a = choose|a: int| 0 <= a < filtered.len() && #[trigger] filtered[a] == before[j];
            assert(pairs[a] == before[j]);
            assert(after.contains_pair(pairs[a].client, pairs[a].frame));
        }
        if c == client {
            assert(pairs[filtered.len() as int].client == client);
            assert(after.contains_pair(pairs[filtered.len() as int].client, frame));
        }
    }
    assert forall|c: WindowId| after.dom().contains(c) implies after[c] == target[c] by {
        let k = index_of_client(pairs, c);
        if k < filtered.len() {
            assert(pairs[k] == filtered[k]);
            assert(clear_of(filtered[k], client, frame));
            assert(came_from(before, before.len() as int, filtered[k]));
            let j = choose|j: int| 0 <= j < before.len() && j < before.len() && #[trigger] before[j] == filtered[k];
            assert(old_map.contains_pair(before[j].client, before[j].frame));
        } else {
            assert(pairs[k] == Framed { client, frame });
        }
    }
    assert(after =~= target);
}

proof fn lemma_remove_at(before: Seq<Framed>, i: int)
    requires
        distinct(before),
        0 <= i < before.len(),
    ensures
        distinct(before.remove(i)),
        as_map(before.remove(i)) == as_map(before).remove(before[i].client),
{
    let after = before.remove(i);
    assert forall|a: int| 0 <= a < after.len() implies #[trigger] after[a] == before[if a < i {
        a
    } else {
        a + 1
    }] by {}
    assert(distinct(after)) by {
        assert forall|a: int, b: int| 0 <= a < after.len() && 0 <= b < after.len() && a != b implies (
        #[trigger] after[a]).client != (#[trigger] after[b]).client && after[a].frame != after[b].frame by {
            let ja = if a < i { a } else { a + 1 };
            let jb = if b < i { b } else { b + 1 };
            assert(after[a] == before[ja] && after[b] == before[jb]);
        }
        assert forall|a: int, b: int| 0 <= a < after.len() && 0 <= b < after.len() implies (
        #[trigger] after[a]).client != (#[trigger] after[b]).frame by {
            let ja = if a < i { a } else { a + 1 };
            let jb = if b < i { b } else { b + 1 };
            assert(after[a] == before[ja] && after[b] == before[jb]);
        }
    }
    lemma_as_map(before);
    lemma_as_map(after);
    let m = as_map(before);
    let n = as_map(after);
    let target = m.remove(before[i].client);
    assert forall|c: WindowId| n.dom().contains(c) <==> target.dom().contains(c) by {
        if n.dom().contains(c) {
            let k = index_of_client(after, c);
            let j = if k < i { k } else { k + 1 };
            assert(after[k] == before[j]);
            assert(m.contains_pair(before[j].client, before[j].frame));
        }
        if target.dom().contains(c) {
            let j = index_of_client(before, c);
            let k = if j < i { j } else { j - 1 };
            assert(after[k] == before[j]);
        }
    }
    assert forall|c: WindowId| n.dom().contains(c) implies n[c] == target[c] by {
        let k = index_of_client(after, c);
        let j = if k < i { k } else { k + 1 };
        assert(after[k] == before[j]);
        assert(m.contains_pair(before[j].client, before[j].frame));
    }
    assert(n =~= target);
}

proof fn lemma_len(pairs: Seq<Framed>)
    requires
        distinct(pairs),
    ensures
        as_map(pairs).dom().finite(),
        as_map(pairs).len() == pairs.len(),
    decreases pairs.len(),
{
    lemma_as_map(pairs);
    if pairs.len() == 0 {
        assert(as_map(pairs).dom() =~= Set::<WindowId>::empty());
    } else {
        let last = pairs.len() - 1;
        let rest = pairs.remove(last);
        lemma_remove_at(pairs, last);
        lemma_len(rest);
        assert(as_map(pairs).dom().contains(pairs[last].client));
        assert(as_map(rest).dom() =~= as_map(pairs).dom().remove(pairs[last].client));
    }
}

/// Putting a client into a frame keeps a pairing a pairing, and afterwards
/// the client has that frame and the frame holds that client.
pub proof fn lemma_with_pair(m: Map<WindowId, WindowId>, client: WindowId, frame: WindowId)
    requires
        is_pairing(m),
        client != frame,
    ensures
        is_pairing(with_pair(m, client, frame)),
        frame_of(with_pair(m, client, frame), client) == Some(frame),
        client_of(with_pair(m, client, frame), frame) == Some(client),
{
    let n = with_pair(m, client, frame);
    let rest = without_windows(m, client, frame);
    assert(rest.dom().subset_of(m.dom()));
    vstd::set_lib::lemma_len_subset(rest.dom(), m.dom());
    assert(n.contains_pair(client, frame));
    let chosen = choose|c: WindowId| #[trigger] n.contains_pair(c, frame);
    assert(n.contains_pair(chosen, frame));
    assert(chosen == client);
    assert forall|a: WindowId, b: WindowId|
        n.dom().contains(a) && n.dom().contains(b) && a != b implies #[trigger] n[a] != #[trigger] n[b] by {
        if a != client && b != client {
            assert(m[a] != m[b]);
        }
    }
    assert forall|a: WindowId, b: WindowId| n.dom().contains(a) && n.dom().contains(b) implies a
        != #[trigger] n[b] || !#[trigger] n.dom().contains(a) by {
        if a != client && b != client {
            assert(a != m[b] || !m.dom().contains(a));
        }
    }
}

/// Taking a client out keeps a pairing a pairing, leaves the client without
/// a frame, and taking it out again changes nothing.
pub proof fn lemma_remove_client(m: Map<WindowId, WindowId>, client: WindowId)
    requires
        is_pairing(m),
    ensures
        is_pairing(m.remove(client)),
        frame_of(m.remove(client), client) is None,
        m.remove(client).remove(client) == m.remove(client),
{
    let n = m.remove(client);
    assert forall|a: WindowId, b: WindowId|
        n.dom().contains(a) && n.dom().contains(b) && a != b implies #[trigger] n[a] != #[trigger] n[b] by {
        assert(m[a] != m[b]);
    }
    assert forall|a: WindowId, b: WindowId| n.dom().contains(a) && n.dom().contains(b) implies a
        != #[trigger] n[b] || !#[trigger] n.dom().contains(a) by {
        assert(a != m[b] || !m.dom().contains(a));
    }
    assert(n.remove(client) =~= n);
}

} // verus!
