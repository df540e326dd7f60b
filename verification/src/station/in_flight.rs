//! The station's in-flight set: the `(subject, stream sequence)` keys of
//! messages delivered but not yet terminated in this process. Probing and
//! inserting in one step is what suppresses duplicate deliveries; the
//! at-most-once law is proved over traces of these transitions.

use vstd::prelude::*;

verus! {

/// One delivery key: the subject the message arrived on and its
/// broker-assigned stream sequence.
#[derive(Debug)]
pub struct DedupKey {
    pub subject: String,
    pub sequence: u64,
}

impl DedupKey {
    /// The key as a mathematical pair.
    pub open spec fn view(&self) -> (Seq<char>, u64) {
        (self.subject@, self.sequence)
    }
}

/// The set of in-flight keys, held as a duplicate-free list.
pub struct InFlightSet {
    keys: Vec<DedupKey>,
}

impl InFlightSet {
    /// The mathematical set of keys.
    pub closed spec fn view(&self) -> Set<(Seq<char>, u64)> {
        self.keys@.map_values(|k: DedupKey| k.view()).to_set()
    }

    /// No key occurs twice in the backing list.
    pub closed spec fn wf(&self) -> bool {
        forall|i: int, j: int|
            0 <= i < j < self.keys@.len() ==> (#[trigger] self.keys@[i]).view() != (
            #[trigger] self.keys@[j]).view()
    }

    /// An empty set.
    pub fn new() -> (s: Self)
        ensures
            s.view() =~= Set::<(Seq<char>, u64)>::empty(),
            s.wf(),
    {
        let s = InFlightSet { keys: Vec::new() };
        proof {
            assert(s.keys@.map_values(|k: DedupKey| k.view()) =~= Seq::<(Seq<char>, u64)>::empty());
        }
        s
    }

    fn find(&self, subject: &String, sequence: u64) -> (r: Option<usize>)
        ensures
            match r {
                Option::Some(i) => i < self.keys@.len() && self.keys@[i as int].view() == (
                    subject@,
                    sequence,
                ),
                Option::None => !self.view().contains((subject@, sequence)),
            },
    {
        let mut i: usize = 0;
        while i < self.keys.len()
            invariant
                i <= self.keys@.len(),
                forall|j: int|
                    0 <= j < i ==> (#[trigger] self.keys@[j]).view() != (subject@, sequence),
            decreases self.keys@.len() - i,
        {
            let hit = self.keys[i].sequence == sequence && self.keys[i].subject == *subject;
            if hit {
                return Option::Some(i);
            }
            i = i + 1;
        }
        proof {
            let mapped = self.keys@.map_values(|k: DedupKey| k.view());
            assert forall|p: (Seq<char>, u64)| mapped.to_set().contains(p) implies p != (
                subject@,
                sequence,
            ) by {
                let idx = choose|idx: int| 0 <= idx < mapped.len() && mapped[idx] == p;
                assert(self.keys@[idx].view() == p);
            }
        }
        Option::None
    }

    /// Whether the key is in flight.
    pub fn contains(&self, subject: &String, sequence: u64) -> (r: bool)
        ensures
            r == self.view().contains((subject@, sequence)),
    {
        match self.find(subject, sequence) {
            Option::Some(i) => {
                proof {
                    let mapped = self.keys@.map_values(|k: DedupKey| k.view());
                    assert(mapped[i as int] == (subject@, sequence));
                    assert(mapped.to_set().contains((subject@, sequence)));
                }
                true
            },
            Option::None => false,
        }
    }

    /// Probes and inserts in one step: reports whether the key was absent,
    /// and leaves it present either way. A fresh key is exactly one that may
    /// be forwarded to the application.
    pub fn probe_insert(&mut self, subject: &String, sequence: u64) -> (fresh: bool)
        requires
            old(self).wf(),
        ensures
            final(self).wf(),
            fresh == !old(self).view().contains((subject@, sequence)),
            final(self).view() =~= old(self).view().insert((subject@, sequence)),
    {
        match self.find(subject, sequence) {
            Option::Some(i) => {
                proof {
                    let mapped = self.keys@.map_values(|k: DedupKey| k.view());
                    assert(mapped[i as int] == (subject@, sequence));
                    assert(mapped.to_set().contains((subject@, sequence)));
                    assert(self.view().insert((subject@, sequence)) =~= self.view());
                }
                false
            },
            Option::None => {
                let ghost orig = self.keys@;
                self.keys.push(DedupKey { subject: subject.clone(), sequence });
                proof {
                    let mapped = orig.map_values(|k: DedupKey| k.view());
                    let mapped_new = self.keys@.map_values(|k: DedupKey| k.view());
                    assert(mapped_new =~= mapped.push((subject@, sequence)));
                    lemma_push_to_set(mapped, (subject@, sequence));
                    assert(mapped_new.to_set() =~= mapped.to_set().insert((subject@, sequence)));
                    assert forall|a: int, b: int|
                        0 <= a < b < self.keys@.len() implies (#[trigger] self.keys@[a]).view() != (
                    #[trigger] self.keys@[b]).view() by {
                        if b == orig.len() {
                            assert(mapped[a] == self.keys@[a].view());
                            assert(!mapped.to_set().contains((subject@, sequence)));
                            assert(self.keys@[b].view() == (subject@, sequence));
                        } else {
                            assert(orig[a].view() != orig[b].view());
                        }
                    }
                }
                true
            },
        }
    }

    /// Removes a key; the terminal transition of a delivered message.
    pub fn remove(&mut self, subject: &String, sequence: u64)
        requires
            old(self).wf(),
        ensures
            final(self).wf(),
            final(self).view() =~= old(self).view().remove((subject@, sequence)),
    {
        match self.find(subject, sequence) {
            Option::None => {
                proof {
                    assert(self.view().remove((subject@, sequence)) =~= self.view());
                }
            },
            Option::Some(i) => {
                let ghost orig = self.keys@;
                self.keys.remove(i);
                proof {
                    let mapped = orig.map_values(|k: DedupKey| k.view());
                    let mapped_new = self.keys@.map_values(|k: DedupKey| k.view());
                    assert(mapped_new =~= mapped.remove(i as int));
                    assert forall|p: (Seq<char>, u64)|
                        mapped_new.to_set().contains(p) implies mapped.to_set().remove(
                        (subject@, sequence),
                    ).contains(p) by {
                        let idx = choose|idx: int|
                            0 <= idx < mapped_new.len() && mapped_new[idx] == p;
                        let src = if idx < i as int {
                            idx
                        } else {
                            idx + 1
                        };
                        assert(mapped[src] == p);
                        assert(p != (subject@, sequence));
                    }
                    assert forall|p: (Seq<char>, u64)|
                        mapped.to_set().remove((subject@, sequence)).contains(p)
                        implies mapped_new.to_set().contains(p) by {
                        let idx = choose|idx: int| 0 <= idx < mapped.len() && mapped[idx] == p;
                        let dst = if idx < i as int {
                            idx
                        } else {
                            idx - 1
                        };
                        assert(idx != i as int);
                        assert(mapped_new[dst] == p);
                    }
                    assert(mapped_new.to_set() =~= mapped.to_set().remove((subject@, sequence)));
                }
            },
        }
    }

    /// How many keys are in flight.
    pub fn len(&self) -> (r: usize)
        requires
            self.wf(),
        ensures
            r == self.view().len(),
    {
        proof {
            let mapped = self.keys@.map_values(|k: DedupKey| k.view());
            lemma_distinct_to_set_len(mapped);
        }
        self.keys.len()
    }
}

/// One consume-side event of a process trace.
pub enum DedupEvent {
    /// A delivery with this key arrived from the broker.
    Incoming((Seq<char>, u64)),
    /// The message with this key reached a terminal transition:
    /// acknowledged, delayed, its keep-alive disabled, or dropped.
    Terminal((Seq<char>, u64)),
}

/// The in-flight set after a trace of events starting from `s0`: an incoming
/// key is inserted, a terminated key removed — the transitions that
/// `probe_insert` and `remove` make.
pub open spec fn dedup_state(
    s0: Set<(Seq<char>, u64)>,
    tr: Seq<DedupEvent>,
) -> Set<(Seq<char>, u64)>
    decreases tr.len(),
{
    if tr.len() == 0 {
        s0
    } else {
        let prior = dedup_state(s0, tr.drop_last());
        match tr.last() {
            DedupEvent::Incoming(k) => prior.insert(k),
            DedupEvent::Terminal(k) => prior.remove(k),
        }
    }
}

/// Whether the event at position `i` hands its message to the application:
/// an incoming key that was not in flight at that point.
pub open spec fn forwards(s0: Set<(Seq<char>, u64)>, tr: Seq<DedupEvent>, i: int) -> bool {
    match tr[i] {
        DedupEvent::Incoming(k) => !dedup_state(s0, tr.take(i)).contains(k),
        DedupEvent::Terminal(_) => false,
    }
}

proof fn lemma_key_persists(
    s0: Set<(Seq<char>, u64)>,
    tr: Seq<DedupEvent>,
    k: (Seq<char>, u64),
    m: int,
    m2: int,
)
    requires
        0 <= m <= m2 <= tr.len(),
        dedup_state(s0, tr.take(m)).contains(k),
        forall|l: int| m <= l < m2 ==> tr[l] != DedupEvent::Terminal(k),
    ensures
        dedup_state(s0, tr.take(m2)).contains(k),
    decreases m2 - m,
{
    if m2 > m {
        lemma_key_persists(s0, tr, k, m, m2 - 1);
        assert(tr.take(m2).drop_last() =~= tr.take(m2 - 1));
        assert(tr.take(m2).last() == tr[m2 - 1]);
        match tr[m2 - 1] {
            DedupEvent::Incoming(_) => {},
            DedupEvent::Terminal(k2) => {
                assert(k2 != k);
            },
        }
    }
}

/// At-most-once delivery: while a delivered message is un-terminated, a
/// second delivery of the same `(subject, sequence)` key is not handed to
/// the application. Two incoming events with one key, with no terminal
/// transition of that key between them, cannot both forward.
pub proof fn lemma_dedup_at_most_once(
    s0: Set<(Seq<char>, u64)>,
    tr: Seq<DedupEvent>,
    k: (Seq<char>, u64),
    i: int,
    j: int,
)
    requires
        0 <= i < j < tr.len(),
        tr[i] == DedupEvent::Incoming(k),
        tr[j] == DedupEvent::Incoming(k),
        forall|l: int| i < l < j ==> tr[l] != DedupEvent::Terminal(k),
    ensures
        forwards(s0, tr, i) ==> !forwards(s0, tr, j),
{
    assert(tr.take(i + 1).drop_last() =~= tr.take(i));
    assert(tr.take(i + 1).last() == tr[i]);
    assert(dedup_state(s0, tr.take(i + 1)).contains(k));
    lemma_key_persists(s0, tr, k, i + 1, j);
}

proof fn lemma_push_to_set(s: Seq<(Seq<char>, u64)>, x: (Seq<char>, u64))
    ensures
        s.push(x).to_set() =~= s.to_set().insert(x),
{
    assert forall|p: (Seq<char>, u64)| s.push(x).to_set().contains(p) implies s.to_set().insert(
        x,
    ).contains(p) by {
        let i = choose|i: int| 0 <= i < s.push(x).len() && s.push(x)[i] == p;
        if i < s.len() {
            assert(s[i] == p);
        } else {
            assert(p == x);
        }
    }
    assert forall|p: (Seq<char>, u64)| s.to_set().insert(x).contains(p) implies s.push(
        x,
    ).to_set().contains(p) by {
        if p == x {
            assert(s.push(x)[s.len() as int] == p);
        } else {
            let i = choose|i: int| 0 <= i < s.len() && s[i] == p;
            assert(s.push(x)[i] == p);
        }
    }
}

proof fn lemma_distinct_to_set_len(s: Seq<(Seq<char>, u64)>)
    requires
        forall|i: int, j: int| 0 <= i < j < s.len() ==> s[i] != s[j],
    ensures
        s.to_set().len() == s.len(),
    decreases s.len(),
{
    if s.len() > 0 {
        let rest = s.drop_last();
        lemma_distinct_to_set_len(rest);
        assert(!rest.to_set().contains(s.last())) by {
            if rest.to_set().contains(s.last()) {
                let idx = choose|idx: int| 0 <= idx < rest.len() && rest[idx] == s.last();
                assert(s[idx] == s[s.len() - 1]);
            }
        }
        lemma_push_to_set(rest, s.last());
        assert(rest.push(s.last()) =~= s);
        assert(s.to_set() =~= rest.to_set().insert(s.last()));
    } else {
        assert(s.to_set() =~= Set::<(Seq<char>, u64)>::empty());
    }
}

} // verus!
