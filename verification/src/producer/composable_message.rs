//! The outbound message value: headers, payload and an optional broker-level
//! dedup id. Header insertion replaces an existing name, as the transport's
//! header map does.

use vstd::prelude::*;

verus! {

/// The views of a header list's pairs.
pub open spec fn pairs_view(hs: Seq<(String, String)>) -> Seq<(Seq<char>, Seq<char>)> {
    hs.map_values(|p: (String, String)| (p.0@, p.1@))
}

/// Insert-or-replace of a header: the first pair with the same name is
/// replaced in place, else the pair is appended.
pub open spec fn header_insert(
    hs: Seq<(Seq<char>, Seq<char>)>,
    n: Seq<char>,
    v: Seq<char>,
) -> Seq<(Seq<char>, Seq<char>)>
    decreases hs.len(),
{
    if hs.len() == 0 {
        seq![(n, v)]
    } else if hs[0].0 == n {
        seq![(n, v)] + hs.drop_first()
    } else {
        seq![hs[0]] + header_insert(hs.drop_first(), n, v)
    }
}

/// A name's value under a header list: the first pair with that name.
pub open spec fn header_lookup(hs: Seq<(Seq<char>, Seq<char>)>, n: Seq<char>) -> Option<Seq<char>>
    decreases hs.len(),
{
    if hs.len() == 0 {
        Option::None
    } else if hs[0].0 == n {
        Option::Some(hs[0].1)
    } else {
        header_lookup(hs.drop_first(), n)
    }
}

proof fn lemma_header_insert_found(hs: Seq<(Seq<char>, Seq<char>)>, n: Seq<char>, v: Seq<char>, i: int)
    requires
        0 <= i < hs.len(),
        hs[i].0 == n,
        forall|j: int| 0 <= j < i ==> (#[trigger] hs[j]).0 != n,
    ensures
        header_insert(hs, n, v) == hs.update(i, (n, v)),
    decreases i,
{
    if i == 0 {
        assert(header_insert(hs, n, v) =~= hs.update(0, (n, v)));
    } else {
        assert(hs.drop_first()[i - 1].0 == n);
        assert(forall|j: int| 0 <= j < i - 1 ==> (#[trigger] hs.drop_first()[j]).0 != n);
        lemma_header_insert_found(hs.drop_first(), n, v, i - 1);
        assert(header_insert(hs, n, v) =~= hs.update(i, (n, v)));
    }
}

proof fn lemma_header_insert_absent(hs: Seq<(Seq<char>, Seq<char>)>, n: Seq<char>, v: Seq<char>)
    requires
        forall|j: int| 0 <= j < hs.len() ==> (#[trigger] hs[j]).0 != n,
    ensures
        header_insert(hs, n, v) == hs.push((n, v)),
    decreases hs.len(),
{
    if hs.len() == 0 {
        assert(header_insert(hs, n, v) =~= hs.push((n, v)));
    } else {
        lemma_header_insert_absent(hs.drop_first(), n, v);
        assert(header_insert(hs, n, v) =~= hs.push((n, v)));
    }
}

/// Looking up the name just inserted answers the inserted value.
pub proof fn lemma_header_insert_same(hs: Seq<(Seq<char>, Seq<char>)>, n: Seq<char>, v: Seq<char>)
    ensures
        header_lookup(header_insert(hs, n, v), n) == Option::Some(v),
    decreases hs.len(),
{
    if hs.len() == 0 {
    } else if hs[0].0 == n {
        assert((seq![(n, v)] + hs.drop_first())[0] == (n, v));
    } else {
        lemma_header_insert_same(hs.drop_first(), n, v);
        assert((seq![hs[0]] + header_insert(hs.drop_first(), n, v)).drop_first() =~= header_insert(
            hs.drop_first(),
            n,
            v,
        ));
    }
}

/// Inserting one name leaves every other name's value alone.
pub proof fn lemma_header_insert_other(
    hs: Seq<(Seq<char>, Seq<char>)>,
    n: Seq<char>,
    v: Seq<char>,
    other: Seq<char>,
)
    requires
        other != n,
    ensures
        header_lookup(header_insert(hs, n, v), other) == header_lookup(hs, other),
    decreases hs.len(),
{
    if hs.len() == 0 {
        assert((seq![(n, v)])[0] == (n, v));
        assert((seq![(n, v)]).drop_first() =~= Seq::<(Seq<char>, Seq<char>)>::empty());
        assert(header_lookup(Seq::<(Seq<char>, Seq<char>)>::empty(), other) is None);
        assert(header_lookup(header_insert(hs, n, v), other) is None);
        assert(header_lookup(hs, other) is None);
    } else if hs[0].0 == n {
        assert((seq![(n, v)] + hs.drop_first())[0] == (n, v));
        assert((seq![(n, v)] + hs.drop_first()).drop_first() =~= hs.drop_first());
        assert(header_lookup(header_insert(hs, n, v), other) == header_lookup(
            hs.drop_first(),
            other,
        ));
        assert(header_lookup(hs, other) == header_lookup(hs.drop_first(), other));
    } else {
        lemma_header_insert_other(hs.drop_first(), n, v, other);
        assert((seq![hs[0]] + header_insert(hs.drop_first(), n, v))[0] == hs[0]);
        assert((seq![hs[0]] + header_insert(hs.drop_first(), n, v)).drop_first() =~= header_insert(
            hs.drop_first(),
            n,
            v,
        ));
        if hs[0].0 == other {
            assert(header_lookup(header_insert(hs, n, v), other) == Option::Some(hs[0].1));
            assert(header_lookup(hs, other) == Option::Some(hs[0].1));
        } else {
            assert(header_lookup(header_insert(hs, n, v), other) == header_lookup(
                header_insert(hs.drop_first(), n, v),
                other,
            ));
            assert(header_lookup(hs, other) == header_lookup(hs.drop_first(), other));
        }
    }
}

proof fn lemma_header_lookup_found(hs: Seq<(Seq<char>, Seq<char>)>, n: Seq<char>, i: int)
    requires
        0 <= i < hs.len(),
        hs[i].0 == n,
        forall|j: int| 0 <= j < i ==> (#[trigger] hs[j]).0 != n,
    ensures
        header_lookup(hs, n) == Option::Some(hs[i].1),
    decreases i,
{
    if i > 0 {
        assert(hs.drop_first()[i - 1].0 == n);
        assert(forall|j: int| 0 <= j < i - 1 ==> (#[trigger] hs.drop_first()[j]).0 != n);
        lemma_header_lookup_found(hs.drop_first(), n, i - 1);
    }
}

proof fn lemma_header_lookup_absent(hs: Seq<(Seq<char>, Seq<char>)>, n: Seq<char>)
    requires
        forall|j: int| 0 <= j < hs.len() ==> (#[trigger] hs[j]).0 != n,
    ensures
        header_lookup(hs, n) is None,
    decreases hs.len(),
{
    if hs.len() > 0 {
        lemma_header_lookup_absent(hs.drop_first(), n);
    }
}

/// Finds a name's value in a header list: the first pair with that name.
pub fn lookup_header(headers: &Vec<(String, String)>, name: &str) -> (r: Option<String>)
    ensures
        match header_lookup(pairs_view(headers@), name@) {
            Option::Some(v) => match r {
                Option::Some(s) => s@ == v,
                Option::None => false,
            },
            Option::None => r is None,
        },
{
    let ghost hv = pairs_view(headers@);
    let name_string = name.to_owned();
    let mut i: usize = 0;
    while i < headers.len()
        invariant
            i <= headers@.len(),
            name_string@ == name@,
            hv == pairs_view(headers@),
            forall|j: int| 0 <= j < i ==> (#[trigger] hv[j]).0 != name@,
        decreases headers@.len() - i,
    {
        let found = headers[i].0 == name_string;
        if found {
            proof {
                lemma_header_lookup_found(hv, name@, i as int);
            }
            return Option::Some(headers[i].1.clone());
        }
        i = i + 1;
    }
    proof {
        lemma_header_lookup_absent(hv, name@);
    }
    Option::None
}

/// The outbound message value.
#[derive(Debug)]
pub struct ComposableMessage {
    pub headers: Vec<(String, String)>,
    pub payload: Vec<u8>,
    pub msg_id: Option<String>,
}

impl ComposableMessage {
    /// The headers as pairs of character sequences.
    pub open spec fn headers_view(&self) -> Seq<(Seq<char>, Seq<char>)> {
        pairs_view(self.headers@)
    }

    /// The dedup id as a character sequence.
    pub open spec fn msg_id_view(&self) -> Option<Seq<char>> {
        match self.msg_id {
            Option::Some(ref s) => Option::Some(s@),
            Option::None => Option::None,
        }
    }

    /// An empty message: no headers, no payload, no dedup id.
    pub fn new() -> (m: Self)
        ensures
            m.headers_view() =~= Seq::<(Seq<char>, Seq<char>)>::empty(),
            m.payload@ =~= Seq::<u8>::empty(),
            m.msg_id is None,
    {
        ComposableMessage { headers: Vec::new(), payload: Vec::new(), msg_id: Option::None }
    }

    /// Inserts a header, replacing an existing one of the same name.
    pub fn insert_header(&mut self, name: &str, value: &str)
        ensures
            final(self).headers_view() == header_insert(old(self).headers_view(), name@, value@),
            final(self).payload == old(self).payload,
            final(self).msg_id == old(self).msg_id,
    {
        let ghost orig = self.headers_view();
        let name_string = name.to_owned();
        let mut i: usize = 0;
        while i < self.headers.len()
            invariant
                i <= self.headers@.len(),
                name_string@ == name@,
                orig == pairs_view(self.headers@),
                orig == old(self).headers_view(),
                self.payload == old(self).payload,
                self.msg_id == old(self).msg_id,
                forall|j: int| 0 <= j < i ==> (#[trigger] orig[j]).0 != name@,
            decreases self.headers@.len() - i,
        {
            let found = self.headers[i].0 == name_string;
            if found {
                self.headers.remove(i);
                self.headers.insert(i, (name_string, value.to_owned()));
                proof {
                    lemma_header_insert_found(orig, name@, value@, i as int);
                    assert(pairs_view(self.headers@) =~= orig.update(i as int, (name@, value@)));
                }
                return;
            }
            i = i + 1;
        }
        self.headers.push((name_string, value.to_owned()));
        proof {
            lemma_header_insert_absent(orig, name@, value@);
            assert(pairs_view(self.headers@) =~= orig.push((name@, value@)));
        }
    }

    /// Builder form of `insert_header`.
    pub fn with_header(self, name: &str, value: &str) -> (m: Self)
        ensures
            m.headers_view() == header_insert(self.headers_view(), name@, value@),
            m.payload == self.payload,
            m.msg_id == self.msg_id,
    {
        let mut m = self;
        m.insert_header(name, value);
        m
    }

    /// Replaces the payload.
    pub fn with_payload(self, payload: Vec<u8>) -> (m: Self)
        ensures
            m.payload@ == payload@,
            m.headers_view() == self.headers_view(),
            m.msg_id == self.msg_id,
    {
        ComposableMessage { headers: self.headers, payload, msg_id: self.msg_id }
    }

    /// Sets the broker-level dedup id.
    pub fn with_msg_id(self, msg_id: &str) -> (m: Self)
        ensures
            m.msg_id_view() == Option::Some(msg_id@),
            m.headers_view() == self.headers_view(),
            m.payload == self.payload,
    {
        ComposableMessage {
            headers: self.headers,
            payload: self.payload,
            msg_id: Option::Some(msg_id.to_owned()),
        }
    }
}

} // verus!
