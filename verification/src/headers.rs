use vstd::prelude::*;

verus! {

/// Mathematical image of a list of owned name/value pairs.
pub open spec fn pairs_view(v: Seq<(Vec<u8>, Vec<u8>)>) -> Seq<(Seq<u8>, Seq<u8>)> {
    v.map_values(|p: (Vec<u8>, Vec<u8>)| (p.0@, p.1@))
}

/// Mathematical image of a list of owned byte strings.
pub open spec fn bytes_view(v: Seq<Vec<u8>>) -> Seq<Seq<u8>> {
    v.map_values(|b: Vec<u8>| b@)
}

/// A byte allowed in a header name: a token character of the header
/// grammar — an ASCII letter or digit, or one of
/// `! # $ % & ' * + - . ^ _ ` | ~`.
pub open spec fn header_name_byte_ok(b: u8) -> bool {
    ||| 48 <= b && b <= 57
    ||| 97 <= b && b <= 122
    ||| 65 <= b && b <= 90
    ||| b == 33
    ||| b == 35
    ||| b == 36
    ||| b == 37
    ||| b == 38
    ||| b == 39
    ||| b == 42
    ||| b == 43
    ||| b == 45
    ||| b == 46
    ||| b == 94
    ||| b == 95
    ||| b == 96
    ||| b == 124
    ||| b == 126
}

/// A syntactically valid header name: non-empty, at most 65535 bytes, every
/// byte a token character.
pub open spec fn valid_header_name(s: Seq<u8>) -> bool {
    1 <= s.len() <= 65535 && forall|i: int| 0 <= i < s.len() ==> header_name_byte_ok(s[i])
}

/// A byte allowed in a header value: anything but a control byte, except
/// that horizontal tab is allowed.
pub open spec fn header_value_byte_ok(b: u8) -> bool {
    (32 <= b && b != 127) || b == 9
}

/// A valid header value: raw bytes are permitted, but no forbidden control
/// bytes.
pub open spec fn valid_header_value(s: Seq<u8>) -> bool {
    forall|i: int| 0 <= i < s.len() ==> header_value_byte_ok(s[i])
}

/// Lower-case image of an ASCII byte; every other byte is unchanged.
pub open spec fn norm_byte(b: u8) -> u8 {
    if 65 <= b && b <= 90 {
        (b + 32) as u8
    } else {
        b
    }
}

/// Case-insensitive equality of two header names, byte for byte.
pub open spec fn name_eq(a: Seq<u8>, b: Seq<u8>) -> bool {
    a.len() == b.len() && forall|i: int| 0 <= i < a.len() ==> norm_byte(a[i]) == norm_byte(b[i])
}

/// First value paired with `name` at or after position `i`, the name compared
/// case-insensitively.
pub open spec fn lookup_from(pairs: Seq<(Seq<u8>, Seq<u8>)>, name: Seq<u8>, i: int) -> Option<
    Seq<u8>,
>
    decreases pairs.len() - i,
{
    if i < 0 || i >= pairs.len() {
        None
    } else if name_eq(pairs[i].0, name) {
        Some(pairs[i].1)
    } else {
        lookup_from(pairs, name, i + 1)
    }
}

/// First value paired with `name` in `pairs`: the lookup rule of the
/// container.
pub open spec fn lookup(pairs: Seq<(Seq<u8>, Seq<u8>)>, name: Seq<u8>) -> Option<Seq<u8>> {
    lookup_from(pairs, name, 0)
}

/// Case-insensitive name equality is reflexive.
pub proof fn lemma_name_eq_reflexive(a: Seq<u8>)
    ensures
        name_eq(a, a),
{
}

/// Lower-case an ASCII byte.
fn norm_byte_exec(b: u8) -> (r: u8)
    ensures
        r == norm_byte(b),
{
    if 65 <= b && b <= 90 {
        b + 32
    } else {
        b
    }
}

/// Compare two header names case-insensitively.
pub fn names_equal(a: &[u8], b: &[u8]) -> (r: bool)
    ensures
        r == name_eq(a@, b@),
{
    if a.len() != b.len() {
        return false;
    }
    let mut i: usize = 0;
    while i < a.len()
        invariant
            0 <= i <= a@.len(),
            a@.len() == b@.len(),
            forall|j: int| 0 <= j < i ==> norm_byte(a@[j]) == norm_byte(b@[j]),
        decreases a@.len() - i,
    {
        if norm_byte_exec(a[i]) != norm_byte_exec(b[i]) {
            return false;
        }
        i = i + 1;
    }
    true
}

/// Copy a byte vector.
pub fn clone_bytes(v: &Vec<u8>) -> (r: Vec<u8>)
    ensures
        r@ == v@,
{
    let mut r: Vec<u8> = Vec::new();
    let mut i: usize = 0;
    while i < v.len()
        invariant
            0 <= i <= v@.len(),
            r@ == v@.subrange(0, i as int),
        decreases v@.len() - i,
    {
        r.push(v[i]);
        proof {
            assert(r@ =~= v@.subrange(0, i + 1));
        }
        i = i + 1;
    }
    proof {
        assert(r@ =~= v@);
    }
    r
}

/// Copy a list of name/value pairs.
pub fn clone_pairs(v: &Vec<(Vec<u8>, Vec<u8>)>) -> (r: Vec<(Vec<u8>, Vec<u8>)>)
    ensures
        pairs_view(r@) == pairs_view(v@),
{
    let mut r: Vec<(Vec<u8>, Vec<u8>)> = Vec::new();
    let mut i: usize = 0;
    while i < v.len()
        invariant
            0 <= i <= v@.len(),
            r@.len() == i,
            forall|j: int|
                0 <= j < i ==> (#[trigger] r@[j]).0@ == v@[j].0@ && r@[j].1@ == v@[j].1@,
        decreases v@.len() - i,
    {
        let name = clone_bytes(&v[i].0);
        let value = clone_bytes(&v[i].1);
        r.push((name, value));
        i = i + 1;
    }
    proof {
        assert(pairs_view(r@) =~= pairs_view(v@));
    }
    r
}

/// Concatenate two pair lists into a fresh one, first list first.
pub fn concat_pairs(a: &Vec<(Vec<u8>, Vec<u8>)>, b: &Vec<(Vec<u8>, Vec<u8>)>) -> (r: Vec<
    (Vec<u8>, Vec<u8>),
>)
    ensures
        pairs_view(r@) == pairs_view(a@) + pairs_view(b@),
{
    let mut r: Vec<(Vec<u8>, Vec<u8>)> = Vec::new();
    let mut i: usize = 0;
    while i < a.len()
        invariant
            0 <= i <= a@.len(),
            r@.len() == i,
            forall|j: int|
                0 <= j < i ==> (#[trigger] r@[j]).0@ == a@[j].0@ && r@[j].1@ == a@[j].1@,
        decreases a@.len() - i,
    {
        let name = clone_bytes(&a[i].0);
        let value = clone_bytes(&a[i].1);
        r.push((name, value));
        i = i + 1;
    }
    let mut k: usize = 0;
    while k < b.len()
        invariant
            0 <= k <= b@.len(),
            r@.len() == a@.len() + k,
            forall|j: int|
                0 <= j < a@.len() ==> (#[trigger] r@[j]).0@ == a@[j].0@ && r@[j].1@ == a@[j].1@,
            forall|j: int|
                0 <= j < k ==> r@[a@.len() + j].0@ == (#[trigger] b@[j]).0@ && r@[a@.len()
                    + j].1@ == b@[j].1@,
        decreases b@.len() - k,
    {
        let name = clone_bytes(&b[k].0);
        let value = clone_bytes(&b[k].1);
        r.push((name, value));
        k = k + 1;
    }
    proof {
        assert forall|t: int|
            0 <= t < pairs_view(r@).len() implies pairs_view(r@)[t] == (pairs_view(a@)
            + pairs_view(b@))[t] by {
            if t >= a@.len() {
                let j = t - a@.len();
                assert(r@[a@.len() + j].0@ == b@[j].0@ && r@[a@.len() + j].1@ == b@[j].1@);
            }
        }
        assert(pairs_view(r@) =~= pairs_view(a@) + pairs_view(b@));
    }
    r
}

/// Case-insensitive byte-keyed multimap with ordered iteration: lookup by
/// name returns the first matching value; iteration is in insertion order.
/// Read-only after construction.
pub struct Headers {
    pairs: Vec<(Vec<u8>, Vec<u8>)>,
}

impl View for Headers {
    type V = Seq<(Seq<u8>, Seq<u8>)>;

    closed spec fn view(&self) -> Seq<(Seq<u8>, Seq<u8>)> {
        pairs_view(self.pairs@)
    }
}

impl Headers {
    /// Wrap an ordered list of name/value pairs, as the transport or the
    /// caller supplied them.
    pub fn new(pairs: Vec<(Vec<u8>, Vec<u8>)>) -> (r: Headers)
        ensures
            r@ == pairs_view(pairs@),
    {
        Headers { pairs }
    }

    /// A value-equal copy, so several readers never contend.
    pub fn duplicate(&self) -> (r: Headers)
        ensures
            r@ == self@,
    {
        Headers { pairs: clone_pairs(&self.pairs) }
    }

    /// The pairs as one owned list, in insertion order.
    pub fn to_pairs(&self) -> (r: Vec<(Vec<u8>, Vec<u8>)>)
        ensures
            pairs_view(r@) == self@,
    {
        clone_pairs(&self.pairs)
    }

    /// Indexed lookup: the first value under `key`, or `None` for a missing
    /// key (an embedding re-raises that as a key lookup failure).
    pub fn __getitem__(&self, key: &[u8]) -> (r: Option<Vec<u8>>)
        ensures
            r matches Some(v) ==> lookup(self@, key@) == Some(v@),
            r is None ==> lookup(self@, key@) is None,
    {
        let mut i: usize = 0;
        while i < self.pairs.len()
            invariant
                0 <= i <= self.pairs@.len(),
                self@.len() == self.pairs@.len(),
                lookup(self@, key@) == lookup_from(self@, key@, i as int),
            decreases self.pairs@.len() - i,
        {
            if names_equal(self.pairs[i].0.as_slice(), key) {
                return Some(clone_bytes(&self.pairs[i].1));
            }
            i = i + 1;
        }
        None
    }

    /// Membership test by name.
    pub fn __contains__(&self, key: &[u8]) -> (r: bool)
        ensures
            r == (lookup(self@, key@) is Some),
    {
        let mut i: usize = 0;
        while i < self.pairs.len()
            invariant
                0 <= i <= self.pairs@.len(),
                self@.len() == self.pairs@.len(),
                lookup(self@, key@) == lookup_from(self@, key@, i as int),
            decreases self.pairs@.len() - i,
        {
            if names_equal(self.pairs[i].0.as_slice(), key) {
                return true;
            }
            i = i + 1;
        }
        false
    }

    /// The first value under `key`, or `default` for a missing key.
    pub fn get(&self, key: &[u8], default: Option<Vec<u8>>) -> (r: Option<Vec<u8>>)
        ensures
            lookup(self@, key@) matches Some(v) ==> (r matches Some(x) && x@ == v),
            lookup(self@, key@) is None ==> r == default,
    {
        match self.__getitem__(key) {
            Some(v) => Some(v),
            None => default,
        }
    }

    /// Iterator over the names, in insertion order, materialized now.
    pub fn keys(&self) -> (r: KeysIterator)
        ensures
            r.remaining() == self@.map_values(|p: (Seq<u8>, Seq<u8>)| p.0),
    {
        let mut items: Vec<Vec<u8>> = Vec::new();
        let mut i: usize = 0;
        while i < self.pairs.len()
            invariant
                0 <= i <= self.pairs@.len(),
                self@.len() == self.pairs@.len(),
                items@.len() == i,
                forall|j: int| 0 <= j < i ==> (#[trigger] items@[j])@ == self.pairs@[j].0@,
            decreases self.pairs@.len() - i,
        {
            items.push(clone_bytes(&self.pairs[i].0));
            i = i + 1;
        }
        let r = KeysIterator { items, pos: 0 };
        proof {
            assert(r.remaining() =~= self@.map_values(|p: (Seq<u8>, Seq<u8>)| p.0));
        }
        r
    }

    /// Iterator over the values, in insertion order, materialized now.
    pub fn values(&self) -> (r: ValuesIterator)
        ensures
            r.remaining() == self@.map_values(|p: (Seq<u8>, Seq<u8>)| p.1),
    {
        let mut items: Vec<Vec<u8>> = Vec::new();
        let mut i: usize = 0;
        while i < self.pairs.len()
            invariant
                0 <= i <= self.pairs@.len(),
                self@.len() == self.pairs@.len(),
                items@.len() == i,
                forall|j: int| 0 <= j < i ==> (#[trigger] items@[j])@ == self.pairs@[j].1@,
            decreases self.pairs@.len() - i,
        {
            items.push(clone_bytes(&self.pairs[i].1));
            i = i + 1;
        }
        let r = ValuesIterator { items, pos: 0 };
        proof {
            assert(r.remaining() =~= self@.map_values(|p: (Seq<u8>, Seq<u8>)| p.1));
        }
        r
    }

    /// Iterator over the name/value pairs, in insertion order, materialized
    /// now.
    pub fn items(&self) -> (r: ItemsIterator)
        ensures
            r.remaining() == self@,
    {
        let items = clone_pairs(&self.pairs);
        let r = ItemsIterator { items, pos: 0 };
        proof {
            assert(r.remaining() =~= pairs_view(self.pairs@));
        }
        r
    }
}

/// One-shot iterator over materialized header names.
pub struct KeysIterator {
    items: Vec<Vec<u8>>,
    pos: usize,
}

impl KeysIterator {
    /// The iteration protocol: an iterator is its own iterator.
    pub fn __iter__(self) -> (r: KeysIterator)
        ensures
            r == self,
    {
        self
    }

    /// The elements not yet handed out.
    pub closed spec fn remaining(&self) -> Seq<Seq<u8>> {
        if self.pos as int <= self.items@.len() {
            bytes_view(self.items@).skip(self.pos as int)
        } else {
            Seq::empty()
        }
    }

    /// The next name, or `None` when the iterator is exhausted.
    pub fn __next__(&mut self) -> (r: Option<Vec<u8>>)
        ensures
            old(self).remaining().len() > 0 ==> (r matches Some(v) && v@ == old(self).remaining()[0]
                && final(self).remaining() == old(self).remaining().skip(1)),
            old(self).remaining().len() == 0 ==> (r is None && final(self).remaining()
                == old(self).remaining()),
    {
        if self.pos < self.items.len() {
            let v = clone_bytes(&self.items[self.pos]);
            proof {
                assert(old(self).remaining()[0] == self.items@[self.pos as int]@);
            }
            self.pos = self.pos + 1;
            proof {
                assert(self.remaining() =~= old(self).remaining().skip(1));
            }
            Some(v)
        } else {
            None
        }
    }
}

/// One-shot iterator over materialized header values.
pub struct ValuesIterator {
    items: Vec<Vec<u8>>,
    pos: usize,
}

impl ValuesIterator {
    /// The iteration protocol: an iterator is its own iterator.
    pub fn __iter__(self) -> (r: ValuesIterator)
        ensures
            r == self,
    {
        self
    }

    /// The elements not yet handed out.
    pub closed spec fn remaining(&self) -> Seq<Seq<u8>> {
        if self.pos as int <= self.items@.len() {
            bytes_view(self.items@).skip(self.pos as int)
        } else {
            Seq::empty()
        }
    }

    /// The next value, or `None` when the iterator is exhausted.
    pub fn __next__(&mut self) -> (r: Option<Vec<u8>>)
        ensures
            old(self).remaining().len() > 0 ==> (r matches Some(v) && v@ == old(self).remaining()[0]
                && final(self).remaining() == old(self).remaining().skip(1)),
            old(self).remaining().len() == 0 ==> (r is None && final(self).remaining()
                == old(self).remaining()),
    {
        if self.pos < self.items.len() {
            let v = clone_bytes(&self.items[self.pos]);
            proof {
                assert(old(self).remaining()[0] == self.items@[self.pos as int]@);
            }
            self.pos = self.pos + 1;
            proof {
                assert(self.remaining() =~= old(self).remaining().skip(1));
            }
            Some(v)
        } else {
            None
        }
    }
}

/// One-shot iterator over materialized header name/value pairs.
pub struct ItemsIterator {
    items: Vec<(Vec<u8>, Vec<u8>)>,
    pos: usize,
}

impl ItemsIterator {
    /// The iteration protocol: an iterator is its own iterator.
    pub fn __iter__(self) -> (r: ItemsIterator)
        ensures
            r == self,
    {
        self
    }

    /// The elements not yet handed out.
    pub closed spec fn remaining(&self) -> Seq<(Seq<u8>, Seq<u8>)> {
        if self.pos as int <= self.items@.len() {
            pairs_view(self.items@).skip(self.pos as int)
        } else {
            Seq::empty()
        }
    }

    /// The next pair, or `None` when the iterator is exhausted.
    pub fn __next__(&mut self) -> (r: Option<(Vec<u8>, Vec<u8>)>)
        ensures
            old(self).remaining().len() > 0 ==> (r matches Some(p) && (p.0@, p.1@) == old(
                self,
            ).remaining()[0] && final(self).remaining() == old(self).remaining().skip(1)),
            old(self).remaining().len() == 0 ==> (r is None && final(self).remaining()
                == old(self).remaining()),
    {
        if self.pos < self.items.len() {
            let name = clone_bytes(&self.items[self.pos].0);
            let value = clone_bytes(&self.items[self.pos].1);
            proof {
                assert(old(self).remaining()[0] == (
                    self.items@[self.pos as int].0@,
                    self.items@[self.pos as int].1@,
                ));
            }
            self.pos = self.pos + 1;
            proof {
                assert(self.remaining() =~= old(self).remaining().skip(1));
            }
            Some((name, value))
        } else {
            None
        }
    }
}

} // verus!
