//! A circuit store that keeps everything in memory.
use vstd::prelude::*;

use crate::model::{with_id, Circuit, CircuitMetadata, CircuitView, MetadataView};
use crate::storage::{Error, Interface};

verus! {

/// The decimal digit for `d`, where `d < 10`.
pub open spec fn digit_char(d: nat) -> char {
    if d == 0 {
        '0'
    } else if d == 1 {
        '1'
    } else if d == 2 {
        '2'
    } else if d == 3 {
        '3'
    } else if d == 4 {
        '4'
    } else if d == 5 {
        '5'
    } else if d == 6 {
        '6'
    } else if d == 7 {
        '7'
    } else if d == 8 {
        '8'
    } else {
        '9'
    }
}

/// The decimal numeral of `n`, without leading zeros.
pub open spec fn decimal(n: nat) -> Seq<char>
    decreases n,
{
    if n < 10 {
        seq![digit_char(n)]
    } else {
        decimal(n / 10).push(digit_char(n % 10))
    }
}

/// The values of a sequence of circuits.
pub open spec fn views(v: Seq<Circuit>) -> Seq<CircuitView> {
    v.map_values(|c: Circuit| c@)
}

/// No two circuits of `s` share an id.
pub open spec fn ids_distinct(s: Seq<CircuitView>) -> bool {
    forall|i: int, j: int|
        0 <= i < s.len() && 0 <= j < s.len() && i != j ==> #[trigger] s[i].metadata.id
            != #[trigger] s[j].metadata.id
}

/// The map from id to circuit that a sequence of stored circuits stands for.
pub open spec fn store_map(s: Seq<CircuitView>) -> Map<Seq<char>, CircuitView>
    decreases s.len(),
{
    if s.len() == 0 {
        Map::empty()
    } else {
        store_map(s.drop_last()).insert(s.last().metadata.id, s.last())
    }
}

/// The circuit that a store holding `m` has under `id`, if any.
pub open spec fn stored(m: Map<Seq<char>, CircuitView>, id: Seq<char>) -> Option<CircuitView> {
    if m.contains_key(id) {
        Some(m[id])
    } else {
        None
    }
}

/// `r` lists the metadata of exactly the circuits of `m` owned by `owner`,
/// each once.
pub open spec fn lists_owned(
    m: Map<Seq<char>, CircuitView>,
    owner: Seq<char>,
    r: Seq<MetadataView>,
) -> bool {
    &&& forall|i: int|
        0 <= i < r.len() ==> {
            &&& m.contains_key(#[trigger] r[i].id)
            &&& m[r[i].id].metadata == r[i]
            &&& r[i].owner == owner
        }
    &&& forall|k: Seq<char>|
        #[trigger] m.contains_key(k) && m[k].metadata.owner == owner ==> exists|i: int|
            0 <= i < r.len() && r[i].id == k
    &&& forall|i: int, j: int|
        0 <= i < r.len() && 0 <= j < r.len() && i != j ==> #[trigger] r[i].id != #[trigger] r[j].id
}

proof fn lemma_store_map_dom(s: Seq<CircuitView>, k: Seq<char>)
    ensures
        store_map(s).contains_key(k) <==> exists|i: int| 0 <= i < s.len() && s[i].metadata.id == k,
    decreases s.len(),
{
    if s.len() > 0 {
        let t = s.drop_last();
        lemma_store_map_dom(t, k);
        if store_map(s).contains_key(k) {
            if k == s.last().metadata.id {
                assert(s[s.len() - 1].metadata.id == k);
            } else {
                let i = choose|i: int| 0 <= i < t.len() && t[i].metadata.id == k;
                assert(s[i].metadata.id == k);
            }
        }
        if exists|i: int| 0 <= i < s.len() && s[i].metadata.id == k {
            let i = choose|i: int| 0 <= i < s.len() && s[i].metadata.id == k;
            if i < s.len() - 1 {
                assert(t[i].metadata.id == k);
            }
        }
    }
}

proof fn lemma_store_map_value(s: Seq<CircuitView>, i: int)
    requires
        ids_distinct(s),
        0 <= i < s.len(),
    ensures
        store_map(s).contains_key(s[i].metadata.id),
        store_map(s)[s[i].metadata.id] == s[i],
    decreases s.len(),
{
    if i < s.len() - 1 {
        let t = s.drop_last();
        assert(s[i].metadata.id != s[s.len() - 1].metadata.id);
        assert(ids_distinct(t)) by {
            assert forall|a: int, b: int|
                0 <= a < t.len() && 0 <= b < t.len() && a != b implies #[trigger] t[a].metadata.id
                != #[trigger] t[b].metadata.id by {
                assert(t[a] == s[a] && t[b] == s[b]);
            }
        }
        assert(t[i] == s[i]);
        lemma_store_map_value(t, i);
    }
}

proof fn lemma_store_map_update(s: Seq<CircuitView>, i: int, c: CircuitView)
    requires
        ids_distinct(s),
        0 <= i < s.len(),
        c.metadata.id == s[i].metadata.id,
    ensures
        ids_distinct(s.update(i, c)),
        store_map(s.update(i, c)) == store_map(s).insert(c.metadata.id, c),
{
    let t = s.update(i, c);
    assert(ids_distinct(t)) by {
        assert forall|a: int, b: int|
            0 <= a < t.len() && 0 <= b < t.len() && a != b implies #[trigger] t[a].metadata.id
            != #[trigger] t[b].metadata.id by {
            assert(s[a].metadata.id != s[b].metadata.id);
        }
    }
    let m = store_map(s).insert(c.metadata.id, c);
    assert forall|k: Seq<char>| #[trigger] store_map(t).contains_key(k) <==> m.contains_key(k) by {
        lemma_store_map_dom(s, k);
        lemma_store_map_dom(t, k);
        if m.contains_key(k) && k != c.metadata.id {
            let j = choose|j: int| 0 <= j < s.len() && s[j].metadata.id == k;
            assert(t[j].metadata.id == k);
        }
        if k == c.metadata.id {
            assert(t[i].metadata.id == k);
        }
        if store_map(t).contains_key(k) {
            let j = choose|j: int| 0 <= j < t.len() && t[j].metadata.id == k;
            if j != i {
                assert(s[j].metadata.id == k);
            }
        }
    }
    assert forall|k: Seq<char>| #[trigger] store_map(t).contains_key(k) implies store_map(t)[k]
        == m[k] by {
        lemma_store_map_dom(t, k);
        let j = choose|j: int| 0 <= j < t.len() && t[j].metadata.id == k;
        lemma_store_map_value(t, j);
        if j != i {
            lemma_store_map_value(s, j);
        }
    }
    assert(store_map(t) =~= m);
}

proof fn lemma_store_map_remove(s: Seq<CircuitView>, i: int)
    requires
        ids_distinct(s),
        0 <= i < s.len(),
    ensures
        ids_distinct(s.remove(i)),
        store_map(s.remove(i)) == store_map(s).remove(s[i].metadata.id),
{
    let t = s.remove(i);
    let id = s[i].metadata.id;
    assert(ids_distinct(t)) by {
        assert forall|a: int, b: int|
            0 <= a < t.len() && 0 <= b < t.len() && a != b implies #[trigger] t[a].metadata.id
            != #[trigger] t[b].metadata.id by {
            let sa = if a < i {
                a
            } else {
                a + 1
            };
            let sb = if b < i {
                b
            } else {
                b + 1
            };
            assert(t[a] == s[sa] && t[b] == s[sb]);
        }
    }
    let m = store_map(s).remove(id);
    assert forall|k: Seq<char>| #[trigger] store_map(t).contains_key(k) <==> m.contains_key(k) by {
        lemma_store_map_dom(s, k);
        lemma_store_map_dom(t, k);
        if m.contains_key(k) {
            let j = choose|j: int| 0 <= j < s.len() && s[j].metadata.id == k;
            assert(j != i);
            if j < i {
                assert(t[j].metadata.id == k);
            } else {
                assert(t[j - 1].metadata.id == k);
            }
        }
        if store_map(t).contains_key(k) {
            let j = choose|j: int| 0 <= j < t.len() && t[j].metadata.id == k;
            let sj = if j < i {
                j
            } else {
                j + 1
            };
            assert(t[j] == s[sj]);
            assert(s[sj].metadata.id != id);
        }
    }
    assert forall|k: Seq<char>| #[trigger] store_map(t).contains_key(k) implies store_map(t)[k]
        == m[k] by {
        lemma_store_map_dom(t, k);
        let j = choose|j: int| 0 <= j < t.len() && t[j].metadata.id == k;
        let sj = if j < i {
            j
        } else {
            j + 1
        };
        assert(t[j] == s[sj]);
        lemma_store_map_value(t, j);
        lemma_store_map_value(s, sj);
    }
    assert(store_map(t) =~= m);
}

proof fn lemma_store_map_push(s: Seq<CircuitView>, c: CircuitView)
    requires
        ids_distinct(s),
        !store_map(s).contains_key(c.metadata.id),
    ensures
        ids_distinct(s.push(c)),
        store_map(s.push(c)) == store_map(s).insert(c.metadata.id, c),
{
    let t = s.push(c);
    lemma_store_map_dom(s, c.metadata.id);
    assert(ids_distinct(t)) by {
        assert forall|a: int, b: int|
            0 <= a < t.len() && 0 <= b < t.len() && a != b implies #[trigger] t[a].metadata.id
            != #[trigger] t[b].metadata.id by {
            if a < s.len() && b < s.len() {
                assert(t[a] == s[a] && t[b] == s[b]);
            } else if a < s.len() {
                assert(t[a] == s[a]);
            } else {
                assert(t[b] == s[b]);
            }
        }
    }
    assert(t.drop_last() =~= s);
}

/// The single decimal digit `d` as a string.
fn digit_str(d: u128) -> (s: &'static str)
    requires
        d < 10,
    ensures
        s@ == seq![digit_char(d as nat)],
{
    if d == 0 {
        proof {
            reveal_strlit("0");
        }
        "0"
    } else if d == 1 {
        proof {
            reveal_strlit("1");
        }
        "1"
    } else if d == 2 {
        proof {
            reveal_strlit("2");
        }
        "2"
    } else if d == 3 {
        proof {
            reveal_strlit("3");
        }
        "3"
    } else if d == 4 {
        proof {
            reveal_strlit("4");
        }
        "4"
    } else if d == 5 {
        proof {
            reveal_strlit("5");
        }
        "5"
    } else if d == 6 {
        proof {
            reveal_strlit("6");
        }
        "6"
    } else if d == 7 {
        proof {
            reveal_strlit("7");
        }
        "7"
    } else if d == 8 {
        proof {
            reveal_strlit("8");
        }
        "8"
    } else {
        proof {
            reveal_strlit("9");
        }
        "9"
    }
}

/// The decimal numeral of `n`, as the stores write numeric circuit ids.
pub fn decimal_string(n: u128) -> (s: String)
    ensures
        s@ == decimal(n as nat),
    decreases n,
{
    if n < 10 {
        String::from_str(digit_str(n))
    } else {
        let mut s = decimal_string(n / 10);
        s.append(digit_str(n % 10));
        s
    }
}

/// Distinct numbers have distinct decimal numerals.
pub proof fn lemma_decimal_injective(a: nat, b: nat)
    requires
        a != b,
    ensures
        decimal(a) != decimal(b),
    decreases a + b,
{
    if a < 10 && b < 10 {
        assert(decimal(a)[0] != decimal(b)[0]);
    } else if a < 10 {
        lemma_decimal_len(b / 10);
        assert(decimal(b).len() >= 2);
        assert(decimal(a).len() == 1);
    } else if b < 10 {
        lemma_decimal_len(a / 10);
        assert(decimal(a).len() >= 2);
        assert(decimal(b).len() == 1);
    } else {
        let da = decimal(a);
        let db = decimal(b);
        if a % 10 != b % 10 {
            assert(da[da.len() - 1] != db[db.len() - 1]);
        } else {
            assert(a / 10 != b / 10);
            lemma_decimal_injective(a / 10, b / 10);
            if da == db {
                assert(da.drop_last() =~= decimal(a / 10));
                assert(db.drop_last() =~= decimal(b / 10));
            }
        }
    }
}

proof fn lemma_decimal_len(n: nat)
    ensures
        decimal(n).len() >= 1,
    decreases n,
{
    if n >= 10 {
        lemma_decimal_len(n / 10);
    }
}

/// The number that a decimal digit stands for.
pub open spec fn digit_value(c: char) -> int {
    if c == '0' {
        0
    } else if c == '1' {
        1
    } else if c == '2' {
        2
    } else if c == '3' {
        3
    } else if c == '4' {
        4
    } else if c == '5' {
        5
    } else if c == '6' {
        6
    } else if c == '7' {
        7
    } else if c == '8' {
        8
    } else {
        9
    }
}

/// `c` is one of the digits `0` to `9`.
pub open spec fn is_digit(c: char) -> bool {
    '0' <= c && c <= '9'
}

/// The number that a string of decimal digits stands for, read from the left.
pub open spec fn numeral_value(s: Seq<char>) -> int
    decreases s.len(),
{
    if s.len() == 0 {
        0
    } else {
        numeral_value(s.drop_last()) * 10 + digit_value(s.last())
    }
}

/// The numeral of `n` is a non-empty string of decimal digits that reads
/// back as `n`, with no leading zero.
pub proof fn lemma_decimal_reads_back(n: nat)
    ensures
        decimal(n).len() >= 1,
        forall|i: int| 0 <= i < decimal(n).len() ==> is_digit(#[trigger] decimal(n)[i]),
        numeral_value(decimal(n)) == n,
        n > 0 ==> decimal(n)[0] != '0',
    decreases n,
{
    if n >= 10 {
        lemma_decimal_reads_back(n / 10);
        let s = decimal(n);
        assert(s.drop_last() =~= decimal(n / 10));
        assert forall|i: int| 0 <= i < s.len() implies is_digit(#[trigger] s[i]) by {
            if i < s.len() - 1 {
                assert(s[i] == decimal(n / 10)[i]);
            }
        }
        assert(s[0] == decimal(n / 10)[0]);
        assert(s.last() == digit_char(n % 10));
        assert(digit_value(digit_char(n % 10)) == n % 10);
        assert(n == (n / 10) * 10 + n % 10);
    } else {
        assert(decimal(n).drop_last() =~= Seq::<char>::empty());
        assert(numeral_value(Seq::<char>::empty()) == 0);
        assert(digit_value(digit_char(n)) == n);
    }
}

/// An in-memory circuit store. New circuits get the ids "1", "2", "3", ... in
/// the order in which they are created. The circuits are kept in a vector in
/// which no id occurs twice: the specifications of `HashMap` say nothing of
/// maps keyed by `String`.
pub struct MemInterface {
    circuits: Vec<Circuit>,
    idx: u32,
}

impl View for MemInterface {
    type V = Map<Seq<char>, CircuitView>;

    /// The stored circuits, by id.
    closed spec fn view(&self) -> Map<Seq<char>, CircuitView> {
        store_map(views(self.circuits@))
    }
}

impl MemInterface {
    #[verifier::type_invariant]
    spec fn inv(self) -> bool {
        ids_distinct(views(self.circuits@))
    }

    /// How many new circuits this store has created so far.
    pub closed spec fn issued(&self) -> nat {
        self.idx as nat
    }

    /// An empty store that has created no circuit yet.
    pub fn new() -> (r: MemInterface)
        ensures
            r@ == Map::<Seq<char>, CircuitView>::empty(),
            r.issued() == 0,
    {
        let r = MemInterface { circuits: Vec::new(), idx: 0 };
        assert(views(r.circuits@) =~= Seq::<CircuitView>::empty());
        r
    }

    /// The position of the circuit stored under `id`, if any.
    fn find(&self, id: &String) -> (r: Option<usize>)
        ensures
            match r {
                Some(i) => i < self.circuits@.len() && self.circuits@[i as int].metadata.id@
                    == id@,
                None => !self@.contains_key(id@),
            },
    {
        let mut i: usize = 0;
        while i < self.circuits.len()
            invariant
                0 <= i <= self.circuits@.len(),
                forall|j: int| 0 <= j < i ==> self.circuits@[j].metadata.id@ != id@,
            decreases self.circuits@.len() - i,
        {
            if self.circuits[i].metadata.id == *id {
                return Some(i);
            }
            i += 1;
        }
        proof {
            lemma_store_map_dom(views(self.circuits@), id@);
            if self@.contains_key(id@) {
                let j = choose|j: int|
                    0 <= j < views(self.circuits@).len() && views(self.circuits@)[j].metadata.id
                        == id@;
                assert(self.circuits@[j].metadata.id@ == id@);
            }
        }
        None
    }

    /// Stores `c` under its id, replacing what was stored there.
    fn store(&mut self, c: Circuit)
        ensures
            final(self)@ == old(self)@.insert(c@.metadata.id, c@),
            final(self).issued() == old(self).issued(),
    {
        proof {
            use_type_invariant(&*self);
        }
        let ghost s = views(self.circuits@);
        let ghost cv = c@;
        let found = self.find(&c.metadata.id);
        let mut v: Vec<Circuit> = Vec::new();
        std::mem::swap(&mut v, &mut self.circuits);
        match found {
            Some(i) => {
                proof {
                    lemma_store_map_update(s, i as int, cv);
                }
                v.set(i, c);
                assert(views(v@) =~= s.update(i as int, cv));
            },
            None => {
                proof {
                    lemma_store_map_push(s, cv);
                }
                v.push(c);
                assert(views(v@) =~= s.push(cv));
            },
        }
        self.circuits = v;
    }
}

impl Interface for MemInterface {
    /// A load gives the circuit stored under `id`, whose own id is `id`, or
    /// says that there is none.
    open spec fn loads(&self, id: String, r: Result<Circuit, Error>) -> bool {
        match stored(self@, id@) {
            Some(c) => (r matches Ok(x) && x@ == c && c.metadata.id == id@),
            None => r == Err::<Circuit, Error>(Error::CircuitIdNotFound(id)),
        }
    }

    /// A listing gives exactly the owner's circuits, each once.
    open spec fn lists(&self, owner: String, r: Result<Vec<CircuitMetadata>, Error>) -> bool {
        r matches Ok(v) && lists_owned(self@, owner@, v@.map_values(|m: CircuitMetadata| m@))
    }

    /// An update always succeeds, and leaves `c` stored under its id.
    open spec fn updates(&self, c: Circuit, r: Result<(), Error>, after: &Self) -> bool {
        &&& r is Ok
        &&& after@ == self@.insert(c@.metadata.id, c@)
        &&& after.issued() == self.issued()
    }

    /// A creation gives `c` under the numeral of the next count, and stores it
    /// there, while the counter lasts; after that it fails and changes nothing.
    open spec fn creates(&self, c: Circuit, r: Result<Circuit, Error>, after: &Self) -> bool {
        let id = decimal(self.issued() + 1);
        if self.issued() < u32::MAX {
            &&& r matches Ok(n) && n@ == with_id(c@, id)
            &&& after@ == self@.insert(id, with_id(c@, id))
            &&& after.issued() == self.issued() + 1
        } else {
            &&& r matches Err(Error::Other(m)) && m@ == "circuit id counter exhausted"@
            &&& after@ == self@
            &&& after.issued() == self.issued()
        }
    }

    /// A delete succeeds, and removes the circuit, where a circuit is stored
    /// under `id`; elsewhere it fails and changes nothing.
    open spec fn deletes(&self, id: String, r: Result<(), Error>, after: &Self) -> bool {
        &&& if self@.contains_key(id@) {
            r is Ok && after@ == self@.remove(id@)
        } else {
            r == Err::<(), Error>(Error::CircuitIdNotFound(id)) && after@ == self@
        }
        &&& after.issued() == self.issued()
    }

    fn load_circuit(&self, id: String) -> (r: Result<Circuit, Error>)
        ensures
            match stored(self@, id@) {
                Some(c) => (r matches Ok(x) && x@ == c && c.metadata.id == id@),
                None => r == Err::<Circuit, Error>(Error::CircuitIdNotFound(id)),
            },
    {
        proof {
            use_type_invariant(self);
        }
        match self.find(&id) {
            Some(i) => {
                proof {
                    lemma_store_map_value(views(self.circuits@), i as int);
                }
                Ok(self.circuits[i].clone())
            },
            None => Err(Error::CircuitIdNotFound(id)),
        }
    }

    fn enumerate_circuits(&self, id: String) -> (r: Result<Vec<CircuitMetadata>, Error>)
        ensures
            (r matches Ok(v) && lists_owned(self@, id@, v@.map_values(|m: CircuitMetadata| m@))),
    {
        proof {
            use_type_invariant(self);
        }
        let ghost s = views(self.circuits@);
        let mut circs: Vec<CircuitMetadata> = Vec::new();
        let ghost mut src: Seq<int> = Seq::empty();
        let mut i: usize = 0;
        while i < self.circuits.len()
            invariant
                0 <= i <= self.circuits@.len(),
                s == views(self.circuits@),
                ids_distinct(s),
                src.len() == circs@.len(),
                forall|a: int| 0 <= a < src.len() ==> 0 <= #[trigger] src[a] < i,
                forall|a: int, b: int| 0 <= a < b < src.len() ==> #[trigger] src[a] < #[trigger] src[b],
                forall|a: int|
                    0 <= a < src.len() ==> {
                        &&& #[trigger] circs@[a]@ == s[src[a]].metadata
                        &&& s[src[a]].metadata.owner == id@
                    },
                forall|j: int|
                    0 <= j < i && #[trigger] s[j].metadata.owner == id@ ==> exists|a: int|
                        0 <= a < src.len() && src[a] == j,
            decreases self.circuits@.len() - i,
        {
            let ghost old_src = src;
            let is_owner = self.circuits[i].metadata.owner == id;
            if is_owner {
                let md = self.circuits[i].metadata.clone();
                proof {
                    src = src.push(i as int);
                }
                circs.push(md);
            }
            i += 1;
            proof {
                assert forall|j: int|
                    0 <= j < i && #[trigger] s[j].metadata.owner == id@ implies exists|a: int|
                    0 <= a < src.len() && src[a] == j by {
                    if j == i - 1 {
                        assert(s[j] == self.circuits@[j]@);
                        assert(is_owner);
                        assert(src[src.len() - 1] == j);
                    } else {
                        let a = choose|a: int| 0 <= a < old_src.len() && old_src[a] == j;
                        assert(src[a] == j);
                    }
                }
            }
        }
        proof {
            let r = circs@.map_values(|m: CircuitMetadata| m@);
            let m = self@;
            assert forall|a: int| 0 <= a < r.len() implies {
                &&& m.contains_key(#[trigger] r[a].id)
                &&& m[r[a].id].metadata == r[a]
                &&& r[a].owner == id@
            } by {
                assert(r[a] == circs@[a]@);
                lemma_store_map_value(s, src[a]);
            }
            assert forall|k: Seq<char>|
                #[trigger] m.contains_key(k) && m[k].metadata.owner == id@ implies exists|a: int|
                0 <= a < r.len() && r[a].id == k by {
                lemma_store_map_dom(s, k);
                let j = choose|j: int| 0 <= j < s.len() && s[j].metadata.id == k;
                lemma_store_map_value(s, j);
                assert(s[j].metadata.owner == id@);
                let a = choose|a: int| 0 <= a < src.len() && src[a] == j;
                assert(r[a] == circs@[a]@);
            }
            assert forall|a: int, b: int|
                0 <= a < r.len() && 0 <= b < r.len() && a != b implies #[trigger] r[a].id
                != #[trigger] r[b].id by {
                assert(r[a] == circs@[a]@ && r[b] == circs@[b]@);
                if a < b {
                    assert(src[a] < src[b]);
                } else {
                    assert(src[b] < src[a]);
                }
                assert(s[src[a]].metadata.id != s[src[b]].metadata.id);
            }
        }
        Ok(circs)
    }

    fn update_circuit(&mut self, c: &Circuit) -> (r: Result<(), Error>)
        ensures
            r is Ok,
            final(self)@ == old(self)@.insert(c@.metadata.id, c@),
            final(self).issued() == old(self).issued(),
    {
        self.store(c.clone());
        Ok(())
    }

    fn new_circuit(&mut self, c: Circuit) -> (r: Result<Circuit, Error>)
        ensures
            old(self).issued() < u32::MAX ==> {
                &&& (r matches Ok(n) && n@ == with_id(c@, decimal(old(self).issued() + 1)))
                &&& final(self)@ == old(self)@.insert(
                    decimal(old(self).issued() + 1),
                    with_id(c@, decimal(old(self).issued() + 1)),
                )
                &&& final(self).issued() == old(self).issued() + 1
            },
            old(self).issued() >= u32::MAX ==> {
                &&& (r matches Err(Error::Other(m)) && m@ == "circuit id counter exhausted"@)
                &&& final(self)@ == old(self)@
                &&& final(self).issued() == old(self).issued()
            },
    {
        let mut c = c;
        if self.idx == u32::MAX {
            return Err(Error::Other(String::from_str("circuit id counter exhausted")));
        }
        proof {
            use_type_invariant(&*self);
        }
        self.idx = self.idx + 1;
        let new_id = decimal_string(self.idx as u128);
        c.metadata.id = new_id;
        let stored = c.clone();
        self.store(stored);
        Ok(c)
    }

    fn delete_circuit(&mut self, id: String) -> (r: Result<(), Error>)
        ensures
            old(self)@.contains_key(id@) ==> r is Ok && final(self)@ == old(self)@.remove(id@),
            !old(self)@.contains_key(id@) ==> r == Err::<(), Error>(Error::CircuitIdNotFound(id))
                && final(self)@ == old(self)@,
            final(self).issued() == old(self).issued(),
    {
        proof {
            use_type_invariant(&*self);
        }
        match self.find(&id) {
            Some(i) => {
                let ghost s = views(self.circuits@);
                proof {
                    lemma_store_map_remove(s, i as int);
                    lemma_store_map_value(s, i as int);
                }
                let mut v: Vec<Circuit> = Vec::new();
                std::mem::swap(&mut v, &mut self.circuits);
                let _removed = v.remove(i);
                assert(views(v@) =~= s.remove(i as int));
                self.circuits = v;
                Ok(())
            },
            None => Err(Error::CircuitIdNotFound(id)),
        }
    }
}

/// What an update writes, a load reads back: after storing `c`, the circuit
/// under `c`'s id is `c`.
pub proof fn lemma_load_after_update(m: Map<Seq<char>, CircuitView>, c: CircuitView)
    ensures
        stored(m.insert(c.metadata.id, c), c.metadata.id) == Some(c),
{
}

/// Storing a circuit leaves the circuits under every other id as they were.
pub proof fn lemma_update_leaves_others(
    m: Map<Seq<char>, CircuitView>,
    c: CircuitView,
    id: Seq<char>,
)
    requires
        id != c.metadata.id,
    ensures
        stored(m.insert(c.metadata.id, c), id) == stored(m, id),
{
}

/// After a delete of `id`, nothing is stored under `id`, and every other id
/// holds what it held.
pub proof fn lemma_load_after_delete(
    m: Map<Seq<char>, CircuitView>,
    id: Seq<char>,
    other: Seq<char>,
)
    ensures
        stored(m.remove(id), id) is None,
        other != id ==> stored(m.remove(id), other) == stored(m, other),
{
}

/// A new circuit can be loaded back under the id that its creation returned:
/// the store that had created `n` circuits holds `c` under the numeral of `n + 1`.
pub proof fn lemma_load_after_create(m: Map<Seq<char>, CircuitView>, n: nat, c: CircuitView)
    ensures
        stored(m.insert(decimal(n + 1), with_id(c, decimal(n + 1))), decimal(n + 1)) == Some(
            with_id(c, decimal(n + 1)),
        ),
        with_id(c, decimal(n + 1)).metadata.id == decimal(n + 1),
{
}

/// The ids that one store gives its new circuits are pairwise distinct: the
/// `a`-th and the `b`-th creation give different ids.
pub proof fn lemma_created_ids_distinct(a: nat, b: nat)
    requires
        1 <= a < b,
    ensures
        decimal(a) != decimal(b),
{
    lemma_decimal_injective(a, b);
}

/// A circuit just stored is listed among the circuits of its owner.
pub proof fn lemma_enumerate_after_update(
    m: Map<Seq<char>, CircuitView>,
    c: CircuitView,
    r: Seq<MetadataView>,
)
    requires
        lists_owned(m.insert(c.metadata.id, c), c.metadata.owner, r),
    ensures
        exists|i: int| 0 <= i < r.len() && r[i] == c.metadata,
{
    let m2 = m.insert(c.metadata.id, c);
    assert(m2.contains_key(c.metadata.id) && m2[c.metadata.id].metadata.owner == c.metadata.owner);
    let i = choose|i: int| 0 <= i < r.len() && r[i].id == c.metadata.id;
    assert(m2.contains_key(r[i].id));
}

/// A listing of a user's circuits holds only circuits that the user owns.
pub proof fn lemma_enumerate_only_owned(
    m: Map<Seq<char>, CircuitView>,
    owner: Seq<char>,
    r: Seq<MetadataView>,
    i: int,
)
    requires
        lists_owned(m, owner, r),
        0 <= i < r.len(),
    ensures
        r[i].owner == owner,
        stored(m, r[i].id) matches Some(c) && c.metadata == r[i],
{
}

} // verus!
