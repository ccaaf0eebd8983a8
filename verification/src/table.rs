//! Lookup tables: one immutable mapping per category from a suffix key to a
//! CSS value literal. A registry of the three category tables is built once
//! at startup and passed by shared reference into the parsers, replacing any
//! ambient global state.

use vstd::prelude::*;
use crate::strutil::str_eq;

verus! {

/// The value of the first entry whose key is `k`, if any.
pub open spec fn tbl_lookup(t: Seq<(Seq<char>, Seq<char>)>, k: Seq<char>) -> Option<Seq<char>>
    decreases t.len(),
{
    if t.len() == 0 {
        None
    } else if t[0].0 == k {
        Some(t[0].1)
    } else {
        tbl_lookup(t.drop_first(), k)
    }
}

/// The keys of the table, in table order.
pub open spec fn tbl_keys(t: Seq<(Seq<char>, Seq<char>)>) -> Seq<Seq<char>> {
    t.map_values(|p: (Seq<char>, Seq<char>)| p.0)
}

/// An immutable mapping from suffix keys to CSS value literals.
/// Invariant: the keys are unique; insertion keeps the first entry for a key.
pub struct LookupTable {
    keys: Vec<String>,
    vals: Vec<String>,
}

impl LookupTable {
    /// The (key, value) pairs, in table order.
    pub closed spec fn entries(&self) -> Seq<(Seq<char>, Seq<char>)> {
        Seq::new(self.keys@.len(), |i: int| (self.keys@[i]@, self.vals@[i]@))
    }

    pub closed spec fn wf(&self) -> bool {
        &&& self.keys@.len() == self.vals@.len()
        &&& forall|i: int, j: int|
            0 <= i < j < self.keys@.len() ==> self.keys@[i]@ != self.keys@[j]@
    }

    pub fn new() -> (t: LookupTable)
        ensures
            t.wf(),
            t.entries() == Seq::<(Seq<char>, Seq<char>)>::empty(),
    {
        let t = LookupTable { keys: Vec::new(), vals: Vec::new() };
        proof {
            assert(t.entries() =~= Seq::<(Seq<char>, Seq<char>)>::empty());
        }
        t
    }

    /// The value stored under `key`, if any.
    pub fn get(&self, key: &str) -> (r: Option<&String>)
        requires
            self.wf(),
        ensures
            match r {
                Some(v) => tbl_lookup(self.entries(), key@) == Some(v@),
                None => tbl_lookup(self.entries(), key@) is None,
            },
    {
        let n = self.keys.len();
        let mut i: usize = 0;
        proof {
            assert(self.entries().skip(0) =~= self.entries());
        }
        while i < n
            invariant
                self.wf(),
                i <= n,
                n == self.keys@.len(),
                tbl_lookup(self.entries(), key@) == tbl_lookup(self.entries().skip(i as int), key@),
                forall|j: int| 0 <= j < n ==> (#[trigger] self.entries()[j]).0 == self.keys@[j]@,
            decreases n - i,
        {
            proof {
                assert(self.entries().skip(i as int)[0] == self.entries()[i as int]);
                assert(self.entries().skip(i as int).drop_first() =~= self.entries().skip(i + 1));
            }
            if str_eq(self.keys[i].as_str(), key) {
                return Some(&self.vals[i]);
            }
            i += 1;
        }
        None
    }

    /// Adds an entry; an entry under an already-present key is ignored, so
    /// the keys stay unique.
    pub fn insert(&mut self, key: &str, val: &str)
        requires
            old(self).wf(),
        ensures
            final(self).wf(),
            final(self).entries() == if (exists|i: int|
                0 <= i < old(self).entries().len() && (#[trigger] old(self).entries()[i]).0
                    == key@) {
                old(self).entries()
            } else {
                old(self).entries().push((key@, val@))
            },
    {
        proof {
            lemma_lookup_some_iff_key_present(self.entries(), key@);
        }
        if self.get(key).is_none() {
            proof {
                assert forall|i: int| 0 <= i < self.keys@.len() implies self.keys@[i]@
                    != key@ by {
                    assert((self.entries()[i]).0 == self.keys@[i]@);
                }
            }
            self.keys.push(key.to_owned());
            self.vals.push(val.to_owned());
            proof {
                assert(self.entries() =~= old(self).entries().push((key@, val@)));
            }
        }
    }

    /// All keys, in table order.
    pub fn keys_vec(&self) -> (r: Vec<String>)
        ensures
            r.deep_view() == tbl_keys(self.entries()),
    {
        let r = self.keys.clone();
        proof {
            assert(r.deep_view() =~= tbl_keys(self.entries()));
        }
        r
    }
}

/// Looking a key up succeeds exactly when some entry carries that key.
pub proof fn lemma_lookup_some_iff_key_present(t: Seq<(Seq<char>, Seq<char>)>, k: Seq<char>)
    ensures
        (tbl_lookup(t, k) is Some) <==> exists|i: int| 0 <= i < t.len() && t[i].0 == k,
    decreases t.len(),
{
    if t.len() > 0 && t[0].0 != k {
        lemma_lookup_some_iff_key_present(t.drop_first(), k);
        if tbl_lookup(t, k) is Some {
            let i = choose|i: int| 0 <= i < t.drop_first().len() && t.drop_first()[i].0 == k;
            assert(t[i + 1].0 == k);
        }
        if exists|i: int| 0 <= i < t.len() && t[i].0 == k {
            let i = choose|i: int| 0 <= i < t.len() && t[i].0 == k;
            assert(t.drop_first()[i - 1].0 == k);
        }
    }
}

/// The registry of category tables, built once at startup and then only read.
pub struct Tables {
    pub padding: LookupTable,
    pub margin: LookupTable,
    pub space_between: LookupTable,
}

/// The embedded spacing-scale asset: suffix keys and the CSS values they
/// stand for, in table order.
pub open spec fn spec_scale() -> Seq<(Seq<char>, Seq<char>)> {
    seq![
        ("0"@, "0px"@),
        ("px"@, "1px"@),
        ("0.5"@, "0.125rem"@),
        ("1"@, "0.25rem"@),
        ("1.5"@, "0.375rem"@),
        ("2"@, "0.5rem"@),
        ("2.5"@, "0.625rem"@),
        ("3"@, "0.75rem"@),
        ("3.5"@, "0.875rem"@),
        ("4"@, "1rem"@),
        ("5"@, "1.25rem"@),
        ("6"@, "1.5rem"@),
        ("8"@, "2rem"@),
        ("9"@, "2.25rem"@),
        ("10"@, "2.5rem"@),
        ("11"@, "2.75rem"@),
        ("12"@, "3rem"@),
        ("14"@, "3.5rem"@),
        ("16"@, "4rem"@),
        ("20"@, "5rem"@),
        ("24"@, "6rem"@),
        ("28"@, "7rem"@),
        ("32"@, "8rem"@),
        ("36"@, "9rem"@),
        ("40"@, "10rem"@),
        ("44"@, "11rem"@),
        ("48"@, "12rem"@),
        ("52"@, "13rem"@),
        ("56"@, "14rem"@),
        ("60"@, "15rem"@),
        ("64"@, "16rem"@),
        ("72"@, "18rem"@),
        ("80"@, "20rem"@),
        ("96"@, "24rem"@),
    ]
}

impl Tables {
    pub open spec fn wf(&self) -> bool {
        self.padding.wf() && self.margin.wf() && self.space_between.wf()
    }

    /// Builds the standard spacing scale for every category; margin
    /// additionally accepts `auto`.
    pub fn new() -> (t: Tables)
        ensures
            t.wf(),
            t.padding.entries() == spec_scale(),
            t.margin.entries() == spec_scale().push(("auto"@, "auto"@)),
            t.space_between.entries() == spec_scale(),
    {
        let mut padding = LookupTable::new();
        push_scale(&mut padding);
        let mut margin = LookupTable::new();
        push_scale(&mut margin);
        proof {
            lemma_scale_key_facts();
        }
        margin.insert("auto", "auto");
        let mut space_between = LookupTable::new();
        push_scale(&mut space_between);
        Tables { padding, margin, space_between }
    }
}

/// The scale's keys are pairwise distinct, and none of them is `auto`
/// (only margin adds that key, after the scale).
#[verifier::rlimit(100)]
proof fn lemma_scale_key_facts()
    ensures
        forall|i: int, j: int|
            0 <= i < j < spec_scale().len() ==> (#[trigger] spec_scale()[i]).0 != (
            #[trigger] spec_scale()[j]).0,
        !(exists|i: int|
            0 <= i < spec_scale().len() && (#[trigger] spec_scale()[i]).0 == "auto"@),
{
    reveal_strlit("auto");
    reveal_strlit("0");
    reveal_strlit("px");
    reveal_strlit("0.5");
    reveal_strlit("1");
    reveal_strlit("1.5");
    reveal_strlit("2");
    reveal_strlit("2.5");
    reveal_strlit("3");
    reveal_strlit("3.5");
    reveal_strlit("4");
    reveal_strlit("5");
    reveal_strlit("6");
    reveal_strlit("8");
    reveal_strlit("9");
    reveal_strlit("10");
    reveal_strlit("11");
    reveal_strlit("12");
    reveal_strlit("14");
    reveal_strlit("16");
    reveal_strlit("20");
    reveal_strlit("24");
    reveal_strlit("28");
    reveal_strlit("32");
    reveal_strlit("36");
    reveal_strlit("40");
    reveal_strlit("44");
    reveal_strlit("48");
    reveal_strlit("52");
    reveal_strlit("56");
    reveal_strlit("60");
    reveal_strlit("64");
    reveal_strlit("72");
    reveal_strlit("80");
    reveal_strlit("96");
    assert forall|i: int, j: int|
        0 <= i < j < spec_scale().len() implies (#[trigger] spec_scale()[i]).0 != (
    #[trigger] spec_scale()[j]).0 by {
        let a = spec_scale()[i].0;
        let b = spec_scale()[j].0;
        if a == b {
            assert(a.len() == b.len());
            assert(a[0] == b[0]);
            assert(a[a.len() - 1] == b[b.len() - 1]);
        }
    }
    assert forall|i: int| 0 <= i < spec_scale().len() implies (#[trigger] spec_scale()[i]).0
        != "auto"@ by {
        assert(spec_scale()[i].0.len() != "auto"@.len());
    }
}

/// The spacing scale shared by every category table.
#[verifier::rlimit(50)]
fn push_scale(t: &mut LookupTable)
    requires
        old(t).wf(),
        old(t).entries() == Seq::<(Seq<char>, Seq<char>)>::empty(),
    ensures
        final(t).wf(),
        final(t).entries() == spec_scale(),
{
    proof {
        lemma_scale_key_facts();
    }
    proof {
        assert((spec_scale()[0]).0 == "0"@);
    }
    t.insert("0", "0px");
    proof {
        assert(t.entries() =~= spec_scale().take(1));
    }
    proof {
        assert((spec_scale()[1]).0 == "px"@);
    }
    t.insert("px", "1px");
    proof {
        assert(t.entries() =~= spec_scale().take(2));
    }
    proof {
        assert((spec_scale()[2]).0 == "0.5"@);
    }
    t.insert("0.5", "0.125rem");
    proof {
        assert(t.entries() =~= spec_scale().take(3));
    }
    proof {
        assert((spec_scale()[3]).0 == "1"@);
    }
    t.insert("1", "0.25rem");
    proof {
        assert(t.entries() =~= spec_scale().take(4));
    }
    proof {
        assert((spec_scale()[4]).0 == "1.5"@);
    }
    t.insert("1.5", "0.375rem");
    proof {
        assert(t.entries() =~= spec_scale().take(5));
    }
    proof {
        assert((spec_scale()[5]).0 == "2"@);
    }
    t.insert("2", "0.5rem");
    proof {
        assert(t.entries() =~= spec_scale().take(6));
    }
    proof {
        assert((spec_scale()[6]).0 == "2.5"@);
    }
    t.insert("2.5", "0.625rem");
    proof {
        assert(t.entries() =~= spec_scale().take(7));
    }
    proof {
        assert((spec_scale()[7]).0 == "3"@);
    }
    t.insert("3", "0.75rem");
    proof {
        assert(t.entries() =~= spec_scale().take(8));
    }
    proof {
        assert((spec_scale()[8]).0 == "3.5"@);
    }
    t.insert("3.5", "0.875rem");
    proof {
        assert(t.entries() =~= spec_scale().take(9));
    }
    proof {
        assert((spec_scale()[9]).0 == "4"@);
    }
    t.insert("4", "1rem");
    proof {
        assert(t.entries() =~= spec_scale().take(10));
    }
    proof {
        assert((spec_scale()[10]).0 == "5"@);
    }
    t.insert("5", "1.25rem");
    proof {
        assert(t.entries() =~= spec_scale().take(11));
    }
    proof {
        assert((spec_scale()[11]).0 == "6"@);
    }
    t.insert("6", "1.5rem");
    proof {
        assert(t.entries() =~= spec_scale().take(12));
    }
    proof {
        assert((spec_scale()[12]).0 == "8"@);
    }
    t.insert("8", "2rem");
    proof {
        assert(t.entries() =~= spec_scale().take(13));
    }
    proof {
        assert((spec_scale()[13]).0 == "9"@);
    }
    t.insert("9", "2.25rem");
    proof {
        assert(t.entries() =~= spec_scale().take(14));
    }
    proof {
        assert((spec_scale()[14]).0 == "10"@);
    }
    t.insert("10", "2.5rem");
    proof {
        assert(t.entries() =~= spec_scale().take(15));
    }
    proof {
        assert((spec_scale()[15]).0 == "11"@);
    }
    t.insert("11", "2.75rem");
    proof {
        assert(t.entries() =~= spec_scale().take(16));
    }
    proof {
        assert((spec_scale()[16]).0 == "12"@);
    }
    t.insert("12", "3rem");
    proof {
        assert(t.entries() =~= spec_scale().take(17));
    }
    proof {
        assert((spec_scale()[17]).0 == "14"@);
    }
    t.insert("14", "3.5rem");
    proof {
        assert(t.entries() =~= spec_scale().take(18));
    }
    proof {
        assert((spec_scale()[18]).0 == "16"@);
    }
    t.insert("16", "4rem");
    proof {
        assert(t.entries() =~= spec_scale().take(19));
    }
    proof {
        assert((spec_scale()[19]).0 == "20"@);
    }
    t.insert("20", "5rem");
    proof {
        assert(t.entries() =~= spec_scale().take(20));
    }
    proof {
        assert((spec_scale()[20]).0 == "24"@);
    }
    t.insert("24", "6rem");
    proof {
        assert(t.entries() =~= spec_scale().take(21));
    }
    proof {
        assert((spec_scale()[21]).0 == "28"@);
    }
    t.insert("28", "7rem");
    proof {
        assert(t.entries() =~= spec_scale().take(22));
    }
    proof {
        assert((spec_scale()[22]).0 == "32"@);
    }
    t.insert("32", "8rem");
    proof {
        assert(t.entries() =~= spec_scale().take(23));
    }
    proof {
        assert((spec_scale()[23]).0 == "36"@);
    }
    t.insert("36", "9rem");
    proof {
        assert(t.entries() =~= spec_scale().take(24));
    }
    proof {
        assert((spec_scale()[24]).0 == "40"@);
    }
    t.insert("40", "10rem");
    proof {
        assert(t.entries() =~= spec_scale().take(25));
    }
    proof {
        assert((spec_scale()[25]).0 == "44"@);
    }
    t.insert("44", "11rem");
    proof {
        assert(t.entries() =~= spec_scale().take(26));
    }
    proof {
        assert((spec_scale()[26]).0 == "48"@);
    }
    t.insert("48", "12rem");
    proof {
        assert(t.entries() =~= spec_scale().take(27));
    }
    proof {
        assert((spec_scale()[27]).0 == "52"@);
    }
    t.insert("52", "13rem");
    proof {
        assert(t.entries() =~= spec_scale().take(28));
    }
    proof {
        assert((spec_scale()[28]).0 == "56"@);
    }
    t.insert("56", "14rem");
    proof {
        assert(t.entries() =~= spec_scale().take(29));
    }
    proof {
        assert((spec_scale()[29]).0 == "60"@);
    }
    t.insert("60", "15rem");
    proof {
        assert(t.entries() =~= spec_scale().take(30));
    }
    proof {
        assert((spec_scale()[30]).0 == "64"@);
    }
    t.insert("64", "16rem");
    proof {
        assert(t.entries() =~= spec_scale().take(31));
    }
    proof {
        assert((spec_scale()[31]).0 == "72"@);
    }
    t.insert("72", "18rem");
    proof {
        assert(t.entries() =~= spec_scale().take(32));
    }
    proof {
        assert((spec_scale()[32]).0 == "80"@);
    }
    t.insert("80", "20rem");
    proof {
        assert(t.entries() =~= spec_scale().take(33));
    }
    proof {
        assert((spec_scale()[33]).0 == "96"@);
    }
    t.insert("96", "24rem");
    proof {
        assert(t.entries() =~= spec_scale().take(34));
    }
    proof {
        assert(spec_scale().take(34) =~= spec_scale());
    }
}

} // verus!
