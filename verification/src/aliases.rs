//! Command aliases. The command registry pairs short names with the long
//! (canonical) names they stand for, such as `SR` with `S.RATE`; it is given
//! here as its `(alias, canonical)` pairs, in the registry's order.

use vstd::prelude::*;

verus! {

/// `i` is the last pair whose alias is `cmd`.
pub open spec fn is_last_alias(table: Seq<(&str, &str)>, cmd: Seq<char>, i: int) -> bool {
    &&& 0 <= i < table.len()
    &&& table[i].0@ == cmd
    &&& forall|j: int| i < j < table.len() ==> table[j].0@ != cmd
}

/// `i` is the last pair whose canonical name is `cmd`.
pub open spec fn is_last_canonical(table: Seq<(&str, &str)>, cmd: Seq<char>, i: int) -> bool {
    &&& 0 <= i < table.len()
    &&& table[i].1@ == cmd
    &&& forall|j: int| i < j < table.len() ==> table[j].1@ != cmd
}

/// The long name `cmd` stands for (the last one the registry gives, as a
/// map filled in its order keeps), or `cmd` itself where it is no alias.
pub open spec fn canonical_of(table: Seq<(&str, &str)>, cmd: Seq<char>) -> Seq<char> {
    if exists|i: int| is_last_alias(table, cmd, i) {
        table[choose|i: int| is_last_alias(table, cmd, i)].1@
    } else {
        cmd
    }
}

/// The short name of the long name `cmd` (the last one the registry gives,
/// as a map filled in its order keeps), or `cmd` itself where it has none.
pub open spec fn short_of(table: Seq<(&str, &str)>, cmd: Seq<char>) -> Seq<char> {
    if exists|i: int| is_last_canonical(table, cmd, i) {
        table[choose|i: int| is_last_canonical(table, cmd, i)].0@
    } else {
        cmd
    }
}

/// The canonical form of `cmd` (`SR` gives `S.RATE`); `cmd` unchanged where
/// it is no alias.
pub fn resolve_alias(table: &[(&str, &str)], cmd: &str) -> (r: String)
    ensures
        r@ == canonical_of(table@, cmd@),
{
    let key = String::from_str(cmd);
    let mut i: usize = table.len();
    while i > 0
        invariant
            i <= table@.len(),
            key@ == cmd@,
            forall|j: int| i <= j < table@.len() ==> table@[j].0@ != cmd@,
        decreases i,
    {
        let (alias, canonical) = table[i - 1];
        if String::from_str(alias) == key {
            proof {
                let t = i - 1;
                assert(is_last_alias(table@, cmd@, t as int));
                let k = choose|k: int| is_last_alias(table@, cmd@, k);
                if k < t {
                    assert(table@[t as int].0@ != cmd@);
                } else if k > t {
                    assert(table@[k].0@ != cmd@);
                }
            }
            return String::from_str(canonical);
        }
        i = i - 1;
    }
    proof {
        assert(!exists|k: int| is_last_alias(table@, cmd@, k));
    }
    key
}

/// The short alias of the canonical name `cmd` (`REV.WET` gives `RW`);
/// `cmd` unchanged where it has none.
pub fn resolve_to_short(table: &[(&str, &str)], cmd: &str) -> (r: String)
    ensures
        r@ == short_of(table@, cmd@),
{
    let key = String::from_str(cmd);
    let mut i: usize = table.len();
    while i > 0
        invariant
            i <= table@.len(),
            key@ == cmd@,
            forall|j: int| i <= j < table@.len() ==> table@[j].1@ != cmd@,
        decreases i,
    {
        let (alias, canonical) = table[i - 1];
        if String::from_str(canonical) == key {
            proof {
                let t = i - 1;
                assert(is_last_canonical(table@, cmd@, t as int));
                let k = choose|k: int| is_last_canonical(table@, cmd@, k);
                if k < t {
                    assert(table@[t as int].1@ != cmd@);
                } else if k > t {
                    assert(table@[k].1@ != cmd@);
                }
            }
            return String::from_str(alias);
        }
        i = i - 1;
    }
    proof {
        assert(!exists|k: int| is_last_canonical(table@, cmd@, k));
    }
    key
}

/// The registry is a map: no name stands in it twice.
pub open spec fn names_distinct(table: Seq<(&str, &str)>) -> bool {
    forall|j: int, k: int| 0 <= j < k < table.len() ==> table[j].0@ != table[k].0@
}

/// Whether no name stands twice in `table`.
pub fn table_names_distinct(table: &[(&str, &str)]) -> (b: bool)
    ensures
        b == names_distinct(table@),
{
    let n = table.len();
    let mut k: usize = 0;
    while k < n
        invariant
            n == table@.len(),
            k <= n,
            forall|j: int, m: int| 0 <= j < m < k ==> table@[j].0@ != table@[m].0@,
        decreases n - k,
    {
        let mut j: usize = 0;
        let km = String::from_str(table[k].0);
        while j < k
            invariant
                n == table@.len(),
                j <= k < n,
                km@ == table@[k as int].0@,
                forall|i: int| 0 <= i < j ==> table@[i].0@ != table@[k as int].0@,
            decreases k - j,
        {
            if String::from_str(table[j].0) == km {
                return false;
            }
            j = j + 1;
        }
        k = k + 1;
    }
    true
}

/// Where exactly one entry `(a, c)` of the registry has the long name `c`,
/// `c` resolves to its short name `a` and `a` back to `c`; a name that is the
/// long name of no entry resolves to itself.
pub proof fn law_alias_round_trip(table: Seq<(&str, &str)>, i: int, x: Seq<char>)
    requires
        names_distinct(table),
        0 <= i < table.len(),
        forall|j: int| 0 <= j < table.len() && j != i ==> table[j].1@ != table[i].1@,
        forall|j: int| 0 <= j < table.len() ==> table[j].1@ != x,
    ensures
        short_of(table, table[i].1@) == table[i].0@,
        canonical_of(table, short_of(table, table[i].1@)) == table[i].1@,
        short_of(table, x) == x,
{
    let c = table[i].1@;
    let a = table[i].0@;
    assert(is_last_canonical(table, c, i));
    let k = choose|k: int| is_last_canonical(table, c, k);
    assert(k == i);
    assert(is_last_alias(table, a, i));
    let m = choose|m: int| is_last_alias(table, a, m);
    assert(m == i) by {
        if m != i {
            if m < i {
                assert(table[m].0@ != table[i].0@);
            } else {
                assert(table[i].0@ != table[m].0@);
            }
        }
    }
    assert(!exists|j: int| is_last_canonical(table, x, j));
}

} // verus!
