use vstd::prelude::*;
use vstd::utf8::encode_utf8;

verus! {

broadcast use vstd::seq_lib::group_to_multiset_ensures;

/// Lexicographic order on byte strings (a prefix comes first); this is the
/// order of Rust's `str` comparison.
pub open spec fn lex_le(a: Seq<u8>, b: Seq<u8>) -> bool
    decreases a.len(),
{
    if a.len() == 0 {
        true
    } else if b.len() == 0 {
        false
    } else if a[0] < b[0] {
        true
    } else if a[0] > b[0] {
        false
    } else {
        lex_le(a.drop_first(), b.drop_first())
    }
}

/// The bytes by which a name is ordered (its UTF-8 encoding).
pub open spec fn name_key(s: String) -> Seq<u8> {
    encode_utf8(s@)
}

/// Names in ascending order of their bytes.
pub open spec fn sorted_by_bytes(s: Seq<String>) -> bool {
    forall|i: int, j: int| 0 <= i < j < s.len() ==> lex_le(name_key(#[trigger] s[i]), name_key(#[trigger] s[j]))
}

/// The names that could be read, in enumeration order.
pub open spec fn present(s: Seq<Option<String>>) -> Seq<String>
    decreases s.len(),
{
    if s.len() == 0 {
        Seq::empty()
    } else {
        let p = present(s.drop_last());
        match s.last() {
            Some(n) => p.push(n),
            None => p,
        }
    }
}


/// Reading names keeps every name that could be read, whatever it is, and
/// only those: appending a readable name appends it, appending an unreadable
/// one changes nothing, and every `Some` entry of the enumeration occurs in
/// the result.
pub proof fn law_present_keeps_all(s: Seq<Option<String>>, n: String)
    ensures
        present(s.push(Some(n))) == present(s).push(n),
        present(s.push(None)) == present(s),
        forall|j: int| 0 <= j < s.len() && (#[trigger] s[j]) is Some ==> present(s).contains(s[j]->0),
        present(s).len() <= s.len(),
    decreases s.len(),
{
    assert(s.push(Some(n)).drop_last() =~= s);
    assert(s.push(None::<String>).drop_last() =~= s);
    if s.len() > 0 {
        let t = s.drop_last();
        law_present_keeps_all(t, n);
        assert forall|j: int| 0 <= j < s.len() && (#[trigger] s[j]) is Some implies present(s).contains(s[j]->0) by {
            if j < s.len() - 1 {
                assert(s[j] == t[j]);
                assert(present(t).contains(s[j]->0));
                let k = choose|k: int| 0 <= k < present(t).len() && present(t)[k] == s[j]->0;
                match s.last() {
                    Some(m) => {
                        assert(present(s) == present(t).push(m));
                        assert(present(s)[k] == s[j]->0);
                    },
                    None => {},
                }
            } else {
                assert(present(s) == present(t).push(s[j]->0));
                assert(present(s)[present(t).len() as int] == s[j]->0);
            }
        }
    }
}

/// Every byte string is ordered before or after every other.
pub proof fn lemma_lex_total(a: Seq<u8>, b: Seq<u8>)
    ensures
        lex_le(a, b) || lex_le(b, a),
    decreases a.len(),
{
    if a.len() > 0 && b.len() > 0 && a[0] == b[0] {
        lemma_lex_total(a.drop_first(), b.drop_first());
    }
}

/// The order is transitive.
pub proof fn lemma_lex_trans(a: Seq<u8>, b: Seq<u8>, c: Seq<u8>)
    requires
        lex_le(a, b),
        lex_le(b, c),
    ensures
        lex_le(a, c),
    decreases a.len(),
{
    if a.len() > 0 && b.len() > 0 && c.len() > 0 && a[0] == b[0] && b[0] == c[0] {
        lemma_lex_trans(a.drop_first(), b.drop_first(), c.drop_first());
    }
}


/// A byte string comes before every string that starts with it.
pub proof fn law_lex_prefix_first(a: Seq<u8>, b: Seq<u8>)
    requires
        a.len() <= b.len(),
        a =~= b.take(a.len() as int),
    ensures
        lex_le(a, b),
    decreases a.len(),
{
    if a.len() > 0 {
        assert(a[0] == b[0]);
        assert(a.drop_first() =~= b.drop_first().take(a.len() - 1));
        law_lex_prefix_first(a.drop_first(), b.drop_first());
    }
}

/// Where two byte strings first differ at position `k`, the one with the
/// smaller byte there comes first, and not the other way round.
pub proof fn law_lex_first_difference(a: Seq<u8>, b: Seq<u8>, k: int)
    requires
        0 <= k < a.len(),
        k < b.len(),
        a.take(k) =~= b.take(k),
        a[k] < b[k],
    ensures
        lex_le(a, b),
        !lex_le(b, a),
    decreases k,
{
    if k > 0 {
        assert(a[0] == a.take(k)[0]);
        assert(b[0] == b.take(k)[0]);
        assert(a.drop_first().take(k - 1) =~= b.drop_first().take(k - 1)) by {
            assert forall|i: int| 0 <= i < k - 1 implies a.drop_first()[i] == b.drop_first()[i] by {
                assert(a.take(k)[i + 1] == b.take(k)[i + 1]);
            }
        }
        law_lex_first_difference(a.drop_first(), b.drop_first(), k - 1);
    }
}

/// Two byte strings each ordered before the other are equal.
pub proof fn law_lex_antisymmetric(a: Seq<u8>, b: Seq<u8>)
    requires
        lex_le(a, b),
        lex_le(b, a),
    ensures
        a =~= b,
    decreases a.len(),
{
    if a.len() > 0 && b.len() > 0 {
        law_lex_antisymmetric(a.drop_first(), b.drop_first());
        assert forall|i: int| 0 <= i < a.len() implies a[i] == b[i] by {
            if i > 0 {
                assert(a[i] == a.drop_first()[i - 1]);
                assert(b[i] == b.drop_first()[i - 1]);
            }
        }
    }
}

/// Compares two byte strings in lexicographic order.
pub fn bytes_le(a: &[u8], b: &[u8]) -> (r: bool)
    ensures
        r == lex_le(a@, b@),
{
    let mut i: usize = 0;
    assert(a@.skip(0) =~= a@);
    assert(b@.skip(0) =~= b@);
    while i < a.len() && i < b.len()
        invariant
            i <= a@.len(),
            i <= b@.len(),
            lex_le(a@, b@) == lex_le(a@.skip(i as int), b@.skip(i as int)),
        decreases a@.len() - i,
    {
        let x = a[i];
        let y = b[i];
        assert(a@.skip(i as int)[0] == x);
        assert(b@.skip(i as int)[0] == y);
        if x < y {
            return true;
        }
        if x > y {
            return false;
        }
        assert(a@.skip(i as int).drop_first() =~= a@.skip(i + 1));
        assert(b@.skip(i as int).drop_first() =~= b@.skip(i + 1));
        i = i + 1;
    }
    i == a.len()
}

/// Compares two names by their bytes.
fn name_le(a: &String, b: &String) -> (r: bool)
    ensures
        r == lex_le(name_key(*a), name_key(*b)),
{
    bytes_le(a.as_str().as_bytes(), b.as_str().as_bytes())
}

/// Inserts `x` into a sorted list after every name not above it.
fn insert_sorted(out: &mut Vec<String>, x: String)
    requires
        sorted_by_bytes(old(out)@),
    ensures
        sorted_by_bytes(final(out)@),
        final(out)@.to_multiset() == old(out)@.to_multiset().insert(x),
{
    let mut j: usize = 0;
    while j < out.len() && name_le(&out[j], &x)
        invariant
            j <= out@.len(),
            forall|i: int| 0 <= i < j ==> lex_le(name_key(#[trigger] out@[i]), name_key(x)),
        decreases out@.len() - j,
    {
        j = j + 1;
    }
    let ghost before = out@;
    proof {
        if j < before.len() {
            lemma_lex_total(name_key(before[j as int]), name_key(x));
        }
    }
    out.insert(j, x);
    proof {
        let after = out@;
        assert(after == before.insert(j as int, x));
        assert forall|a: int, b: int| 0 <= a < b < after.len() implies lex_le(
            name_key(#[trigger] after[a]),
            name_key(#[trigger] after[b]),
        ) by {
            if b < j {
                assert(after[a] == before[a]);
                assert(after[b] == before[b]);
            } else if a < j && b == j {
            } else if a < j && b > j {
                assert(after[b] == before[b - 1]);
                assert(lex_le(name_key(before[a]), name_key(before[b - 1])));
            } else if a == j {
                assert(after[b] == before[b - 1]);
                if b - 1 > j {
                    assert(lex_le(name_key(before[j as int]), name_key(before[b - 1])));
                    lemma_lex_trans(name_key(x), name_key(before[j as int]), name_key(before[b - 1]));
                }
            } else {
                assert(after[a] == before[a - 1]);
                assert(after[b] == before[b - 1]);
                assert(lex_le(name_key(before[a - 1]), name_key(before[b - 1])));
            }
        }
    }
}

/// The names of the devices, sorted by their bytes: every name that could be
/// read (`Some`) appears, each as often as it was enumerated; names that could
/// not be read (`None`) are left out.
pub fn device_names(names: Vec<Option<String>>) -> (r: Vec<String>)
    ensures
        sorted_by_bytes(r@),
        forall|i: int, j: int| 0 <= i < j < r@.len() ==> lex_le(encode_utf8((#[trigger] r@[i])@), encode_utf8((#[trigger] r@[j])@)),
        r@.to_multiset() == present(names@).to_multiset(),
        forall|j: int| 0 <= j < names@.len() && (#[trigger] names@[j]) is Some ==> r@.contains(names@[j]->0),
        r@.len() == present(names@).len(),
{
    let mut rest = names;
    let mut out: Vec<String> = Vec::new();
    while rest.len() > 0
        invariant
            sorted_by_bytes(out@),
            out@.to_multiset().add(present(rest@).to_multiset()) == present(names@).to_multiset(),
        decreases rest@.len(),
    {
        let ghost prev = rest@;
        let item = rest.pop().unwrap();
        proof {
            assert(rest@ == prev.drop_last());
            assert(item == prev.last());
        }
        match item {
            Some(n) => {
                proof {
                    assert(present(prev) == present(rest@).push(n));
                }
                insert_sorted(&mut out, n);
                proof {
                    assert(out@.to_multiset().add(present(rest@).to_multiset()) =~= present(names@).to_multiset());
                }
            },
            None => {
                proof {
                    assert(present(prev) == present(rest@));
                }
            },
        }
    }
    proof {
        assert(present(rest@) =~= Seq::<String>::empty());
        assert(out@.to_multiset().add(Seq::<String>::empty().to_multiset()) =~= out@.to_multiset());
        law_present_keeps_all(names@, vstd::pervasive::arbitrary());
        assert(out@.to_multiset().len() == out@.len());
        assert(present(names@).to_multiset().len() == present(names@).len());
        assert forall|j: int| 0 <= j < names@.len() && (#[trigger] names@[j]) is Some implies out@.contains(names@[j]->0) by {
            assert(present(names@).contains(names@[j]->0));
            assert(present(names@).to_multiset().count(names@[j]->0) > 0);
            assert(out@.to_multiset().count(names@[j]->0) > 0);
        }
    }
    out
}

/// The position of the first device whose name is the desired one; `None`
/// when no name is desired or none matches (the default device is then used).
pub fn find_device(names: &Vec<Option<String>>, desired: &Option<String>) -> (r: Option<usize>)
    ensures
        match r {
            Some(k) => desired is Some && k < names@.len() && (names@[k as int] matches Some(n)
                && n@ == desired->0@) && forall|j: int|
                0 <= j < k ==> !(#[trigger] names@[j] matches Some(n) && n@ == desired->0@),
            None => desired is None || forall|j: int|
                0 <= j < names@.len() ==> !(#[trigger] names@[j] matches Some(n) && n@ == desired->0@),
        },
{
    match desired {
        None => None,
        Some(d) => {
            let mut k: usize = 0;
            while k < names.len()
                invariant
                    k <= names@.len(),
                    desired is Some,
                    desired->0 == *d,
                    forall|j: int| 0 <= j < k ==> !(#[trigger] names@[j] matches Some(n) && n@ == d@),
                decreases names@.len() - k,
            {
                match &names[k] {
                    Some(n) => {
                        if n.eq(d) {
                            return Some(k);
                        }
                    },
                    None => {},
                }
                k = k + 1;
            }
            None
        },
    }
}

} // verus!
