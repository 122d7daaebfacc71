//! Byte-string helpers shared by the probe builders.
use vstd::prelude::*;

verus! {

/// `true` when the byte string holds a NUL byte, which a C string cannot carry.
pub open spec fn has_nul(s: Seq<u8>) -> bool {
    exists|i: int| 0 <= i < s.len() && s[i] == 0u8
}

/// What a probe receives for a byte string handed to `CString::new`: the
/// string itself, or the empty string where it holds a NUL byte.
pub open spec fn c_string_or_empty(s: Seq<u8>) -> Seq<u8> {
    if has_nul(s) {
        Seq::empty()
    } else {
        s
    }
}

/// The bytes of an optional byte string.
pub open spec fn opt_bytes(o: Option<Vec<u8>>) -> Option<Seq<u8>> {
    match o {
        Some(v) => Some(v@),
        None => None,
    }
}

/// The byte strings of a vector of byte strings.
pub open spec fn all_bytes(parts: Seq<Vec<u8>>) -> Seq<Seq<u8>> {
    parts.map_values(|v: Vec<u8>| v@)
}

/// The optional byte strings of a vector of optional byte strings.
pub open spec fn all_opt_bytes(items: Seq<Option<Vec<u8>>>) -> Seq<Option<Seq<u8>>> {
    items.map_values(|o: Option<Vec<u8>>| opt_bytes(o))
}

/// The parts joined with a single space between neighbours.
pub open spec fn space_joined(parts: Seq<Seq<u8>>) -> Seq<u8>
    decreases parts.len(),
{
    if parts.len() == 0 {
        Seq::empty()
    } else if parts.len() == 1 {
        parts[0]
    } else {
        space_joined(parts.drop_last()) + seq![32u8] + parts.last()
    }
}

/// The items that are present, in order.
pub open spec fn present(items: Seq<Option<Seq<u8>>>) -> Seq<Seq<u8>>
    decreases items.len(),
{
    if items.len() == 0 {
        Seq::empty()
    } else {
        match items.last() {
            Some(v) => present(items.drop_last()).push(v),
            None => present(items.drop_last()),
        }
    }
}

proof fn lemma_space_joined_push(parts: Seq<Seq<u8>>, v: Seq<u8>)
    ensures
        space_joined(parts.push(v)) == if parts.len() == 0 {
            v
        } else {
            space_joined(parts) + seq![32u8] + v
        },
{
    assert(parts.push(v).drop_last() =~= parts);
}

/// Joins the parts with a single space between neighbours.
pub fn join_with_space(parts: &Vec<Vec<u8>>) -> (joined: Vec<u8>)
    ensures
        joined@ == space_joined(all_bytes(parts@)),
{
    let ghost view = all_bytes(parts@);
    let mut joined: Vec<u8> = Vec::new();
    let mut i: usize = 0;
    while i < parts.len()
        invariant
            i <= parts@.len(),
            view == all_bytes(parts@),
            joined@ == space_joined(view.take(i as int)),
        decreases parts@.len() - i,
    {
        proof {
            assert(view.take(i + 1) =~= view.take(i as int).push(parts@[i as int]@));
            lemma_space_joined_push(view.take(i as int), parts@[i as int]@);
        }
        if i > 0 {
            joined.push(32u8);
        }
        append_bytes(&mut joined, parts[i].as_slice());
        i = i + 1;
    }
    assert(view.take(parts@.len() as int) =~= view);
    joined
}

/// Joins the items that are present with a single space between neighbours,
/// skipping the absent ones.
pub fn join_present_with_space(items: &Vec<Option<Vec<u8>>>) -> (joined: Vec<u8>)
    ensures
        joined@ == space_joined(present(all_opt_bytes(items@))),
{
    let ghost view = all_opt_bytes(items@);
    let mut joined: Vec<u8> = Vec::new();
    let mut any = false;
    let mut i: usize = 0;
    while i < items.len()
        invariant
            i <= items@.len(),
            view == all_opt_bytes(items@),
            joined@ == space_joined(present(view.take(i as int))),
            any == (present(view.take(i as int)).len() > 0),
        decreases items@.len() - i,
    {
        proof {
            assert(view.take(i + 1).drop_last() =~= view.take(i as int));
        }
        match &items[i] {
            Some(item) => {
                proof {
                    lemma_space_joined_push(present(view.take(i as int)), item@);
                }
                if any {
                    joined.push(32u8);
                }
                append_bytes(&mut joined, item.as_slice());
                any = true;
            },
            None => {},
        }
        i = i + 1;
    }
    assert(view.take(items@.len() as int) =~= view);
    joined
}

/// A byte string that a C string can carry reaches the probe unchanged; one
/// holding a NUL byte reaches it as the empty string.
pub proof fn lemma_c_string_or_empty(s: Seq<u8>)
    ensures
        !has_nul(s) ==> c_string_or_empty(s) == s,
        has_nul(s) ==> c_string_or_empty(s).len() == 0,
        !has_nul(c_string_or_empty(s)),
{
}

/// The string items that are present are joined in order with one space
/// between neighbours; absent items leave no trace.
pub proof fn lemma_present_joined(a: Seq<u8>, b: Seq<u8>)
    ensures
        space_joined(present(seq![Some(a), None, Some(b)])) == a + seq![32u8] + b,
        space_joined(present(seq![None::<Seq<u8>>, Some(a)])) == a,
{
    let none = Seq::<Option<Seq<u8>>>::empty();
    assert(present(none) =~= Seq::<Seq<u8>>::empty());
    let one = seq![Some(a)];
    assert(one.drop_last() =~= none);
    assert(present(one) =~= seq![a]);
    let two = seq![Some(a), None];
    assert(two.drop_last() =~= one);
    assert(present(two) =~= seq![a]);
    let items = seq![Some(a), None, Some(b)];
    assert(items.drop_last() =~= two);
    assert(present(items) =~= seq![a, b]);
    assert(seq![a, b].drop_last() =~= seq![a]);
    assert(space_joined(seq![a]) == a);
    assert(seq![a, b].last() == b);
    assert(space_joined(seq![a, b]) == a + seq![32u8] + b);
    let other = seq![None::<Seq<u8>>, Some(a)];
    let lone = seq![None::<Seq<u8>>];
    assert(lone.drop_last() =~= none);
    assert(present(lone) =~= Seq::<Seq<u8>>::empty());
    assert(other.drop_last() =~= lone);
    assert(present(other) =~= seq![a]);
}

/// Appends `src` to `dst`.
pub fn append_bytes(dst: &mut Vec<u8>, src: &[u8])
    ensures
        final(dst)@ == old(dst)@ + src@,
{
    let ghost start = dst@;
    let mut i: usize = 0;
    while i < src.len()
        invariant
            i <= src@.len(),
            dst@ == start + src@.subrange(0, i as int),
        decreases src@.len() - i,
    {
        dst.push(src[i]);
        i = i + 1;
        assert(src@.subrange(0, i as int) =~= src@.subrange(0, i - 1) + seq![src@[i - 1]]);
    }
    assert(src@.subrange(0, src@.len() as int) =~= src@);
}

/// A vector holding the bytes of `src`.
pub fn to_owned_bytes(src: &[u8]) -> (owned: Vec<u8>)
    ensures
        owned@ == src@,
{
    let mut owned: Vec<u8> = Vec::new();
    append_bytes(&mut owned, src);
    assert(owned@ =~= src@);
    owned
}

/// Compares two byte strings.
pub fn bytes_eq(a: &[u8], b: &[u8]) -> (eq: bool)
    ensures
        eq == (a@ == b@),
{
    if a.len() != b.len() {
        return false;
    }
    let mut i: usize = 0;
    while i < a.len()
        invariant
            a@.len() == b@.len(),
            i <= a@.len(),
            forall|j: int| 0 <= j < i ==> a@[j] == b@[j],
        decreases a@.len() - i,
    {
        if a[i] != b[i] {
            return false;
        }
        i = i + 1;
    }
    assert(a@ =~= b@);
    true
}

/// Whether the byte string holds a NUL byte.
pub fn contains_nul(s: &[u8]) -> (found: bool)
    ensures
        found == has_nul(s@),
{
    let mut i: usize = 0;
    while i < s.len()
        invariant
            i <= s@.len(),
            forall|j: int| 0 <= j < i ==> s@[j] != 0u8,
        decreases s@.len() - i,
    {
        if s[i] == 0 {
            return true;
        }
        i = i + 1;
    }
    false
}

/// The bytes a probe receives for `s`: `s` itself when it holds no NUL byte,
/// otherwise the empty string (a `CString` cannot be built from it).
pub fn nul_free_or_empty(s: Vec<u8>) -> (r: Vec<u8>)
    ensures
        r@ == c_string_or_empty(s@),
        !has_nul(r@),
{
    if contains_nul(s.as_slice()) {
        Vec::new()
    } else {
        s
    }
}

} // verus!
