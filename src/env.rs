use crate::error::RuntimeError;
use crate::spec::pairs_view;
use vstd::prelude::*;

verus! {

/// Position of the first `=` in `s`, or -1 when there is none.
pub open spec fn first_eq(s: Seq<char>) -> int
    decreases s.len(),
{
    if s.len() == 0 {
        -1
    } else if first_eq(s.drop_last()) >= 0 {
        first_eq(s.drop_last())
    } else if s.last() == '=' {
        s.len() - 1
    } else {
        -1
    }
}

/// `KEY=VALUE` split at its first `=`, when the key is not empty.
pub open spec fn env_item_ok(s: Seq<char>) -> bool {
    first_eq(s) > 0
}

pub open spec fn env_key(s: Seq<char>) -> Seq<char> {
    s.take(first_eq(s))
}

pub open spec fn env_value(s: Seq<char>) -> Seq<char> {
    s.skip(first_eq(s) + 1)
}

/// The error for an item that is not a valid `KEY=VALUE`.
pub open spec fn env_item_error(s: Seq<char>, e: RuntimeError) -> bool {
    if first_eq(s) < 0 {
        e matches RuntimeError::EnvMissingEquals(t) && t@ == s
    } else {
        e matches RuntimeError::EnvEmptyKey(t) && t@ == s
    }
}

proof fn lemma_first_eq_bounds(s: Seq<char>)
    ensures
        -1 <= first_eq(s) < s.len(),
        first_eq(s) >= 0 ==> s[first_eq(s)] == '=',
        forall|j: int| 0 <= j < s.len() && (first_eq(s) < 0 || j < first_eq(s)) ==> s[j] != '=',
    decreases s.len(),
{
    if s.len() > 0 {
        let t = s.drop_last();
        lemma_first_eq_bounds(t);
        assert forall|j: int| 0 <= j < s.len() && (first_eq(s) < 0 || j < first_eq(s)) implies s[j] != '=' by {
            if j < s.len() - 1 {
                assert(s[j] == t[j]);
            }
        }
    }
}

proof fn lemma_first_eq_prefix(s: Seq<char>, i: int)
    requires
        0 <= i < s.len(),
        forall|j: int| 0 <= j < i ==> s[j] != '=',
    ensures
        first_eq(s.take(i)) == -1,
        s[i] == '=' ==> first_eq(s.take(i + 1)) == i,
    decreases i,
{
    if i > 0 {
        lemma_first_eq_prefix(s, i - 1);
        assert(s.take(i).drop_last() =~= s.take(i - 1));
    }
    assert(s.take(i + 1).drop_last() =~= s.take(i));
    assert(s.take(i + 1).last() == s[i]);
    assert(s.take(i + 1).len() == i + 1);
}

proof fn lemma_first_eq_extend(s: Seq<char>, i: int)
    requires
        0 <= i <= s.len(),
        first_eq(s.take(i)) >= 0,
    ensures
        first_eq(s) == first_eq(s.take(i)),
    decreases s.len() - i,
{
    if i < s.len() {
        assert(s.take(i + 1).drop_last() =~= s.take(i));
        lemma_first_eq_extend(s, i + 1);
    } else {
        assert(s.take(i) =~= s);
    }
}

/// Splits `item` at its first `=`: the index of that `=`, if any.
fn find_eq(item: &String) -> (r: Option<usize>)
    ensures
        r is None <==> first_eq(item@) < 0,
        r matches Some(p) ==> p == first_eq(item@) && p < item@.len(),
{
    let n = item.as_str().unicode_len();
    let mut i: usize = 0;
    while i < n
        invariant
            n == item@.len(),
            i <= n,
            forall|j: int| 0 <= j < i ==> item@[j] != '=',
        decreases n - i,
    {
        if item.as_str().get_char(i) == '=' {
            proof {
                lemma_first_eq_prefix(item@, i as int);
                lemma_first_eq_extend(item@, i + 1);
                lemma_first_eq_bounds(item@);
            }
            return Some(i);
        }
        i += 1;
    }
    proof {
        lemma_first_eq_bounds(item@);
    }
    None
}

/// Parses `KEY=VALUE` items, split at the first `=`; fails on the first item
/// without `=` or with an empty key.
pub fn parse_env_kv(items: Vec<String>) -> (r: Result<Vec<(String, String)>, RuntimeError>)
    ensures
        r is Ok <==> forall|i: int| 0 <= i < items@.len() ==> env_item_ok(#[trigger] items@[i]@),
        r matches Ok(v) ==> pairs_view(v@) == items@.map_values(
            |s: String| (env_key(s@), env_value(s@)),
        ),
        r matches Err(e) ==> exists|i: int|
            0 <= i < items@.len() && !env_item_ok(#[trigger] items@[i]@) && env_item_error(items@[i]@, e),
{
    let mut out: Vec<(String, String)> = Vec::new();
    let mut i: usize = 0;
    while i < items.len()
        invariant
            i <= items@.len(),
            out@.len() == i,
            forall|j: int| 0 <= j < i ==> env_item_ok(#[trigger] items@[j]@),
            forall|j: int|
                0 <= j < i ==> (#[trigger] out@[j]).0@ == env_key(items@[j]@) && out@[j].1@ == env_value(
                    items@[j]@,
                ),
        decreases items@.len() - i,
    {
        let s = &items[i];
        match find_eq(s) {
            None => {
                let e = RuntimeError::EnvMissingEquals(s.clone());
                assert(!env_item_ok(items@[i as int]@) && env_item_error(items@[i as int]@, e));
                return Err(e);
            },
            Some(p) => {
                if p == 0 {
                    let e = RuntimeError::EnvEmptyKey(s.clone());
                    assert(!env_item_ok(items@[i as int]@) && env_item_error(items@[i as int]@, e));
                    return Err(e);
                }
                let n = s.as_str().unicode_len();
                let k = s.as_str().substring_char(0, p);
                let v = s.as_str().substring_char(p + 1, n);
                out.push((String::from_str(k), String::from_str(v)));
            },
        }
        i += 1;
    }
    proof {
        assert(pairs_view(out@) =~= items@.map_values(|s: String| (env_key(s@), env_value(s@))));
    }
    Ok(out)
}

} // verus!
