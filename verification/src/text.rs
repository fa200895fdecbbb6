use vstd::prelude::*;

verus! {

/// Index of the first occurrence of `t` in `s` at or after `from`, if any.
pub open spec fn find_from(s: Seq<char>, from: int, t: char) -> Option<int>
    decreases s.len() - from,
{
    if from < 0 || from >= s.len() {
        None
    } else if s[from] == t {
        Some(from)
    } else {
        find_from(s, from + 1, t)
    }
}

/// Index of the last occurrence of `t` in `s` strictly before `end`, if any.
pub open spec fn rfind_before(s: Seq<char>, end: int, t: char) -> Option<int>
    decreases end,
{
    if end <= 0 || end > s.len() {
        None
    } else if s[end - 1] == t {
        Some(end - 1)
    } else {
        rfind_before(s, end - 1, t)
    }
}

/// `find_from` returns the first occurrence at or after `from`: nothing
/// matches before the returned index, and `None` means nothing matches at
/// all.
pub proof fn lemma_find_from(s: Seq<char>, from: int, t: char)
    requires
        0 <= from <= s.len(),
    ensures
        match find_from(s, from, t) {
            Some(i) => from <= i < s.len() && s[i] == t && (forall|j: int|
                from <= j < i ==> s[j] != t),
            None => forall|j: int| from <= j < s.len() ==> s[j] != t,
        },
    decreases s.len() - from,
{
    if from < s.len() && s[from] != t {
        lemma_find_from(s, from + 1, t);
    }
}

/// The first occurrence determines `find_from`: if `i` matches and nothing
/// before it does, `find_from` returns exactly `i`.
pub proof fn lemma_find_from_is(s: Seq<char>, from: int, t: char, i: int)
    requires
        0 <= from <= i < s.len(),
        s[i] == t,
        forall|j: int| from <= j < i ==> s[j] != t,
    ensures
        find_from(s, from, t) == Some(i),
    decreases i - from,
{
    if from < i {
        lemma_find_from_is(s, from + 1, t, i);
    }
}

/// `rfind_before` returns the last occurrence before `end`: nothing matches
/// after the returned index, and `None` means nothing matches at all.
pub proof fn lemma_rfind_before(s: Seq<char>, end: int, t: char)
    requires
        0 <= end <= s.len(),
    ensures
        match rfind_before(s, end, t) {
            Some(i) => 0 <= i < end && s[i] == t && (forall|j: int| i < j < end ==> s[j] != t),
            None => forall|j: int| 0 <= j < end ==> s[j] != t,
        },
    decreases end,
{
    if end > 0 && s[end - 1] != t {
        lemma_rfind_before(s, end - 1, t);
    }
}

/// The last occurrence determines `rfind_before`: if `i` matches and nothing
/// after it does, `rfind_before` returns exactly `i`.
pub proof fn lemma_rfind_before_is(s: Seq<char>, end: int, t: char, i: int)
    requires
        0 <= i < end <= s.len(),
        s[i] == t,
        forall|j: int| i < j < end ==> s[j] != t,
    ensures
        rfind_before(s, end, t) == Some(i),
    decreases end,
{
    if i < end - 1 {
        lemma_rfind_before_is(s, end - 1, t, i);
    }
}

/// Lift an `Option<usize>` into the mathematical domain of the spec scans.
pub open spec fn as_int_opt(r: Option<usize>) -> Option<int> {
    match r {
        Some(i) => Some(i as int),
        None => None,
    }
}

/// First index at or after `from` holding `t`, scanning forward.
pub fn vec_find_from(v: &Vec<char>, from: usize, t: char) -> (r: Option<usize>)
    requires
        from <= v.len(),
    ensures
        as_int_opt(r) == find_from(v@, from as int, t),
{
    let mut i: usize = from;
    while i < v.len()
        invariant
            from <= i <= v.len(),
            forall|j: int| from <= j < i ==> v@[j] != t,
        decreases v.len() - i,
    {
        if v[i] == t {
            proof {
                lemma_find_from_is(v@, from as int, t, i as int);
            }
            return Some(i);
        }
        i += 1;
    }
    proof {
        lemma_find_from(v@, from as int, t);
    }
    None
}

/// Last index strictly before `end` holding `t`, scanning backward.
pub fn vec_rfind_before(v: &Vec<char>, end: usize, t: char) -> (r: Option<usize>)
    requires
        end <= v.len(),
    ensures
        as_int_opt(r) == rfind_before(v@, end as int, t),
{
    let mut i: usize = end;
    while i > 0
        invariant
            0 <= i <= end <= v.len(),
            forall|j: int| i <= j < end ==> v@[j] != t,
        decreases i,
    {
        i -= 1;
        if v[i] == t {
            proof {
                lemma_rfind_before_is(v@, end as int, t, i as int);
            }
            return Some(i);
        }
    }
    proof {
        lemma_rfind_before(v@, end as int, t);
    }
    None
}

} // verus!
