//! MQTT topic-filter matching: a filter's levels (split on `/`) match a
//! topic's levels one by one, `+` matching any one level and `#` all the
//! rest; a topic starting with `$` matches no filter.
use vstd::prelude::*;

verus! {

/// The levels of a topic or filter: the runs between `/` separators, so
/// `n` separators give `n + 1` levels (possibly empty).
pub open spec fn split_levels(s: Seq<char>) -> Seq<Seq<char>>
    decreases s.len(),
{
    if s.len() == 0 {
        seq![Seq::<char>::empty()]
    } else {
        let rest = split_levels(s.drop_last());
        if s.last() == '/' {
            rest.push(Seq::empty())
        } else {
            rest.update(rest.len() - 1, rest.last().push(s.last()))
        }
    }
}

/// Whether the filter levels `f` match the topic levels `t`.
pub open spec fn levels_match(t: Seq<Seq<char>>, f: Seq<Seq<char>>) -> bool
    decreases f.len(),
{
    if f.len() == 0 {
        t.len() == 0
    } else if f[0] == seq!['#'] {
        true
    } else if t.len() == 0 {
        false
    } else if t[0] == seq!['#'] {
        false
    } else if f[0] == seq!['+'] || f[0] == t[0] {
        levels_match(t.drop_first(), f.drop_first())
    } else {
        false
    }
}

/// Whether the MQTT `topic` falls under the subscription `filter`.
pub open spec fn topic_matches(topic: Seq<char>, filter: Seq<char>) -> bool {
    !(topic.len() > 0 && topic[0] == '$') && levels_match(split_levels(topic), split_levels(filter))
}

pub open spec fn levels_view(v: Seq<Vec<char>>) -> Seq<Seq<char>> {
    v.map_values(|l: Vec<char>| l@)
}

fn split_topic_levels(s: &str) -> (r: Vec<Vec<char>>)
    ensures
        levels_view(r@) == split_levels(s@),
{
    let n = s.unicode_len();
    let mut done: Vec<Vec<char>> = Vec::new();
    let mut cur: Vec<char> = Vec::new();
    let mut i: usize = 0;
    assert(s@.subrange(0, 0) =~= Seq::<char>::empty());
    assert(levels_view(done@).push(cur@) =~= seq![Seq::<char>::empty()]);
    while i < n
        invariant
            0 <= i <= n,
            n == s@.len(),
            split_levels(s@.subrange(0, i as int)) == levels_view(done@).push(cur@),
        decreases n - i,
    {
        let c = s.get_char(i);
        let ghost before = levels_view(done@).push(cur@);
        let ghost next = s@.subrange(0, i + 1);
        assert(next.drop_last() =~= s@.subrange(0, i as int));
        assert(next.last() == c);
        if c == '/' {
            done.push(cur);
            cur = Vec::new();
            assert(levels_view(done@).push(cur@) =~= before.push(Seq::empty()));
        } else {
            cur.push(c);
            assert(levels_view(done@).push(cur@) =~= before.update(
                before.len() - 1,
                before.last().push(c),
            ));
        }
        i = i + 1;
    }
    assert(s@.subrange(0, n as int) =~= s@);
    done.push(cur);
    assert(levels_view(done@) =~= split_levels(s@));
    done
}

fn is_single(v: &Vec<char>, c: char) -> (r: bool)
    ensures
        r == (v@ == seq![c]),
{
    if v.len() == 1 && v[0] == c {
        assert(v@ =~= seq![c]);
        true
    } else {
        false
    }
}

fn same_level(a: &Vec<char>, b: &Vec<char>) -> (r: bool)
    ensures
        r == (a@ == b@),
{
    if a.len() != b.len() {
        return false;
    }
    let mut i: usize = 0;
    while i < a.len()
        invariant
            0 <= i <= a@.len(),
            a@.len() == b@.len(),
            forall|j: int| 0 <= j < i ==> a@[j] == b@[j],
        decreases a@.len() - i,
    {
        if a[i] != b[i] {
            return false;
        }
        i = i + 1;
    }
    assert(a@ =~= b@);
    true
}

/// Whether the MQTT `topic` falls under the subscription `filter`.
pub fn mqtt_topic_matches(topic: &str, filter: &str) -> (r: bool)
    ensures
        r == topic_matches(topic@, filter@),
{
    if topic.unicode_len() > 0 && topic.get_char(0) == '$' {
        return false;
    }
    let t = split_topic_levels(topic);
    let f = split_topic_levels(filter);
    let ghost tv = levels_view(t@);
    let ghost fv = levels_view(f@);
    assert(tv.subrange(0, tv.len() as int) =~= tv);
    assert(fv.subrange(0, fv.len() as int) =~= fv);
    let mut j: usize = 0;
    while j < f.len()
        invariant
            0 <= j <= f@.len(),
            j <= t@.len(),
            tv == levels_view(t@),
            fv == levels_view(f@),
            tv == split_levels(topic@),
            fv == split_levels(filter@),
            !(topic@.len() > 0 && topic@[0] == '$'),
            levels_match(tv, fv) == levels_match(
                tv.subrange(j as int, tv.len() as int),
                fv.subrange(j as int, fv.len() as int),
            ),
        decreases f@.len() - j,
    {
        let ghost ts = tv.subrange(j as int, tv.len() as int);
        let ghost fs = fv.subrange(j as int, fv.len() as int);
        assert(fs.len() > 0);
        assert(fs[0] == f@[j as int]@);
        if is_single(&f[j], '#') {
            assert(levels_match(ts, fs));
            return true;
        }
        if j >= t.len() {
            assert(ts.len() == 0);
            assert(!levels_match(ts, fs));
            return false;
        }
        assert(ts[0] == t@[j as int]@);
        if is_single(&t[j], '#') {
            assert(!levels_match(ts, fs));
            return false;
        }
        if is_single(&f[j], '+') || same_level(&f[j], &t[j]) {
            assert(ts.drop_first() =~= tv.subrange(j + 1, tv.len() as int));
            assert(fs.drop_first() =~= fv.subrange(j + 1, fv.len() as int));
            j = j + 1;
        } else {
            assert(!levels_match(ts, fs));
            return false;
        }
    }
    assert(fv.subrange(j as int, fv.len() as int).len() == 0);
    j == t.len()
}

} // verus!
