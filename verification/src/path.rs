//! Slash-separated paths: the base name of a path and the joining of a
//! directory with a name.
//!
//! A path is read as a run of components parted by `/`. Empty components
//! and the component `.` name nothing and are passed over; the component
//! `..` names the parent and has no base name.

use vstd::prelude::*;
use crate::text::chars_of;

verus! {

/// `p` ends in a component `.`.
pub open spec fn ends_in_dot(p: Seq<char>) -> bool {
    &&& p.len() > 0
    &&& p.last() == '.'
    &&& (p.len() == 1 || p[p.len() - 2] == '/')
}

/// `p` without the separators and `.` components at its end.
pub open spec fn trimmed(p: Seq<char>) -> Seq<char>
    decreases p.len(),
{
    if p.len() > 0 && (p.last() == '/' || ends_in_dot(p)) {
        trimmed(p.drop_last())
    } else {
        p
    }
}

/// Where the last component of `p` starts: just behind the last separator,
/// or at 0 where `p` holds none.
pub open spec fn last_component_start(p: Seq<char>) -> int
    decreases p.len(),
{
    if p.len() == 0 || p.last() == '/' {
        p.len() as int
    } else {
        last_component_start(p.drop_last())
    }
}

/// The last component of `p` that names something.
pub open spec fn last_component(p: Seq<char>) -> Seq<char> {
    let q = trimmed(p);
    q.subrange(last_component_start(q), q.len() as int)
}

/// The base name of `p`: its last component that names something, unless
/// there is none or it is `..`.
pub open spec fn base_name_of(p: Seq<char>) -> Option<Seq<char>> {
    let name = last_component(p);
    if name.len() == 0 || name == seq!['.', '.'] {
        None
    } else {
        Some(name)
    }
}

/// A text that can be a base name: not empty, without separator, and
/// neither `.` nor `..`.
pub open spec fn is_file_name(name: Seq<char>) -> bool {
    &&& name.len() > 0
    &&& !name.contains('/')
    &&& name != seq!['.']
    &&& name != seq!['.', '.']
}

/// `dir` with `name` adjoined: a name that starts at the root stands alone,
/// and one separator is put in where `dir` does not end in one.
pub open spec fn joined(dir: Seq<char>, name: Seq<char>) -> Seq<char> {
    if name.len() > 0 && name[0] == '/' {
        name
    } else if dir.len() == 0 || dir.last() == '/' {
        dir + name
    } else {
        dir + seq!['/'] + name
    }
}

proof fn lemma_trimmed_bounds(p: Seq<char>)
    ensures
        trimmed(p).len() <= p.len(),
        trimmed(p) == p.take(trimmed(p).len() as int),
        trimmed(p).len() > 0 ==> trimmed(p).last() != '/' && !ends_in_dot(trimmed(p)),
    decreases p.len(),
{
    if p.len() > 0 && (p.last() == '/' || ends_in_dot(p)) {
        lemma_trimmed_bounds(p.drop_last());
        let q = trimmed(p);
        assert(p.drop_last().take(q.len() as int) =~= p.take(q.len() as int));
    } else {
        assert(p.take(p.len() as int) =~= p);
    }
}

proof fn lemma_last_component_start(p: Seq<char>)
    ensures
        0 <= last_component_start(p) <= p.len(),
        forall|i: int| last_component_start(p) <= i < p.len() ==> p[i] != '/',
        last_component_start(p) > 0 ==> p[last_component_start(p) - 1] == '/',
    decreases p.len(),
{
    if p.len() == 0 || p.last() == '/' {
    } else {
        let rest = p.drop_last();
        lemma_last_component_start(rest);
        assert forall|i: int| last_component_start(p) <= i < p.len() implies p[i] != '/' by {
            if i < rest.len() {
                assert(p[i] == rest[i]);
            }
        }
    }
}

/// A base name is a file name, and the path holds it whole: from the start
/// or from behind a separator, up to the end or to a separator.
pub proof fn lemma_base_name_is_file_name(p: Seq<char>)
    requires
        base_name_of(p) is Some,
    ensures
        is_file_name(base_name_of(p)->0),
        ({
            let start = last_component_start(trimmed(p));
            let end = trimmed(p).len() as int;
            &&& 0 <= start < end <= p.len()
            &&& p.subrange(start, end) == base_name_of(p)->0
            &&& (start == 0 || p[start - 1] == '/')
            &&& (end == p.len() || p[end] == '/')
        }),
{
    let q = trimmed(p);
    let start = last_component_start(q);
    let end = q.len() as int;
    let name = last_component(p);
    lemma_trimmed_bounds(p);
    lemma_last_component_start(q);
    assert(name =~= p.subrange(start, end));
    assert(!name.contains('/')) by {
        if name.contains('/') {
            let i = choose|i: int| 0 <= i < name.len() && name[i] == '/';
            assert(q[start + i] == '/');
        }
    }
    if name == seq!['.'] {
        assert(name.len() == 1);
        assert(q.last() == name[0]);
        assert(ends_in_dot(q));
    }
    if end < p.len() {
        lemma_trim_stops_at_separator(p);
    }
}

/// What trimming takes away starts with a separator, unless the whole path
/// is taken away.
proof fn lemma_trim_stops_at_separator(p: Seq<char>)
    requires
        0 < trimmed(p).len() < p.len(),
    ensures
        p[trimmed(p).len() as int] == '/',
    decreases p.len(),
{
    lemma_trimmed_bounds(p);
    let rest = p.drop_last();
    lemma_trimmed_bounds(rest);
    if trimmed(rest).len() < rest.len() {
        lemma_trim_stops_at_separator(rest);
    } else {
        // Nothing more goes: the last character of `p` is the first to go.
        assert(trimmed(rest) == rest);
        if p.last() != '/' {
            assert(ends_in_dot(p));
            assert(p[p.len() - 2] == '/');
            assert(rest.last() == '/');
        }
    }
}

/// Adjoining a file name to a directory gives a path with that base name.
pub proof fn lemma_base_name_of_joined(dir: Seq<char>, name: Seq<char>)
    requires
        is_file_name(name),
    ensures
        base_name_of(joined(dir, name)) == Some(name),
{
    let p = joined(dir, name);
    assert(name[0] != '/') by {
        if name[0] == '/' {
            assert(name.contains('/'));
        }
    }
    let head = if dir.len() == 0 || dir.last() == '/' {
        dir
    } else {
        dir + seq!['/']
    };
    assert(p =~= head + name);
    assert(head.len() == 0 || head.last() == '/');
    // Nothing is trimmed: the path ends in the last character of the name.
    assert(p.last() == name.last());
    assert(p.last() != '/') by {
        if name.last() == '/' {
            assert(name.contains('/'));
        }
    }
    assert(!ends_in_dot(p)) by {
        if ends_in_dot(p) {
            if name.len() == 1 {
                assert(name =~= seq!['.']);
            } else {
                assert(p[p.len() - 2] == name[name.len() - 2]);
                assert(name.contains('/'));
            }
        }
    }
    assert(trimmed(p) == p);
    lemma_component_start_after_head(head, name, name.len() as int);
    assert((head + name).take(head.len() + name.len() as int) =~= p);
    assert(p.subrange(head.len() as int, p.len() as int) =~= name);
}

/// Behind a head that is empty or ends in a separator, a run without
/// separators is one component.
proof fn lemma_component_start_after_head(head: Seq<char>, name: Seq<char>, k: int)
    requires
        head.len() == 0 || head.last() == '/',
        !name.contains('/'),
        0 <= k <= name.len(),
    ensures
        last_component_start((head + name).take(head.len() + k)) == head.len(),
    decreases k,
{
    let p = (head + name).take(head.len() + k);
    if k == 0 {
        assert(p =~= head);
    } else {
        assert(p.last() == name[k - 1]);
        assert(p.last() != '/') by {
            if name[k - 1] == '/' {
                assert(name.contains('/'));
            }
        }
        assert(p.drop_last() =~= (head + name).take(head.len() + k - 1));
        lemma_component_start_after_head(head, name, k - 1);
    }
}

/// The base name of `path`, where it has one.
pub fn base_name(path: &str) -> (name: Option<String>)
    ensures
        match name {
            Some(n) => base_name_of(path@) == Some(n@),
            None => base_name_of(path@) is None,
        },
{
    let v = chars_of(path);
    let mut end: usize = v.len();
    assert(path@.take(end as int) =~= path@);
    while end > 0 && (v[end - 1] == '/' || (v[end - 1] == '.' && (end == 1 || v[end - 2] == '/')))
        invariant
            end <= v.len(),
            v@ == path@,
            trimmed(path@) == trimmed(path@.take(end as int)),
        decreases end,
    {
        proof {
            let p = path@.take(end as int);
            assert(p.drop_last() =~= path@.take(end - 1));
        }
        end = end - 1;
    }
    let ghost q = path@.take(end as int);
    assert(trimmed(q) == q);
    assert(q.take(end as int) =~= q);
    let mut start: usize = end;
    while start > 0 && v[start - 1] != '/'
        invariant
            start <= end <= v.len(),
            v@ == path@,
            q == path@.take(end as int),
            last_component_start(q) == last_component_start(q.take(start as int)),
        decreases start,
    {
        proof {
            assert(q.take(start as int).drop_last() =~= q.take(start - 1));
        }
        start = start - 1;
    }
    proof {
        assert(last_component_start(q) == start);
        assert(q.subrange(start as int, end as int) =~= path@.subrange(start as int, end as int));
    }
    if start == end {
        return None;
    }
    if end - start == 2 && v[start] == '.' && v[start + 1] == '.' {
        assert(path@.subrange(start as int, end as int) =~= seq!['.', '.']);
        return None;
    }
    proof {
        let name = path@.subrange(start as int, end as int);
        if name == seq!['.', '.'] {
            assert(name.len() == 2);
            assert(name[0] == '.' && name[1] == '.');
        }
    }
    Some(path.substring_char(start, end).to_owned())
}

/// `dir` with `name` adjoined.
pub fn join(dir: &str, name: &str) -> (path: String)
    ensures
        path@ == joined(dir@, name@),
{
    let d = chars_of(dir);
    let n = chars_of(name);
    if n.len() > 0 && n[0] == '/' {
        return name.to_owned();
    }
    let mut path = dir.to_owned();
    if d.len() > 0 && d[d.len() - 1] != '/' {
        proof {
            reveal_strlit("/");
        }
        path.append("/");
        assert(path@ =~= dir@ + seq!['/']);
    }
    path.append(name);
    path
}

} // verus!
