use vstd::prelude::*;

verus! {

/// True when `entry` lies below `root`: it begins with `root`, followed by
/// the path separator. Entries handed to the generator by a directory walk
/// rooted at `root` always satisfy this.
pub open spec fn under_root(entry: Seq<char>, root: Seq<char>) -> bool {
    &&& entry.len() > root.len()
    &&& entry.subrange(0, root.len() as int) == root
    &&& entry[root.len() as int] == '/'
}

/// The path of `entry` relative to `root`: what follows `root` and the
/// separator.
pub open spec fn rel_of(entry: Seq<char>, root: Seq<char>) -> Seq<char>
    recommends
        under_root(entry, root),
{
    entry.subrange(root.len() as int + 1, entry.len() as int)
}

/// Relativize `entry` against `root`: strip the leading `root` and the
/// separator after it. Returns `None` when `entry` does not lie below
/// `root`.
pub fn relative_to_root(entry: &str, root: &str) -> (r: Option<String>)
    ensures
        r is Some <==> under_root(entry@, root@),
        r matches Some(s) ==> s@ == rel_of(entry@, root@),
{
    let el = entry.unicode_len();
    let rl = root.unicode_len();
    if el <= rl {
        return None;
    }
    let mut i: usize = 0;
    while i < rl
        invariant
            i <= rl,
            rl < el,
            el == entry@.len(),
            rl == root@.len(),
            forall|j: int| 0 <= j < i ==> entry@[j] == root@[j],
        decreases rl - i,
    {
        if entry.get_char(i) != root.get_char(i) {
            proof {
                assert(entry@.subrange(0, root@.len() as int)[i as int] == entry@[i as int]);
            }
            return None;
        }
        i += 1;
    }
    if entry.get_char(rl) != '/' {
        return None;
    }
    let rest = entry.substring_char(rl + 1, el);
    proof {
        assert(entry@.subrange(0, root@.len() as int) =~= root@);
    }
    Some(rest.to_owned())
}

/// `s` with every trailing separator removed.
pub open spec fn trimmed_root(s: Seq<char>) -> Seq<char>
    decreases s.len(),
{
    if s.len() > 0 && s[s.len() - 1] == '/' {
        trimmed_root(s.drop_last())
    } else {
        s
    }
}

/// Strip trailing separators from a template-root path, so that entries of
/// a walk below it relativize cleanly.
pub fn trim_root(root: &str) -> (r: String)
    ensures
        r@ == trimmed_root(root@),
{
    let mut end = root.unicode_len();
    proof {
        assert(root@.subrange(0, root@.len() as int) =~= root@);
    }
    while end > 0 && root.get_char(end - 1) == '/'
        invariant
            end <= root@.len(),
            trimmed_root(root@) == trimmed_root(root@.subrange(0, end as int)),
        decreases end,
    {
        proof {
            assert(root@.subrange(0, end as int).drop_last() =~= root@.subrange(0, end - 1));
        }
        end = end - 1;
    }
    let r = root.substring_char(0, end);
    r.to_owned()
}

/// The result of joining `rel` onto `target`, as a path join does: an
/// absolute `rel` stands alone, an empty `target` contributes nothing, and
/// a separator is inserted only where `target` does not already end in one.
pub open spec fn joined(target: Seq<char>, rel: Seq<char>) -> Seq<char> {
    if rel.len() > 0 && rel[0] == '/' {
        rel
    } else if target.len() == 0 {
        rel
    } else if target[target.len() - 1] == '/' {
        target + rel
    } else {
        target + seq!['/'] + rel
    }
}

/// Join `rel` onto `target`.
pub fn join_path(target: &str, rel: &str) -> (r: String)
    ensures
        r@ == joined(target@, rel@),
{
    let rl = rel.unicode_len();
    let tl = target.unicode_len();
    if rl > 0 && rel.get_char(0) == '/' {
        return rel.to_owned();
    }
    if tl == 0 {
        return rel.to_owned();
    }
    let mut s = target.to_owned();
    if target.get_char(tl - 1) != '/' {
        s.append("/");
        proof {
            reveal_strlit("/");
            assert(s@ =~= target@ + seq!['/']);
        }
    }
    s.append(rel);
    proof {
        if target@[target@.len() - 1] != '/' {
            assert(s@ =~= target@ + seq!['/'] + rel@);
        }
    }
    s
}

} // verus!
