use vstd::prelude::*;
use crate::text::{append_str, chars_of, copy_string, ends_with, slice_vec, string_from};

verus! {

/// `PathBuf::join` on Unix: an absolute `part` replaces `base`; otherwise `part`
/// follows `base`, with one `'/'` between them unless `base` is empty or already
/// ends in one.
pub open spec fn path_join(base: Seq<char>, part: Seq<char>) -> Seq<char> {
    if part.len() > 0 && part[0] == '/' {
        part
    } else if base.len() == 0 || base.last() == '/' {
        base + part
    } else {
        base + seq!['/'] + part
    }
}

/// Joining a relative part to a directory stays inside it: the directory's text
/// leads the joined path.
pub proof fn law_join_stays_inside(base: Seq<char>, part: Seq<char>)
    requires
        part.len() == 0 || part[0] != '/',
    ensures
        base.is_prefix_of(path_join(base, part)),
        path_join(base, part).len() >= base.len() + part.len(),
{
    let j = path_join(base, part);
    if base.len() == 0 || base.last() == '/' {
        assert(j.subrange(0, base.len() as int) =~= base);
    } else {
        assert(j.subrange(0, base.len() as int) =~= base);
    }
}

/// `Path::new(base).join(part)`, as text.
pub fn join(base: &str, part: &str) -> (r: String)
    ensures
        r@ == path_join(base@, part@),
{
    let p = chars_of(part);
    let b = chars_of(base);
    if p.len() > 0 && p[0] == '/' {
        return part.to_owned();
    }
    let mut r = base.to_owned();
    if b.len() == 0 || b[b.len() - 1] == '/' {
        append_str(&mut r, part);
    } else {
        append_str(&mut r, "/");
        append_str(&mut r, part);
        proof {
            reveal_strlit("/");
        }
    }
    r
}

/// The last `'.'` of a file name, if any.
pub open spec fn last_dot(name: Seq<char>) -> Option<int> {
    if exists|i: int| 0 <= i < name.len() && name[i] == '.' {
        Some(choose|i: int| 0 <= i < name.len() && name[i] == '.' && forall|j: int| i < j < name.len() ==> name[j] != '.')
    } else {
        None
    }
}

/// `Path::file_stem` and `Path::extension` of a file name: the name splits at its
/// last `'.'`, except that `".."`, a name without a `'.'`, and a name whose only
/// `'.'` leads it have no extension and are their own stem.
pub open spec fn split_extension(name: Seq<char>) -> (Seq<char>, Option<Seq<char>>) {
    if name == seq!['.', '.'] {
        (name, None)
    } else {
        match last_dot(name) {
            None => (name, None),
            Some(i) => if i == 0 {
                (name, None)
            } else {
                (name.take(i), Some(name.skip(i + 1)))
            },
        }
    }
}

/// The stem and extension of a file name, as `Path::file_stem` and
/// `Path::extension` give them.
pub fn file_stem_and_extension(name: &str) -> (r: (String, Option<String>))
    ensures
        r.0@ == split_extension(name@).0,
        match r.1 {
            Some(e) => split_extension(name@).1 == Some(e@),
            None => split_extension(name@).1 is None,
        },
{
    let v = chars_of(name);
    if v.len() == 2 && v[0] == '.' && v[1] == '.' {
        assert(v@ =~= seq!['.', '.']);
        return (name.to_owned(), None);
    }
    assert(v@ != seq!['.', '.']);
    let mut i = v.len();
    while i > 0 && v[i - 1] != '.'
        invariant
            i <= v.len(),
            forall|j: int| i <= j < v.len() ==> v@[j] != '.',
        decreases i,
    {
        i = i - 1;
    }
    if i == 0 {
        assert(!exists|k: int| 0 <= k < v@.len() && v@[k] == '.');
        return (name.to_owned(), None);
    }
    let dot = i - 1;
    assert(forall|k: int| 0 <= k < v@.len() && v@[k] == '.' && (forall|j: int| k < j < v@.len() ==> v@[j] != '.') ==> k == dot);
    assert(last_dot(v@) == Some(dot as int));
    if dot == 0 {
        return (name.to_owned(), None);
    }
    let stem = slice_vec(&v, 0, dot);
    let ext = slice_vec(&v, dot + 1, v.len());
    assert(stem@ =~= v@.take(dot as int));
    assert(ext@ =~= v@.skip(dot + 1));
    (string_from(&stem), Some(string_from(&ext)))
}

} // verus!
