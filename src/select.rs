//! Incremental file selection: which paths a push transfers, or none to fall
//! back to the whole tree.
use vstd::prelude::*;
use vstd::string::*;
use crate::text::{owned, views};

verus! {

/// What a version-control listing query gave.
pub enum Listing {
    /// The query could not be run at all.
    Unavailable,
    /// The query ran and failed (e.g. not a repository).
    Failed,
    /// The query succeeded with these paths, one per output line.
    Listed(Vec<String>),
}

/// The non-empty paths of `s`, in order.
pub open spec fn nonempty_paths(s: Seq<Seq<char>>) -> Seq<Seq<char>>
    decreases s.len(),
{
    if s.len() == 0 {
        s
    } else {
        let sub = nonempty_paths(s.drop_last());
        if s.last().len() > 0 {
            sub.push(s.last())
        } else {
            sub
        }
    }
}

/// The manifest a push uses: `None` means the whole tree, filtered by the
/// exclusions. With incremental mode on, both queries usable and at least one
/// indexed path, it is the indexed paths followed by the non-empty untracked ones.
pub open spec fn selection(incremental: bool, indexed: Listing, untracked: Listing) -> Option<
    Seq<Seq<char>>,
> {
    if !incremental {
        None
    } else {
        match indexed {
            Listing::Listed(t) => if t@.len() == 0 {
                None
            } else {
                match untracked {
                    Listing::Listed(u) => Some(views(t@) + nonempty_paths(views(u@))),
                    Listing::Failed => Some(views(t@)),
                    Listing::Unavailable => None,
                }
            },
            _ => None,
        }
    }
}

/// The view of an optional list of paths.
pub open spec fn opt_views(m: Option<Vec<String>>) -> Option<Seq<Seq<char>>> {
    match m {
        Some(v) => Some(views(v@)),
        None => None,
    }
}

/// Appends the non-empty strings of `src` to `dst`.
pub fn append_nonempty(dst: &mut Vec<String>, src: &Vec<String>)
    ensures
        views(final(dst)@) == views(old(dst)@) + nonempty_paths(views(src@)),
{
    let ghost start = views(dst@);
    let mut i: usize = 0;
    while i < src.len()
        invariant
            i <= src.len(),
            views(dst@) == start + nonempty_paths(views(src@).subrange(0, i as int)),
        decreases src.len() - i,
    {
        let ghost before = views(dst@);
        let ghost prefix = views(src@).subrange(0, i as int + 1);
        assert(prefix.drop_last() =~= views(src@).subrange(0, i as int));
        assert(prefix.last() == src@[i as int]@);
        if src[i].unicode_len() > 0 {
            dst.push(owned(src[i].as_str()));
            assert(views(dst@) =~= before.push(src@[i as int]@));
        }
        i = i + 1;
    }
    assert(views(src@).subrange(0, src.len() as int) =~= views(src@));
}

/// Decides the manifest from the two listings. Never fails: a listing that
/// could not be had, or no indexed path, means a full-tree push.
pub fn select_manifest(incremental: bool, indexed: &Listing, untracked: &Listing) -> (r: Option<
    Vec<String>,
>)
    ensures
        opt_views(r) == selection(incremental, *indexed, *untracked),
{
    if !incremental {
        return None;
    }
    match indexed {
        Listing::Listed(t) => {
            if t.len() == 0 {
                return None;
            }
            let mut files: Vec<String> = Vec::new();
            append_all(&mut files, t);
            match untracked {
                Listing::Listed(u) => {
                    append_nonempty(&mut files, u);
                },
                Listing::Failed => {},
                Listing::Unavailable => {
                    return None;
                },
            }
            Some(files)
        },
        _ => None,
    }
}

/// Appends every string of `src` to `dst`.
fn append_all(dst: &mut Vec<String>, src: &Vec<String>)
    ensures
        views(final(dst)@) == views(old(dst)@) + views(src@),
{
    let ghost start = views(dst@);
    let mut i: usize = 0;
    while i < src.len()
        invariant
            i <= src.len(),
            views(dst@) == start + views(src@).subrange(0, i as int),
        decreases src.len() - i,
    {
        let ghost before = views(dst@);
        dst.push(owned(src[i].as_str()));
        assert(views(dst@) =~= before.push(src@[i as int]@));
        assert(views(src@).subrange(0, i as int + 1) =~= views(src@).subrange(0, i as int).push(
            src@[i as int]@,
        ));
        i = i + 1;
    }
    assert(views(src@).subrange(0, src.len() as int) =~= views(src@));
}

} // verus!
