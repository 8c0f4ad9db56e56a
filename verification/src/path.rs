//! Path arithmetic and the secure join: resolving a container-rooted
//! destination onto the host rootfs so that no symbolic link inside the
//! in-progress rootfs can lead outside of it.

use vstd::prelude::*;
use vstd::string::StrSliceExecFns;
use crate::strutil::{split_chars, split_on, str_eq, lemma_split_chars_nonempty};
use crate::sys;

verus! {

/// A clean path component: nonempty and neither `.` nor `..`.
pub open spec fn clean_comp(c: Seq<char>) -> bool {
    c.len() > 0 && c != "."@ && c != ".."@
}

/// A well-formed component: clean and free of separators.
pub open spec fn wf_comp(c: Seq<char>) -> bool {
    clean_comp(c) && !c.contains('/')
}

pub open spec fn wf_comps(cs: Seq<Seq<char>>) -> bool {
    forall|i: int| 0 <= i < cs.len() ==> wf_comp(cs[i])
}

/// `root` with the components appended, one `/` before each.
pub open spec fn join_under(root: Seq<char>, cs: Seq<Seq<char>>) -> Seq<char>
    decreases cs.len(),
{
    if cs.len() == 0 {
        root
    } else {
        join_under(root, cs.drop_last()) + "/"@ + cs.last()
    }
}

/// `p` lies below `root`: it is `root` itself or `root` extended by
/// well-formed components. Every path the secure join hands out is of this
/// shape, so `..` and symbolic-link targets can never leave `root`.
pub open spec fn path_under(root: Seq<char>, p: Seq<char>) -> bool {
    exists|cs: Seq<Seq<char>>| wf_comps(cs) && p == join_under(root, cs)
}

/// Normalization of raw path pieces: empty pieces and `.` vanish, `..` drops
/// the previous component but never climbs above the start.
pub open spec fn normalize(pieces: Seq<Seq<char>>) -> Seq<Seq<char>>
    decreases pieces.len(),
{
    if pieces.len() == 0 {
        Seq::<Seq<char>>::empty()
    } else {
        let r = normalize(pieces.drop_last());
        let p = pieces.last();
        if p.len() == 0 || p == "."@ {
            r
        } else if p == ".."@ {
            if r.len() > 0 {
                r.drop_last()
            } else {
                r
            }
        } else {
            r.push(p)
        }
    }
}

/// Normalization only ever emits clean components.
pub proof fn lemma_normalize_clean(pieces: Seq<Seq<char>>)
    ensures
        forall|i: int| 0 <= i < normalize(pieces).len() ==> clean_comp(#[trigger] normalize(
            pieces,
        )[i]),
    decreases pieces.len(),
{
    if pieces.len() > 0 {
        lemma_normalize_clean(pieces.drop_last());
        let r = normalize(pieces.drop_last());
        let p = pieces.last();
        if p.len() == 0 || p == "."@ {
        } else if p == ".."@ {
            if r.len() > 0 {
                assert forall|i: int| 0 <= i < normalize(pieces).len() implies clean_comp(
                    #[trigger] normalize(pieces)[i],
                ) by {
                    assert(normalize(pieces)[i] == r[i]);
                }
            }
        } else {
            assert forall|i: int| 0 <= i < normalize(pieces).len() implies clean_comp(
                #[trigger] normalize(pieces)[i],
            ) by {
                if i < r.len() {
                    assert(normalize(pieces)[i] == r[i]);
                }
            }
        }
    }
}

/// Normalization leaves a sequence of clean components untouched.
pub proof fn lemma_normalize_identity(cs: Seq<Seq<char>>)
    requires
        forall|i: int| 0 <= i < cs.len() ==> clean_comp(#[trigger] cs[i]),
    ensures
        normalize(cs) == cs,
    decreases cs.len(),
{
    if cs.len() > 0 {
        lemma_normalize_identity(cs.drop_last());
        assert(normalize(cs) =~= cs);
    } else {
        assert(normalize(cs) =~= cs);
    }
}

/// The secure join's normalization is idempotent: normalizing an already
/// normalized component list changes nothing.
pub proof fn lemma_normalize_idempotent(pieces: Seq<Seq<char>>)
    ensures
        normalize(normalize(pieces)) == normalize(pieces),
{
    lemma_normalize_clean(pieces);
    lemma_normalize_identity(normalize(pieces));
}

/// No piece of a split contains the separator it was split on.
pub proof fn lemma_split_chars_no_sep(s: Seq<char>, sep: char)
    ensures
        forall|i: int| 0 <= i < split_chars(s, sep).len() ==> !(#[trigger] split_chars(s, sep)[i])
            .contains(sep),
    decreases s.len(),
{
    if s.len() > 0 {
        lemma_split_chars_no_sep(s.drop_last(), sep);
        lemma_split_chars_nonempty(s.drop_last(), sep);
        if s.last() != sep {
            let r = split_chars(s.drop_last(), sep);
            let upd = r.update(r.len() - 1, r.last().push(s.last()));
            assert forall|i: int| 0 <= i < upd.len() implies !(#[trigger] upd[i]).contains(sep) by {
                if i == upd.len() - 1 {
                    let piece = r.last().push(s.last());
                    assert forall|j: int| 0 <= j < piece.len() implies piece[j] != sep by {
                        if j < piece.len() - 1 {
                            assert(piece[j] == r.last()[j]);
                            assert(!r.last().contains(sep));
                        }
                    }
                    if piece.contains(sep) {
                        let j = choose|j: int| 0 <= j < piece.len() && piece[j] == sep;
                        assert(false);
                    }
                }
            }
        }
    }
}

/// Everything before the last separator: the parent of a path that ends in
/// a component.
pub open spec fn dirname(s: Seq<char>) -> Seq<char>
    decreases s.len(),
{
    if s.len() == 0 {
        s
    } else if s.last() == '/' {
        s.drop_last()
    } else {
        dirname(s.drop_last())
    }
}

/// The parent of `s`: everything before the last `/`, or the empty string
/// when there is none.
pub fn parent_path(s: &String) -> (r: String)
    ensures
        r@ == dirname(s@),
{
    let n = s.as_str().unicode_len();
    let mut j: usize = n;
    proof {
        assert(s@.take(n as int) =~= s@);
    }
    while j > 0
        invariant
            j <= n,
            n == s@.len(),
            dirname(s@) == dirname(s@.take(j as int)),
        decreases j,
    {
        if s.as_str().get_char(j - 1) == '/' {
            proof {
                assert(s@.take(j as int).last() == s@[j - 1int]);
                assert(s@.take(j as int).drop_last() =~= s@.take(j - 1int));
            }
            return s.as_str().substring_char(0, j - 1).to_owned();
        }
        proof {
            assert(s@.take(j as int).last() == s@[j - 1int]);
            assert(s@.take(j as int).drop_last() =~= s@.take(j - 1int));
        }
        j = j - 1;
    }
    proof {
        assert(s@.take(0) =~= Seq::<char>::empty());
    }
    String::new()
}

/// Everything after the last separator: the final component, or the empty
/// string when the path ends in a separator or is empty.
pub open spec fn basename(s: Seq<char>) -> Seq<char>
    decreases s.len(),
{
    if s.len() == 0 {
        s
    } else if s.last() == '/' {
        Seq::<char>::empty()
    } else {
        basename(s.drop_last()).push(s.last())
    }
}

/// The final component of `s`, after the last `/`.
pub fn base_name(s: &String) -> (r: String)
    ensures
        r@ == basename(s@),
{
    let n = s.as_str().unicode_len();
    let mut j: usize = n;
    proof {
        assert(s@.take(n as int) =~= s@);
        assert(s@.subrange(n as int, n as int) =~= Seq::<char>::empty());
        assert(basename(s@) =~= basename(s@.take(j as int)) + s@.subrange(j as int, n as int));
    }
    while j > 0
        invariant
            j <= n,
            n == s@.len(),
            basename(s@) =~= basename(s@.take(j as int)) + s@.subrange(j as int, n as int),
        decreases j,
    {
        if s.as_str().get_char(j - 1) == '/' {
            proof {
                assert(s@.take(j as int).last() == s@[j - 1int]);
                assert(basename(s@.take(j as int)) =~= Seq::<char>::empty());
                assert(basename(s@) =~= s@.subrange(j as int, n as int));
            }
            return s.as_str().substring_char(j, n).to_owned();
        }
        proof {
            assert(s@.take(j as int).last() == s@[j - 1int]);
            assert(s@.take(j as int).drop_last() =~= s@.take(j - 1int));
            assert(basename(s@.take(j as int)) =~= basename(s@.take(j - 1int)).push(
                s@[j - 1int],
            ));
            assert(basename(s@.take(j - 1int)).push(s@[j - 1int]) + s@.subrange(j as int, n as int)
                =~= basename(s@.take(j - 1int)) + s@.subrange(j - 1int, n as int));
        }
        j = j - 1;
    }
    proof {
        assert(s@.take(0) =~= Seq::<char>::empty());
        assert(basename(Seq::<char>::empty()) =~= Seq::<char>::empty());
        assert(basename(s@) =~= s@.subrange(0, n as int));
        assert(s@.subrange(0, n as int) =~= s@);
    }
    s.clone()
}

/// `base` with `rel` attached below it; a leading separator of `rel` is
/// dropped first, and an empty remainder leaves `base` untouched.
pub open spec fn spec_join_path(base: Seq<char>, rel: Seq<char>) -> Seq<char> {
    let stripped = if rel.len() > 0 && rel[0] == '/' {
        rel.skip(1)
    } else {
        rel
    };
    if stripped.len() == 0 {
        base
    } else {
        base + "/"@ + stripped
    }
}

/// Join `rel` below `base`.
pub fn join_path(base: &String, rel: &String) -> (r: String)
    ensures
        r@ == spec_join_path(base@, rel@),
{
    let n = rel.as_str().unicode_len();
    let stripped: String = if n > 0 && rel.as_str().get_char(0) == '/' {
        proof {
            assert(rel@.subrange(1, n as int) =~= rel@.skip(1));
        }
        rel.as_str().substring_char(1, n).to_owned()
    } else {
        rel.clone()
    };
    if stripped.as_str().unicode_len() == 0 {
        base.clone()
    } else {
        let mut r = base.clone();
        r.append("/");
        r.append(stripped.as_str());
        r
    }
}

#[derive(Debug)]
pub enum PathError {
    /// Too many chained symbolic links below the destination.
    LinkLoop,
}

/// Build `root/c1/c2/...` as a string.
pub fn join_under_exec(root: &String, comps: &Vec<String>) -> (r: String)
    ensures
        r@ == join_under(root@, comps.deep_view()),
{
    let mut r = root.clone();
    let mut i: usize = 0;
    while i < comps.len()
        invariant
            i <= comps.len(),
            r@ == join_under(root@, comps.deep_view().take(i as int)),
        decreases comps.len() - i,
    {
        r.append("/");
        r.append(comps[i].as_str());
        proof {
            let dv = comps.deep_view();
            assert(dv.take(i + 1 as int).drop_last() =~= dv.take(i as int));
            assert(dv.take(i + 1 as int).last() == dv[i as int]);
        }
        i = i + 1;
    }
    proof {
        assert(comps.deep_view().take(comps.len() as int) =~= comps.deep_view());
    }
    r
}

/// How many chained symbolic links the secure join follows before giving up.
pub const MAX_SYMLINK_FOLLOWS: usize = 32;

/// Join `unsafe_path` onto `rootfs`, never letting `..` or a symbolic link
/// escape `rootfs`: whatever the filesystem answers about links, the result
/// is `rootfs` extended by well-formed components.
pub fn secure_join(rootfs: &String, unsafe_path: &String) -> (r: Result<String, PathError>)
    ensures
        r matches Ok(p) ==> path_under(rootfs@, p@),
        r matches Ok(p) ==> exists|cs: Seq<Seq<char>>|
            wf_comps(cs) && p@ == join_under(rootfs@, cs) && #[trigger] normalize(cs) == cs,
{
    let mut pending: Vec<String> = split_on(unsafe_path.as_str(), '/');
    let mut clean: Vec<String> = Vec::new();
    let mut budget: usize = MAX_SYMLINK_FOLLOWS;
    proof {
        lemma_split_chars_no_sep(unsafe_path@, '/');
    }
    while pending.len() > 0
        invariant
            forall|i: int| 0 <= i < pending.deep_view().len() ==> !(#[trigger] pending.deep_view()[i])
                .contains('/'),
            wf_comps(clean.deep_view()),
        decreases budget, pending.len(),
    {
        let ghost old_pending = pending.deep_view();
        let piece = pending.remove(0);
        proof {
            assert(piece@ == old_pending[0]);
            assert forall|i: int| 0 <= i < pending.deep_view().len() implies !(
            #[trigger] pending.deep_view()[i]).contains('/') by {
                assert(pending.deep_view()[i] == old_pending[i + 1]);
            }
        }
        if piece.as_str().unicode_len() == 0 || str_eq(piece.as_str(), ".") {
            continue;
        }
        if str_eq(piece.as_str(), "..") {
            if clean.len() > 0 {
                let ghost oldc = clean.deep_view();
                clean.pop();
                proof {
                    assert forall|i: int| 0 <= i < clean.deep_view().len() implies wf_comp(
                        #[trigger] clean.deep_view()[i],
                    ) by {
                        assert(clean.deep_view()[i] == oldc[i]);
                    }
                }
            }
            continue;
        }
        let candidate = join_under_exec(rootfs, &clean);
        let mut full = candidate;
        full.append("/");
        full.append(piece.as_str());
        if sys::path_is_symlink(&full) {
            if budget == 0 {
                return Err(PathError::LinkLoop);
            }
            budget = budget - 1;
            match sys::read_link_string(&full) {
                Some(target) => {
                    let absolute = target.as_str().unicode_len() > 0 && target.as_str().get_char(0)
                        == '/';
                    let mut tps = split_on(target.as_str(), '/');
                    proof {
                        lemma_split_chars_no_sep(target@, '/');
                    }
                    if absolute {
                        clean = Vec::new();
                        proof {
                            assert(wf_comps(clean.deep_view()));
                        }
                    }
                    let ghost tv = tps.deep_view();
                    let ghost rem = pending.deep_view();
                    tps.append(&mut pending);
                    pending = tps;
                    proof {
                        assert(pending.deep_view() =~~= tv + rem);
                        assert forall|i: int| 0 <= i < pending.deep_view().len() implies !(
                        #[trigger] pending.deep_view()[i]).contains('/') by {
                            if i < tv.len() {
                                assert(pending.deep_view()[i] == tv[i]);
                            } else {
                                assert(pending.deep_view()[i] == rem[i - tv.len()]);
                            }
                        }
                    }
                },
                None => {
                    let ghost oldc = clean.deep_view();
                    clean.push(piece);
                    proof {
                        assert(!old_pending[0].contains('/'));
                        assert(clean.deep_view() =~~= oldc.push(old_pending[0]));
                        assert forall|i: int| 0 <= i < clean.deep_view().len() implies wf_comp(
                            #[trigger] clean.deep_view()[i],
                        ) by {
                            if i < oldc.len() {
                                assert(clean.deep_view()[i] == oldc[i]);
                            }
                        }
                    }
                },
            }
        } else {
            let ghost oldc = clean.deep_view();
            clean.push(piece);
            proof {
                assert(!old_pending[0].contains('/'));
                assert(clean.deep_view() =~~= oldc.push(old_pending[0]));
                assert forall|i: int| 0 <= i < clean.deep_view().len() implies wf_comp(
                    #[trigger] clean.deep_view()[i],
                ) by {
                    if i < oldc.len() {
                        assert(clean.deep_view()[i] == oldc[i]);
                    }
                }
            }
        }
    }
    let joined = join_under_exec(rootfs, &clean);
    proof {
        assert(path_under(rootfs@, joined@)) by {
            assert(wf_comps(clean.deep_view()) && joined@ == join_under(
                rootfs@,
                clean.deep_view(),
            ));
        }
        lemma_normalize_identity(clean.deep_view());
    }
    Ok(joined)
}

} // verus!
