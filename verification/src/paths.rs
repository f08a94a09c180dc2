//! Archive paths: joining the archive directory with a file name, deriving
//! `<name>.tar` file names, and recognising `.tar` paths.

use vstd::prelude::*;
use vstd::string::StrSliceExecFns;
use vstd::string::StringExecFns;

verus! {

/// The four characters of the archive file suffix, `".tar"`.
pub open spec fn tar_suffix() -> Seq<char> {
    seq!['.', 't', 'a', 'r']
}

/// A directory joined with a direct child: `dir`, a separator, then `file`.
pub open spec fn joined_path(dir: Seq<char>, file: Seq<char>) -> Seq<char> {
    dir + seq!['/'] + file
}

/// The archive file name derived from a bare archive name: `name` + `".tar"`.
pub open spec fn tar_file_name(name: Seq<char>) -> Seq<char> {
    name + tar_suffix()
}

/// Whether a path's last four characters are `".tar"`.
pub open spec fn ends_with_tar(s: Seq<char>) -> bool {
    s.len() >= 4 && s.subrange(s.len() - 4, s.len() as int) == tar_suffix()
}

/// Joins the archive directory with a file name that is already complete
/// (for example one chosen by interactive selection).
pub fn join_archive_path(dir: &str, file: &str) -> (r: String)
    ensures
        r@ == joined_path(dir@, file@),
{
    let mut r = dir.to_owned();
    r.append("/");
    r.append(file);
    proof {
        reveal_strlit("/");
        assert(r@ =~= joined_path(dir@, file@));
    }
    r
}

/// The file name `<name>.tar` for a bare archive name.
pub fn tar_name(name: &str) -> (r: String)
    ensures
        r@ == tar_file_name(name@),
{
    let mut r = name.to_owned();
    r.append(".tar");
    proof {
        reveal_strlit(".tar");
        assert(r@ =~= tar_file_name(name@));
    }
    r
}

/// Save's destination for a named image: `dir/<name>.tar`, whether or not
/// that file exists (the destination is a write target, never checked).
pub fn save_destination(dir: &str, name: &str) -> (r: String)
    ensures
        r@ == joined_path(dir@, tar_file_name(name@)),
{
    let file = tar_name(name);
    join_archive_path(dir, file.as_str())
}

/// Whether the path ends in `".tar"`.
pub fn is_tar_path(s: &str) -> (r: bool)
    ensures
        r == ends_with_tar(s@),
{
    let n = s.unicode_len();
    if n < 4 {
        return false;
    }
    let r = s.get_char(n - 4) == '.' && s.get_char(n - 3) == 't' && s.get_char(n - 2) == 'a'
        && s.get_char(n - 1) == 'r';
    proof {
        let tail = s@.subrange(s@.len() - 4, s@.len() as int);
        if r {
            assert(tail =~= tar_suffix());
        } else {
            assert(tail[0] == s@[s@.len() - 4]);
            assert(tail[1] == s@[s@.len() - 3]);
            assert(tail[2] == s@[s@.len() - 2]);
            assert(tail[3] == s@[s@.len() - 1]);
        }
    }
    r
}

/// The selection candidate set built from a directory listing: exactly the
/// entries whose name ends in `".tar"`, in listing order.
pub open spec fn tar_entries(s: Seq<Seq<char>>) -> Seq<Seq<char>> {
    s.filter(|e: Seq<char>| ends_with_tar(e))
}

proof fn lemma_tar_entries_push(s: Seq<Seq<char>>, x: Seq<char>)
    ensures
        tar_entries(s.push(x)) == if ends_with_tar(x) {
            tar_entries(s).push(x)
        } else {
            tar_entries(s)
        },
{
    reveal(Seq::filter);
    assert(s.push(x).drop_last() =~= s);
    assert(s.push(x).last() == x);
}

/// Keeps exactly the entries of a directory listing that name a `.tar`
/// file, in listing order: the selection candidate set.
pub fn selection_candidates(entries: &Vec<String>) -> (r: Vec<String>)
    ensures
        r.deep_view() == tar_entries(entries.deep_view()),
{
    let ghost dv = entries.deep_view();
    let mut r: Vec<String> = Vec::new();
    let mut i: usize = 0;
    while i < entries.len()
        invariant
            i <= entries.len(),
            dv == entries.deep_view(),
            r.deep_view() == tar_entries(dv.subrange(0, i as int)),
        decreases entries.len() - i,
    {
        let ghost pre = r.deep_view();
        if is_tar_path(entries[i].as_str()) {
            r.push(entries[i].clone());
            proof {
                assert(r.deep_view() =~= pre.push(dv[i as int]));
            }
        }
        proof {
            assert(dv.subrange(0, i + 1) =~= dv.subrange(0, i as int).push(dv[i as int]));
            lemma_tar_entries_push(dv.subrange(0, i as int), dv[i as int]);
        }
        i += 1;
    }
    proof {
        assert(dv.subrange(0, entries.len() as int) =~= dv);
    }
    r
}

/// A named candidate always carries the `.tar` suffix: `dir/<name>.tar`
/// ends with `".tar"` by construction.
pub proof fn lemma_named_candidate_ends_with_tar(dir: Seq<char>, name: Seq<char>)
    ensures
        ends_with_tar(joined_path(dir, tar_file_name(name))),
{
    let s = joined_path(dir, tar_file_name(name));
    assert(s.subrange(s.len() - 4, s.len() as int) =~= tar_suffix());
}

} // verus!
