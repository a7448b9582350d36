//! The store extractor's rename step, modelled on member paths.
//!
//! A tarball's members all sit under one conventional top-level directory;
//! extraction unpacks them and renames that directory to the store key.
//! These functions describe what the rename does to each member path, and
//! the round-trip law shows the rename loses nothing: the store entry holds
//! exactly the file tree the archive contained, modulo the top-level name.

use vstd::prelude::*;

verus! {

/// Whether `pre` is a prefix of `s`.
pub open spec fn has_prefix(s: Seq<char>, pre: Seq<char>) -> bool {
    s.len() >= pre.len() && s.subrange(0, pre.len() as int) == pre
}

/// Where an archive member lands in the store: its leading `top` component
/// is replaced by the store key.
pub open spec fn rewrite_member(p: Seq<char>, top: Seq<char>, key: Seq<char>) -> Seq<char> {
    key + p.skip(top.len() as int)
}

/// The archive-side path a store-side path came from.
pub open spec fn recover_member(q: Seq<char>, top: Seq<char>, key: Seq<char>) -> Seq<char> {
    top + q.skip(key.len() as int)
}

/// Law: the top-level rename is invertible — reading a member back from the
/// canonical store entry yields exactly the path the archive contained.
pub proof fn lemma_rename_round_trip(p: Seq<char>, top: Seq<char>, key: Seq<char>)
    requires
        has_prefix(p, top),
    ensures
        recover_member(rewrite_member(p, top, key), top, key) == p,
        has_prefix(rewrite_member(p, top, key), key),
{
    let rest = p.skip(top.len() as int);
    assert((key + rest).skip(key.len() as int) =~= rest);
    assert forall|i: int| 0 <= i < p.len() implies (top + rest)[i] == p[i] by {
        if i < top.len() {
            assert(p.subrange(0, top.len() as int)[i] == p[i]);
        }
    }
    assert(top + rest =~= p);
    assert((key + rest).subrange(0, key.len() as int) =~= key);
}

/// A whole extracted tree: every member path rewritten under the store key,
/// every member's bytes untouched.
pub open spec fn rewrite_tree(
    entries: Seq<(Seq<char>, Seq<u8>)>,
    top: Seq<char>,
    key: Seq<char>,
) -> Seq<(Seq<char>, Seq<u8>)> {
    entries.map(|i: int, e: (Seq<char>, Seq<u8>)| (rewrite_member(e.0, top, key), e.1))
}

/// The archive-side tree a store entry came from.
pub open spec fn recover_tree(
    entries: Seq<(Seq<char>, Seq<u8>)>,
    top: Seq<char>,
    key: Seq<char>,
) -> Seq<(Seq<char>, Seq<u8>)> {
    entries.map(|i: int, e: (Seq<char>, Seq<u8>)| (recover_member(e.0, top, key), e.1))
}

/// Law: reading the canonical store entry back yields the file tree the
/// archive contained — member for member, path for path, byte for byte —
/// modulo the rename of the top-level directory.
pub proof fn lemma_tree_round_trip(
    entries: Seq<(Seq<char>, Seq<u8>)>,
    top: Seq<char>,
    key: Seq<char>,
)
    requires
        forall|i: int| 0 <= i < entries.len() ==> has_prefix(#[trigger] entries[i].0, top),
    ensures
        recover_tree(rewrite_tree(entries, top, key), top, key) == entries,
{
    let rt = recover_tree(rewrite_tree(entries, top, key), top, key);
    assert forall|i: int| 0 <= i < entries.len() implies rt[i] == entries[i] by {
        lemma_rename_round_trip(entries[i].0, top, key);
        assert(rewrite_tree(entries, top, key)[i] == (rewrite_member(entries[i].0, top, key),
        entries[i].1));
        assert(rt[i] == (recover_member(rewrite_member(entries[i].0, top, key), top, key),
        entries[i].1));
    }
    assert(rt =~= entries);
}

/// Law: distinct archive members land at distinct store paths — the rename
/// never merges two files of the archive.
pub proof fn lemma_rename_injective(p1: Seq<char>, p2: Seq<char>, top: Seq<char>, key: Seq<char>)
    requires
        has_prefix(p1, top),
        has_prefix(p2, top),
        rewrite_member(p1, top, key) == rewrite_member(p2, top, key),
    ensures
        p1 == p2,
{
    lemma_rename_round_trip(p1, top, key);
    lemma_rename_round_trip(p2, top, key);
}

} // verus!
