//! Input resolution: turning a list of query paths, together with what the
//! filesystem reports about each, into an ordered list of concrete input
//! files.
//!
//! A query naming a regular file is kept verbatim; a query naming a
//! directory is expanded one level, keeping exactly its regular-file entries
//! in enumeration order. Resolution fails with `NotFound` when a query path
//! does not exist, and with `NoInputFiles` when the final list is empty.
use vstd::prelude::*;

use crate::Error;

verus! {

/// One immediate entry of a queried directory: its full path and whether it
/// is a regular file.
pub struct FsEntry {
    pub path: String,
    pub is_file: bool,
}

/// What the filesystem reports about one query path: missing, a regular
/// file, or a directory with its immediate entries in enumeration order.
pub enum QueryInfo {
    Missing,
    File,
    Directory { entries: Vec<FsEntry> },
}

/// The paths of the regular-file entries of a directory, in enumeration
/// order; every other entry is ignored.
pub open spec fn entry_files(entries: Seq<FsEntry>) -> Seq<Seq<char>>
    decreases entries.len(),
{
    if entries.len() == 0 {
        Seq::<Seq<char>>::empty()
    } else {
        entry_files(entries.drop_last()) + (if entries.last().is_file {
            seq![entries.last().path@]
        } else {
            Seq::<Seq<char>>::empty()
        })
    }
}

/// The files one query contributes: itself if it is a regular file, its
/// regular-file entries if it is a directory.
pub open spec fn query_files(query: Seq<char>, info: QueryInfo) -> Seq<Seq<char>> {
    match info {
        QueryInfo::Missing => Seq::<Seq<char>>::empty(),
        QueryInfo::File => seq![query],
        QueryInfo::Directory { entries } => entry_files(entries@),
    }
}

/// The concatenation, in query order, of the files each query contributes.
pub open spec fn resolved_files(queries: Seq<Seq<char>>, infos: Seq<QueryInfo>) -> Seq<Seq<char>>
    decreases queries.len(),
{
    if queries.len() == 0 {
        Seq::<Seq<char>>::empty()
    } else {
        resolved_files(queries.drop_last(), infos.drop_last())
            + query_files(queries.last(), infos.last())
    }
}

/// Whether some query path does not exist on the filesystem.
pub open spec fn has_missing(infos: Seq<QueryInfo>) -> bool {
    exists|i: int| 0 <= i < infos.len() && infos[i] is Missing
}

/// What resolution returns: `NotFound` if any query path is missing,
/// `NoInputFiles` if the queries contribute no files at all, and otherwise
/// the full ordered file list.
pub open spec fn resolve_spec(queries: Seq<Seq<char>>, infos: Seq<QueryInfo>) -> Result<
    Seq<Seq<char>>,
    Error,
> {
    if has_missing(infos) {
        Err(Error::NotFound)
    } else if resolved_files(queries, infos).len() == 0 {
        Err(Error::NoInputFiles)
    } else {
        Ok(resolved_files(queries, infos))
    }
}

proof fn lemma_resolved_files_step(queries: Seq<Seq<char>>, infos: Seq<QueryInfo>, i: int)
    requires
        0 <= i < queries.len(),
        queries.len() == infos.len(),
    ensures
        resolved_files(queries.take(i + 1), infos.take(i + 1)) == resolved_files(
            queries.take(i),
            infos.take(i),
        ) + query_files(queries[i], infos[i]),
{
    assert(queries.take(i + 1).drop_last() =~= queries.take(i));
    assert(infos.take(i + 1).drop_last() =~= infos.take(i));
    assert(queries.take(i + 1).last() == queries[i]);
    assert(infos.take(i + 1).last() == infos[i]);
}

proof fn lemma_entry_files_step(entries: Seq<FsEntry>, j: int)
    requires
        0 <= j < entries.len(),
    ensures
        entry_files(entries.take(j + 1)) == entry_files(entries.take(j)) + (if entries[j].is_file {
            seq![entries[j].path@]
        } else {
            Seq::<Seq<char>>::empty()
        }),
{
    assert(entries.take(j + 1).drop_last() =~= entries.take(j));
    assert(entries.take(j + 1).last() == entries[j]);
}

/// Turns the query paths into the ordered list of concrete input files,
/// given what the filesystem reports about each query (`infos[i]` describes
/// `queries[i]`).
pub fn resolve(queries: &Vec<String>, infos: &Vec<QueryInfo>) -> (r: Result<Vec<String>, Error>)
    requires
        queries@.len() == infos@.len(),
    ensures
        (match r {
            Ok(files) => resolve_spec(queries.deep_view(), infos@) == Ok::<Seq<Seq<char>>, Error>(
                files.deep_view(),
            ),
            Err(e) => resolve_spec(queries.deep_view(), infos@) == Err::<Seq<Seq<char>>, Error>(e),
        }),
{
    let ghost qdv = queries.deep_view();
    let mut files: Vec<String> = Vec::new();
    let n: usize = queries.len();
    let mut i: usize = 0;
    while i < n
        invariant
            n == queries@.len(),
            queries@.len() == infos@.len(),
            qdv == queries.deep_view(),
            i <= n,
            forall|k: int| 0 <= k < i ==> !(infos@[k] is Missing),
            files.deep_view() == resolved_files(qdv.take(i as int), infos@.take(i as int)),
        decreases n - i,
    {
        let ghost prefix = resolved_files(qdv.take(i as int), infos@.take(i as int));
        match &infos[i] {
            QueryInfo::Missing => {
                proof {
                    assert(infos@[i as int] is Missing);
                    assert(has_missing(infos@));
                }
                return Err(Error::NotFound);
            }
            QueryInfo::File => {
                files.push(queries[i].clone());
                proof {
                    lemma_resolved_files_step(qdv, infos@, i as int);
                    assert(qdv[i as int] == queries@[i as int]@);
                    assert(files.deep_view() =~= prefix + query_files(
                        qdv[i as int],
                        infos@[i as int],
                    ));
                }
            }
            QueryInfo::Directory { entries } => {
                proof {
                    assert(infos@[i as int] == (QueryInfo::Directory { entries: *entries }));
                }
                let m: usize = entries.len();
                let mut j: usize = 0;
                while j < m
                    invariant
                        m == entries@.len(),
                        j <= m,
                        files.deep_view() == prefix + entry_files(entries@.take(j as int)),
                    decreases m - j,
                {
                    let ghost files_before = files.deep_view();
                    let e = &entries[j];
                    proof {
                        assert(*e == entries@[j as int]);
                    }
                    if e.is_file {
                        files.push(e.path.clone());
                        proof {
                            assert(files.deep_view() =~= files_before.push(
                                entries@[j as int].path@,
                            ));
                        }
                    }
                    proof {
                        lemma_entry_files_step(entries@, j as int);
                        assert(files.deep_view() =~= prefix + entry_files(
                            entries@.take(j as int + 1),
                        ));
                    }
                    j = j + 1;
                }
                proof {
                    assert(entries@.take(m as int) =~= entries@);
                    lemma_resolved_files_step(qdv, infos@, i as int);
                    assert(files.deep_view() == prefix + query_files(
                        qdv[i as int],
                        infos@[i as int],
                    ));
                }
            }
        }
        i = i + 1;
    }
    proof {
        assert(qdv.take(n as int) =~= qdv);
        assert(infos@.take(n as int) =~= infos@);
        assert(!has_missing(infos@));
    }
    if files.len() == 0 {
        Err(Error::NoInputFiles)
    } else {
        Ok(files)
    }
}

proof fn lemma_resolved_files_all_file(queries: Seq<Seq<char>>, infos: Seq<QueryInfo>)
    requires
        queries.len() == infos.len(),
        forall|i: int| 0 <= i < infos.len() ==> infos[i] is File,
    ensures
        resolved_files(queries, infos) == queries,
    decreases queries.len(),
{
    if queries.len() == 0 {
        assert(resolved_files(queries, infos) =~= queries);
    } else {
        lemma_resolved_files_all_file(queries.drop_last(), infos.drop_last());
        assert(infos.last() is File);
        assert(resolved_files(queries, infos) =~= queries);
    }
}

/// Law: a non-empty query list made only of existing regular files resolves
/// to exactly that list, in the same order.
pub proof fn lemma_resolve_all_regular_files(queries: Seq<Seq<char>>, infos: Seq<QueryInfo>)
    requires
        queries.len() == infos.len(),
        queries.len() > 0,
        forall|i: int| 0 <= i < infos.len() ==> infos[i] is File,
    ensures
        resolve_spec(queries, infos) == Ok::<Seq<Seq<char>>, Error>(queries),
{
    assert(!has_missing(infos));
    lemma_resolved_files_all_file(queries, infos);
}

/// Law: a directory query keeps exactly the regular-file entries of the
/// directory, in enumeration order, and ignores every other entry.
pub proof fn lemma_directory_keeps_files_only(entries: Seq<FsEntry>)
    ensures
        entry_files(entries) == entries.filter(|e: FsEntry| e.is_file).map_values(
            |e: FsEntry| e.path@,
        ),
    decreases entries.len(),
{
    reveal(Seq::filter);
    let p = |e: FsEntry| e.is_file;
    let f = |e: FsEntry| e.path@;
    if entries.len() == 0 {
        assert(entry_files(entries) =~= entries.filter(p).map_values(f));
    } else {
        lemma_directory_keeps_files_only(entries.drop_last());
        if entries.last().is_file {
            assert(entries.filter(p) == entries.drop_last().filter(p).push(entries.last()));
            assert(entries.filter(p).map_values(f) =~= entries.drop_last().filter(p).map_values(
                f,
            ).push(entries.last().path@));
            assert(entry_files(entries) =~= entries.filter(p).map_values(f));
        } else {
            assert(entries.filter(p) == entries.drop_last().filter(p));
            assert(entry_files(entries) =~= entries.filter(p).map_values(f));
        }
    }
}

/// Law: resolving a single directory query returns exactly the directory's
/// regular files when there are any, and fails with `NoInputFiles` when
/// there are none.
pub proof fn lemma_resolve_single_directory(query: Seq<char>, info: QueryInfo, es: Seq<FsEntry>)
    requires
        (info matches QueryInfo::Directory { entries } && entries@ == es),
    ensures
        ({
            let files = es.filter(|e: FsEntry| e.is_file).map_values(|e: FsEntry| e.path@);
            resolve_spec(seq![query], seq![info]) == (if files.len() == 0 {
                Err::<Seq<Seq<char>>, Error>(Error::NoInputFiles)
            } else {
                Ok::<Seq<Seq<char>>, Error>(files)
            })
        }),
{
    let queries: Seq<Seq<char>> = seq![query];
    let infos: Seq<QueryInfo> = seq![info];
    assert(!has_missing(infos));
    assert(queries.drop_last() =~= Seq::<Seq<char>>::empty());
    assert(infos.drop_last() =~= Seq::<QueryInfo>::empty());
    assert(resolved_files(Seq::<Seq<char>>::empty(), Seq::<QueryInfo>::empty())
        == Seq::<Seq<char>>::empty());
    assert(queries.last() == query);
    assert(infos.last() == info);
    assert(query_files(query, info) == entry_files(es));
    lemma_directory_keeps_files_only(es);
    assert(resolved_files(queries, infos) =~= entry_files(es));
}

proof fn lemma_resolved_files_all_empty(queries: Seq<Seq<char>>, infos: Seq<QueryInfo>)
    requires
        queries.len() == infos.len(),
        forall|i: int| 0 <= i < queries.len() ==> query_files(queries[i], infos[i]).len() == 0,
    ensures
        resolved_files(queries, infos).len() == 0,
    decreases queries.len(),
{
    if queries.len() > 0 {
        lemma_resolved_files_all_empty(queries.drop_last(), infos.drop_last());
        assert(query_files(queries.last(), infos.last()).len() == 0);
    }
}

/// Law: when every query path exists but none contributes a file — empty
/// directories included — resolution fails with `NoInputFiles`.
pub proof fn lemma_resolve_no_input_files(queries: Seq<Seq<char>>, infos: Seq<QueryInfo>)
    requires
        queries.len() == infos.len(),
        !has_missing(infos),
        forall|i: int| 0 <= i < queries.len() ==> query_files(queries[i], infos[i]).len() == 0,
    ensures
        resolve_spec(queries, infos) == Err::<Seq<Seq<char>>, Error>(Error::NoInputFiles),
{
    lemma_resolved_files_all_empty(queries, infos);
}

/// Law: when some query path does not exist, resolution fails with
/// `NotFound`.
pub proof fn lemma_resolve_not_found(queries: Seq<Seq<char>>, infos: Seq<QueryInfo>, i: int)
    requires
        0 <= i < infos.len(),
        infos[i] is Missing,
    ensures
        resolve_spec(queries, infos) == Err::<Seq<Seq<char>>, Error>(Error::NotFound),
{
    assert(has_missing(infos));
}

} // verus!
