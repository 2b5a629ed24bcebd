//! The pool of files that AuthFS serves: one configuration per inode, built
//! from the command-line options and what was read about each backing file.

use vstd::prelude::*;

use std::collections::BTreeMap;

use crate::options::{
    Args, Inode, OptionLocalFileRo, OptionLocalRoFileUnverified, OptionRemoteRoFile,
    OptionRemoteRoFileUnverified, OptionRemoteRwFile,
};

verus! {

broadcast use vstd::laws_cmp::group_laws_cmp;

/// How AuthFS serves one file. Readers are described by the plain values
/// they are opened from: the remote file ID or local paths, the file size,
/// and the fs-verity signature where the file is verified.
#[derive(Debug)]
pub enum FileConfig {
    LocalVerifiedReadonly {
        file_path: String,
        merkle_tree_dump_path: String,
        signature: Vec<u8>,
        file_size: u64,
    },
    LocalUnverifiedReadonly { file_path: String, file_size: u64 },
    RemoteVerifiedReadonly { remote_id: i32, signature: Vec<u8>, file_size: u64 },
    RemoteUnverifiedReadonly { remote_id: i32, file_size: u64 },
    RemoteVerifiedNew { remote_id: i32 },
}

/// The mathematical content of a `FileConfig`.
pub enum FileSpec {
    LocalVerifiedReadonly {
        file_path: Seq<char>,
        merkle_tree_dump_path: Seq<char>,
        signature: Seq<u8>,
        file_size: u64,
    },
    LocalUnverifiedReadonly { file_path: Seq<char>, file_size: u64 },
    RemoteVerifiedReadonly { remote_id: i32, signature: Seq<u8>, file_size: u64 },
    RemoteUnverifiedReadonly { remote_id: i32, file_size: u64 },
    RemoteVerifiedNew { remote_id: i32 },
}

impl View for FileConfig {
    type V = FileSpec;

    open spec fn view(&self) -> FileSpec {
        match self {
            FileConfig::LocalVerifiedReadonly {
                file_path,
                merkle_tree_dump_path,
                signature,
                file_size,
            } => FileSpec::LocalVerifiedReadonly {
                file_path: file_path@,
                merkle_tree_dump_path: merkle_tree_dump_path@,
                signature: signature@,
                file_size: *file_size,
            },
            FileConfig::LocalUnverifiedReadonly { file_path, file_size } => {
                FileSpec::LocalUnverifiedReadonly { file_path: file_path@, file_size: *file_size }
            },
            FileConfig::RemoteVerifiedReadonly { remote_id, signature, file_size } => {
                FileSpec::RemoteVerifiedReadonly {
                    remote_id: *remote_id,
                    signature: signature@,
                    file_size: *file_size,
                }
            },
            FileConfig::RemoteUnverifiedReadonly { remote_id, file_size } => {
                FileSpec::RemoteUnverifiedReadonly { remote_id: *remote_id, file_size: *file_size }
            },
            FileConfig::RemoteVerifiedNew { remote_id } => FileSpec::RemoteVerifiedNew {
                remote_id: *remote_id,
            },
        }
    }
}

/// Why the pool could not be built.
#[derive(Clone, Copy, Debug, PartialEq, Eq, Structural)]
pub enum PoolError {
    /// The remote file service reported a size that is not a valid file size.
    InvalidFileSize(i64),
}

/// What was read about a remote verified file: the size the service reports
/// and the file's fs-verity signature.
#[derive(Debug)]
pub struct RemoteVerifiedFetch {
    pub file_size: i64,
    pub signature: Vec<u8>,
}

/// What was read about a local verified file: its size and the content of
/// its signature file.
#[derive(Debug)]
pub struct LocalVerifiedFetch {
    pub file_size: u64,
    pub signature: Vec<u8>,
}

/// What was read about each configured file, list by list, in the order of
/// the options in `Args`.
#[derive(Debug)]
pub struct FetchedFiles {
    pub remote_ro: Vec<RemoteVerifiedFetch>,
    pub remote_ro_unverified: Vec<i64>,
    pub local_ro: Vec<LocalVerifiedFetch>,
    pub local_ro_unverified: Vec<u64>,
}

/// A remote verified read-only file of the given size.
pub fn new_config_remote_verified_file(remote_id: i32, file_size: u64, signature: Vec<u8>) -> (c:
    FileConfig)
    ensures
        c@ == (FileSpec::RemoteVerifiedReadonly { remote_id, signature: signature@, file_size }),
{
    FileConfig::RemoteVerifiedReadonly { remote_id, signature, file_size }
}

/// A remote read-only file without integrity check.
pub fn new_config_remote_unverified_file(remote_id: i32, file_size: u64) -> (c: FileConfig)
    ensures
        c@ == (FileSpec::RemoteUnverifiedReadonly { remote_id, file_size }),
{
    FileConfig::RemoteUnverifiedReadonly { remote_id, file_size }
}

/// A new remote file, written through a verified editor.
pub fn new_config_remote_new_verified_file(remote_id: i32) -> (c: FileConfig)
    ensures
        c@ == (FileSpec::RemoteVerifiedNew { remote_id }),
{
    FileConfig::RemoteVerifiedNew { remote_id }
}

/// A local verified read-only file, with its Merkle tree dump and signature.
pub fn new_config_local_ro_file(
    protected_file: &str,
    merkle_tree_dump: &str,
    signature: Vec<u8>,
    file_size: u64,
) -> (c: FileConfig)
    ensures
        c@ == (FileSpec::LocalVerifiedReadonly {
            file_path: protected_file@,
            merkle_tree_dump_path: merkle_tree_dump@,
            signature: signature@,
            file_size,
        }),
{
    FileConfig::LocalVerifiedReadonly {
        file_path: protected_file.to_owned(),
        merkle_tree_dump_path: merkle_tree_dump.to_owned(),
        signature,
        file_size,
    }
}

/// A local read-only file without integrity check.
pub fn new_config_local_ro_file_unverified(file_path: &str, file_size: u64) -> (c: FileConfig)
    ensures
        c@ == (FileSpec::LocalUnverifiedReadonly { file_path: file_path@, file_size }),
{
    FileConfig::LocalUnverifiedReadonly { file_path: file_path.to_owned(), file_size }
}

/// The size of a remote file as reported by the service, as a file size:
/// refused when negative.
pub fn remote_file_size(size: i64) -> (r: Result<u64, PoolError>)
    ensures
        size >= 0 ==> r == Ok::<u64, PoolError>(size as u64),
        size < 0 ==> r == Err::<u64, PoolError>(PoolError::InvalidFileSize(size)),
{
    if size < 0 {
        Err(PoolError::InvalidFileSize(size))
    } else {
        Ok(size as u64)
    }
}

/// The map that inserting `entries` in order into an empty map gives: a
/// later entry for an inode replaces an earlier one.
pub open spec fn entries_to_map(entries: Seq<(Inode, FileSpec)>) -> Map<Inode, FileSpec>
    decreases entries.len(),
{
    if entries.len() == 0 {
        Map::empty()
    } else {
        entries_to_map(entries.drop_last()).insert(entries.last().0, entries.last().1)
    }
}

/// The content of a pool, configuration by configuration.
pub open spec fn pool_view(m: Map<Inode, FileConfig>) -> Map<Inode, FileSpec> {
    m.map_values(|c: FileConfig| c@)
}

pub open spec fn remote_ro_entries(args: &Args, fetched: &FetchedFiles) -> Seq<(Inode, FileSpec)> {
    Seq::new(
        args.remote_ro_file@.len(),
        |i: int|
            (
                args.remote_ro_file@[i].ino,
                FileSpec::RemoteVerifiedReadonly {
                    remote_id: args.remote_ro_file@[i].remote_id,
                    signature: fetched.remote_ro@[i].signature@,
                    file_size: fetched.remote_ro@[i].file_size as u64,
                },
            ),
    )
}

pub open spec fn remote_unverified_entries(args: &Args, fetched: &FetchedFiles) -> Seq<
    (Inode, FileSpec),
> {
    Seq::new(
        args.remote_ro_file_unverified@.len(),
        |i: int|
            (
                args.remote_ro_file_unverified@[i].ino,
                FileSpec::RemoteUnverifiedReadonly {
                    remote_id: args.remote_ro_file_unverified@[i].remote_id,
                    file_size: fetched.remote_ro_unverified@[i] as u64,
                },
            ),
    )
}

pub open spec fn remote_new_entries(args: &Args) -> Seq<(Inode, FileSpec)> {
    Seq::new(
        args.remote_new_rw_file@.len(),
        |i: int|
            (
                args.remote_new_rw_file@[i].ino,
                FileSpec::RemoteVerifiedNew { remote_id: args.remote_new_rw_file@[i].remote_id },
            ),
    )
}

pub open spec fn local_ro_entries(args: &Args, fetched: &FetchedFiles) -> Seq<(Inode, FileSpec)> {
    Seq::new(
        args.local_ro_file@.len(),
        |i: int|
            (
                args.local_ro_file@[i].ino,
                FileSpec::LocalVerifiedReadonly {
                    file_path: args.local_ro_file@[i].file_path@,
                    merkle_tree_dump_path: args.local_ro_file@[i].merkle_tree_dump_path@,
                    signature: fetched.local_ro@[i].signature@,
                    file_size: fetched.local_ro@[i].file_size,
                },
            ),
    )
}

pub open spec fn local_unverified_entries(args: &Args, fetched: &FetchedFiles) -> Seq<
    (Inode, FileSpec),
> {
    Seq::new(
        args.local_ro_file_unverified@.len(),
        |i: int|
            (
                args.local_ro_file_unverified@[i].ino,
                FileSpec::LocalUnverifiedReadonly {
                    file_path: args.local_ro_file_unverified@[i].file_path@,
                    file_size: fetched.local_ro_unverified@[i],
                },
            ),
    )
}

/// Every configured file, in the order the pool takes them: remote verified,
/// remote unverified, new remote, local verified, local unverified.
pub open spec fn pool_entries(args: &Args, fetched: &FetchedFiles) -> Seq<(Inode, FileSpec)> {
    remote_ro_entries(args, fetched) + remote_unverified_entries(args, fetched)
        + remote_new_entries(args) + local_ro_entries(args, fetched) + local_unverified_entries(
        args,
        fetched,
    )
}

/// The remote file sizes, in the order the pool checks them.
pub open spec fn remote_sizes(fetched: &FetchedFiles) -> Seq<i64> {
    fetched.remote_ro@.map_values(|f: RemoteVerifiedFetch| f.file_size)
        + fetched.remote_ro_unverified@
}

/// The first negative value of `s`, if any.
pub open spec fn first_negative(s: Seq<i64>) -> Option<i64>
    decreases s.len(),
{
    if s.len() == 0 {
        None
    } else {
        match first_negative(s.drop_last()) {
            Some(v) => Some(v),
            None => if s.last() < 0 {
                Some(s.last())
            } else {
                None
            },
        }
    }
}

/// `fetched` holds one record per configured file of each list.
pub open spec fn fetched_matches(args: &Args, fetched: &FetchedFiles) -> bool {
    &&& fetched.remote_ro@.len() == args.remote_ro_file@.len()
    &&& fetched.remote_ro_unverified@.len() == args.remote_ro_file_unverified@.len()
    &&& fetched.local_ro@.len() == args.local_ro_file@.len()
    &&& fetched.local_ro_unverified@.len() == args.local_ro_file_unverified@.len()
}


/// The inodes that the options configure, over all five lists.
pub open spec fn configured_inodes(args: &Args) -> Set<Inode> {
    Set::new(
        |k: Inode|
            (exists|i: int|
                0 <= i < args.remote_ro_file@.len() && #[trigger] args.remote_ro_file@[i].ino == k)
                || (exists|i: int|
                0 <= i < args.remote_ro_file_unverified@.len()
                    && #[trigger] args.remote_ro_file_unverified@[i].ino == k) || (exists|i: int|
                0 <= i < args.remote_new_rw_file@.len() && #[trigger] args.remote_new_rw_file@[i].ino
                    == k) || (exists|i: int|
                0 <= i < args.local_ro_file@.len() && #[trigger] args.local_ro_file@[i].ino == k)
                || (exists|i: int|
                0 <= i < args.local_ro_file_unverified@.len()
                    && #[trigger] args.local_ro_file_unverified@[i].ino == k),
    )
}

/// An inode is in the map built from `entries` exactly when some entry
/// names it.
pub proof fn lemma_entries_domain(entries: Seq<(Inode, FileSpec)>, k: Inode)
    ensures
        entries_to_map(entries).contains_key(k) <==> exists|i: int|
            0 <= i < entries.len() && #[trigger] entries[i].0 == k,
    decreases entries.len(),
{
    if entries.len() > 0 {
        let prev = entries.drop_last();
        lemma_entries_domain(prev, k);
        if entries_to_map(prev).contains_key(k) {
            let i = choose|i: int| 0 <= i < prev.len() && #[trigger] prev[i].0 == k;
            assert(entries[i].0 == k);
        }
        if exists|i: int| 0 <= i < entries.len() && #[trigger] entries[i].0 == k {
            let i = choose|i: int| 0 <= i < entries.len() && #[trigger] entries[i].0 == k;
            if i < entries.len() - 1 {
                assert(prev[i].0 == k);
            }
        }
    }
}

/// The configuration an inode gets is that of the last entry naming it.
pub proof fn lemma_last_entry_wins(entries: Seq<(Inode, FileSpec)>, i: int)
    requires
        0 <= i < entries.len(),
        forall|j: int| i < j < entries.len() ==> #[trigger] entries[j].0 != entries[i].0,
    ensures
        entries_to_map(entries).contains_key(entries[i].0),
        entries_to_map(entries)[entries[i].0] == entries[i].1,
    decreases entries.len(),
{
    if i < entries.len() - 1 {
        let prev = entries.drop_last();
        assert forall|j: int| i < j < prev.len() implies #[trigger] prev[j].0 != prev[i].0 by {
            assert(entries[j].0 != entries[i].0);
        }
        lemma_last_entry_wins(prev, i);
        assert(entries[entries.len() - 1].0 != entries[i].0);
    }
}

/// AuthFS serves exactly the configured files: the pool built from the
/// options has an entry for every inode that some option names, and for no
/// other.
pub proof fn lemma_pool_serves_configured_files(args: &Args, fetched: &FetchedFiles, k: Inode)
    requires
        fetched_matches(args, fetched),
    ensures
        entries_to_map(pool_entries(args, fetched)).contains_key(k) <==> configured_inodes(
            args,
        ).contains(k),
{
    let e = pool_entries(args, fetched);
    let e1 = remote_ro_entries(args, fetched);
    let e2 = remote_unverified_entries(args, fetched);
    let e3 = remote_new_entries(args);
    let e4 = local_ro_entries(args, fetched);
    let e5 = local_unverified_entries(args, fetched);
    let o1 = e1.len();
    let o2 = o1 + e2.len();
    let o3 = o2 + e3.len();
    let o4 = o3 + e4.len();
    lemma_entries_domain(e, k);
    if configured_inodes(args).contains(k) {
        if exists|i: int| 0 <= i < args.remote_ro_file@.len() && #[trigger] args.remote_ro_file@[i].ino == k {
            let i = choose|i: int| 0 <= i < args.remote_ro_file@.len() && #[trigger] args.remote_ro_file@[i].ino == k;
            assert(e[i].0 == k);
        } else if exists|i: int| 0 <= i < args.remote_ro_file_unverified@.len() && #[trigger] args.remote_ro_file_unverified@[i].ino == k {
            let i = choose|i: int| 0 <= i < args.remote_ro_file_unverified@.len() && #[trigger] args.remote_ro_file_unverified@[i].ino == k;
            assert(e[o1 + i].0 == k);
        } else if exists|i: int| 0 <= i < args.remote_new_rw_file@.len() && #[trigger] args.remote_new_rw_file@[i].ino == k {
            let i = choose|i: int| 0 <= i < args.remote_new_rw_file@.len() && #[trigger] args.remote_new_rw_file@[i].ino == k;
            assert(e[o2 + i].0 == k);
        } else if exists|i: int| 0 <= i < args.local_ro_file@.len() && #[trigger] args.local_ro_file@[i].ino == k {
            let i = choose|i: int| 0 <= i < args.local_ro_file@.len() && #[trigger] args.local_ro_file@[i].ino == k;
            assert(e[o3 + i].0 == k);
        } else {
            let i = choose|i: int| 0 <= i < args.local_ro_file_unverified@.len() && #[trigger] args.local_ro_file_unverified@[i].ino == k;
            assert(e[o4 + i].0 == k);
        }
    }
    if entries_to_map(e).contains_key(k) {
        let i = choose|i: int| 0 <= i < e.len() && #[trigger] e[i].0 == k;
        if i < o1 {
            assert(args.remote_ro_file@[i].ino == k);
        } else if i < o2 {
            assert(args.remote_ro_file_unverified@[i - o1].ino == k);
        } else if i < o3 {
            assert(args.remote_new_rw_file@[i - o2].ino == k);
        } else if i < o4 {
            assert(args.local_ro_file@[i - o3].ino == k);
        } else {
            assert(args.local_ro_file_unverified@[i - o4].ino == k);
        }
    }
}

/// The inodes that the options of list `l` name, in order; the lists are
/// numbered in the order the pool takes them: remote verified (0), remote
/// unverified (1), new remote (2), local verified (3), local unverified (4).
pub open spec fn list_inos(args: &Args, l: int) -> Seq<Inode> {
    if l == 0 {
        args.remote_ro_file@.map_values(|o: OptionRemoteRoFile| o.ino)
    } else if l == 1 {
        args.remote_ro_file_unverified@.map_values(|o: OptionRemoteRoFileUnverified| o.ino)
    } else if l == 2 {
        args.remote_new_rw_file@.map_values(|o: OptionRemoteRwFile| o.ino)
    } else if l == 3 {
        args.local_ro_file@.map_values(|o: OptionLocalFileRo| o.ino)
    } else {
        args.local_ro_file_unverified@.map_values(|o: OptionLocalRoFileUnverified| o.ino)
    }
}

/// Some option after the `i`-th option of list `l` names inode `k`: a later
/// option of the same list, or any option of a later list.
pub open spec fn named_later(args: &Args, l: int, i: int, k: Inode) -> bool {
    (exists|j: int| i < j < list_inos(args, l).len() && #[trigger] list_inos(args, l)[j] == k)
        || (exists|m: int, j: int|
        l < m < 5 && 0 <= j < list_inos(args, m).len() && #[trigger] list_inos(args, m)[j] == k)
}

/// Where the options of list `l` start among all options, in pool order.
pub open spec fn list_offset(args: &Args, l: int) -> int {
    if l <= 0 {
        0
    } else if l == 1 {
        list_inos(args, 0).len() as int
    } else if l == 2 {
        (list_inos(args, 0).len() + list_inos(args, 1).len()) as int
    } else if l == 3 {
        (list_inos(args, 0).len() + list_inos(args, 1).len() + list_inos(args, 2).len()) as int
    } else if l == 4 {
        (list_inos(args, 0).len() + list_inos(args, 1).len() + list_inos(args, 2).len()
            + list_inos(args, 3).len()) as int
    } else {
        (list_inos(args, 0).len() + list_inos(args, 1).len() + list_inos(args, 2).len()
            + list_inos(args, 3).len() + list_inos(args, 4).len()) as int
    }
}

/// The pool serves the inode of the `i`-th remote verified option as that
/// option says, with the size and signature read for that same option.
pub open spec fn serves_remote_ro_option(
    args: &Args,
    fetched: &FetchedFiles,
    pool: Map<Inode, FileConfig>,
    i: int,
) -> bool {
    let o = args.remote_ro_file@[i];
    let f = fetched.remote_ro@[i];
    pool.contains_key(o.ino) && pool[o.ino]@ == (FileSpec::RemoteVerifiedReadonly {
        remote_id: o.remote_id,
        signature: f.signature@,
        file_size: f.file_size as u64,
    })
}

/// The pool serves the inode of the `i`-th remote unverified option as that
/// option says, with the size read for that same option.
pub open spec fn serves_remote_unverified_option(
    args: &Args,
    fetched: &FetchedFiles,
    pool: Map<Inode, FileConfig>,
    i: int,
) -> bool {
    let o = args.remote_ro_file_unverified@[i];
    pool.contains_key(o.ino) && pool[o.ino]@ == (FileSpec::RemoteUnverifiedReadonly {
        remote_id: o.remote_id,
        file_size: fetched.remote_ro_unverified@[i] as u64,
    })
}

/// The pool serves the inode of the `i`-th new remote option as a new file
/// backed by the remote file that same option names.
pub open spec fn serves_remote_new_option(args: &Args, pool: Map<Inode, FileConfig>, i: int) -> bool {
    let o = args.remote_new_rw_file@[i];
    pool.contains_key(o.ino) && pool[o.ino]@ == (FileSpec::RemoteVerifiedNew {
        remote_id: o.remote_id,
    })
}

/// The pool serves the inode of the `i`-th local verified option from that
/// option's paths, with the size and signature read for that same option.
pub open spec fn serves_local_ro_option(
    args: &Args,
    fetched: &FetchedFiles,
    pool: Map<Inode, FileConfig>,
    i: int,
) -> bool {
    let o = args.local_ro_file@[i];
    let f = fetched.local_ro@[i];
    pool.contains_key(o.ino) && pool[o.ino]@ == (FileSpec::LocalVerifiedReadonly {
        file_path: o.file_path@,
        merkle_tree_dump_path: o.merkle_tree_dump_path@,
        signature: f.signature@,
        file_size: f.file_size,
    })
}

/// The pool serves the inode of the `i`-th local unverified option from that
/// option's path, with the size read for that same option.
pub open spec fn serves_local_unverified_option(
    args: &Args,
    fetched: &FetchedFiles,
    pool: Map<Inode, FileConfig>,
    i: int,
) -> bool {
    let o = args.local_ro_file_unverified@[i];
    pool.contains_key(o.ino) && pool[o.ino]@ == (FileSpec::LocalUnverifiedReadonly {
        file_path: o.file_path@,
        file_size: fetched.local_ro_unverified@[i],
    })
}

/// The `j`-th entry of the pool order is the option of list `l` at
/// `j - list_offset(l)`, and names its inode.
proof fn lemma_entry_position(args: &Args, fetched: &FetchedFiles, l: int, j: int)
    requires
        fetched_matches(args, fetched),
        0 <= l < 5,
        list_offset(args, l) <= j < list_offset(args, l + 1),
    ensures
        pool_entries(args, fetched).len() == list_offset(args, 5),
        0 <= j - list_offset(args, l) < list_inos(args, l).len(),
        pool_entries(args, fetched)[j].0 == list_inos(args, l)[j - list_offset(args, l)],
        pool_entries(args, fetched)[j] == (if l == 0 {
            remote_ro_entries(args, fetched)[j]
        } else if l == 1 {
            remote_unverified_entries(args, fetched)[j - list_offset(args, l)]
        } else if l == 2 {
            remote_new_entries(args)[j - list_offset(args, l)]
        } else if l == 3 {
            local_ro_entries(args, fetched)[j - list_offset(args, l)]
        } else {
            local_unverified_entries(args, fetched)[j - list_offset(args, l)]
        }),
{
    let e1 = remote_ro_entries(args, fetched);
    let e2 = remote_unverified_entries(args, fetched);
    let e3 = remote_new_entries(args);
    let e4 = local_ro_entries(args, fetched);
    let e5 = local_unverified_entries(args, fetched);
    let e = pool_entries(args, fetched);
    assert(e == e1 + e2 + e3 + e4 + e5);
    let k = j - list_offset(args, l);
    if l == 0 {
        assert(e[j] == e1[j]);
    } else if l == 1 {
        assert(e[j] == e2[k]);
    } else if l == 2 {
        assert(e[j] == e3[k]);
    } else if l == 3 {
        assert(e[j] == e4[k]);
    } else {
        assert(e[j] == e5[k]);
    }
}

/// The configuration the pool gives the inode of the `i`-th option of list
/// `l`, when no later option names that inode, is the one built from that
/// option.
proof fn lemma_option_entry_kept(args: &Args, fetched: &FetchedFiles, l: int, i: int)
    requires
        fetched_matches(args, fetched),
        0 <= l < 5,
        0 <= i < list_inos(args, l).len(),
        !named_later(args, l, i, list_inos(args, l)[i]),
    ensures
        ({
            let e = pool_entries(args, fetched);
            let p = list_offset(args, l) + i;
            &&& 0 <= p < e.len()
            &&& e[p].0 == list_inos(args, l)[i]
            &&& entries_to_map(e).contains_key(e[p].0)
            &&& entries_to_map(e)[e[p].0] == e[p].1
        }),
{
    let e = pool_entries(args, fetched);
    let p = list_offset(args, l) + i;
    let k = list_inos(args, l)[i];
    lemma_entry_position(args, fetched, l, p);
    assert forall|j: int| p < j < e.len() implies #[trigger] e[j].0 != e[p].0 by {
        let m = if j < list_offset(args, 1) {
            0
        } else if j < list_offset(args, 2) {
            1
        } else if j < list_offset(args, 3) {
            2
        } else if j < list_offset(args, 4) {
            3
        } else {
            4
        };
        lemma_entry_position(args, fetched, m, j);
        let jj = j - list_offset(args, m);
        if e[j].0 == k {
            if m == l {
                assert(list_inos(args, l)[jj] == k);
            } else {
                assert(list_inos(args, m)[jj] == k);
            }
        }
    }
    lemma_last_entry_wins(e, p);
}

proof fn lemma_entries_push(e: Seq<(Inode, FileSpec)>, x: (Inode, FileSpec))
    ensures
        entries_to_map(e.push(x)) == entries_to_map(e).insert(x.0, x.1),
{
    assert(e.push(x).drop_last() =~= e);
}

proof fn lemma_first_negative_push(s: Seq<i64>, x: i64)
    ensures
        first_negative(s.push(x)) == (match first_negative(s) {
            Some(v) => Some(v),
            None => if x < 0 {
                Some(x)
            } else {
                None
            },
        }),
{
    assert(s.push(x).drop_last() =~= s);
}

proof fn lemma_first_negative_prefix(s: Seq<i64>, i: int)
    requires
        0 <= i <= s.len(),
        first_negative(s.take(i)) is Some,
    ensures
        first_negative(s) == first_negative(s.take(i)),
    decreases s.len() - i,
{
    if i < s.len() {
        assert(s.take(i + 1) =~= s.take(i).push(s[i]));
        lemma_first_negative_push(s.take(i), s[i]);
        lemma_first_negative_prefix(s, i + 1);
    } else {
        assert(s.take(i) =~= s);
    }
}

/// Inserts one configuration, keeping the pool's content in step with the
/// spec map.
fn insert_config(pool: &mut BTreeMap<Inode, FileConfig>, ino: Inode, config: FileConfig)
    ensures
        pool_view(final(pool)@) == pool_view(old(pool)@).insert(ino, config@),
{
    let ghost c = config@;
    pool.insert(ino, config);
    assert(pool_view(pool@) =~= pool_view(old(pool)@).insert(ino, c));
}

proof fn lemma_first_negative_none(s: Seq<i64>)
    requires
        first_negative(s) is None,
    ensures
        forall|i: int| 0 <= i < s.len() ==> s[i] >= 0,
    decreases s.len(),
{
    if s.len() > 0 {
        lemma_first_negative_none(s.drop_last());
        assert forall|i: int| 0 <= i < s.len() implies s[i] >= 0 by {
            if i < s.len() - 1 {
                assert(s[i] == s.drop_last()[i]);
            }
        }
    }
}

proof fn lemma_first_negative_some(s: Seq<i64>, v: i64)
    requires
        first_negative(s) == Some(v),
    ensures
        v < 0,
        exists|i: int| 0 <= i < s.len() && s[i] == v && forall|j: int| 0 <= j < i ==> s[j] >= 0,
    decreases s.len(),
{
    let t = s.drop_last();
    if first_negative(t) is Some {
        lemma_first_negative_some(t, v);
        let i = choose|i: int| 0 <= i < t.len() && t[i] == v && forall|j: int| 0 <= j < i ==> t[j] >= 0;
        assert(s[i] == v);
        assert forall|j: int| 0 <= j < i implies s[j] >= 0 by {
            assert(s[j] == t[j]);
        }
    } else {
        lemma_first_negative_none(t);
        let i = s.len() - 1;
        assert forall|j: int| 0 <= j < i implies s[j] >= 0 by {
            assert(s[j] == t[j]);
        }
    }
}

/// What `build_file_pool` gives, in terms of the options and what was read.
proof fn lemma_pool_result(
    args: &Args,
    fetched: &FetchedFiles,
    r: Result<BTreeMap<Inode, FileConfig>, PoolError>,
)
    requires
        fetched_matches(args, fetched),
        match r {
            Ok(pool) => first_negative(remote_sizes(fetched)) is None && pool_view(pool@)
                == entries_to_map(pool_entries(args, fetched)),
            Err(e) => first_negative(remote_sizes(fetched)) matches Some(v) && e
                == PoolError::InvalidFileSize(v),
        },
    ensures
        match r {
            Ok(pool) => first_negative(remote_sizes(fetched)) is None && pool_view(pool@)
                == entries_to_map(pool_entries(args, fetched)),
            Err(e) => first_negative(remote_sizes(fetched)) matches Some(v) && e
                == PoolError::InvalidFileSize(v),
        },
        // Every remote size is a valid file size, or the first invalid one is refused.
        r is Ok ==> (forall|i: int|
            0 <= i < fetched.remote_ro@.len() ==> #[trigger] fetched.remote_ro@[i].file_size >= 0)
            && (forall|i: int|
            0 <= i < fetched.remote_ro_unverified@.len()
                ==> #[trigger] fetched.remote_ro_unverified@[i] >= 0),
        r matches Err(PoolError::InvalidFileSize(v)) ==> v < 0 && ((exists|i: int|
            0 <= i < fetched.remote_ro@.len() && #[trigger] fetched.remote_ro@[i].file_size == v
                && forall|j: int| 0 <= j < i ==> #[trigger] fetched.remote_ro@[j].file_size >= 0)
            || ((forall|j: int|
            0 <= j < fetched.remote_ro@.len() ==> #[trigger] fetched.remote_ro@[j].file_size >= 0)
            && exists|i: int|
            0 <= i < fetched.remote_ro_unverified@.len() && #[trigger] fetched.remote_ro_unverified@[i]
                == v && forall|j: int|
                0 <= j < i ==> #[trigger] fetched.remote_ro_unverified@[j] >= 0)),
        // The pool serves exactly the inodes some option names.
        r matches Ok(pool) ==> pool@.dom() == configured_inodes(args),
        // Each option whose inode no later option names is served as that option
        // says, with what was read for that same option.
        r matches Ok(pool) ==> forall|i: int|
            #![trigger args.remote_ro_file@[i]]
            0 <= i < args.remote_ro_file@.len() && !named_later(args, 0, i, args.remote_ro_file@[i].ino)
                ==> serves_remote_ro_option(args, fetched, pool@, i),
        r matches Ok(pool) ==> forall|i: int|
            #![trigger args.remote_ro_file_unverified@[i]]
            0 <= i < args.remote_ro_file_unverified@.len() && !named_later(args, 1, i, args.remote_ro_file_unverified@[i].ino)
                ==> serves_remote_unverified_option(args, fetched, pool@, i),
        r matches Ok(pool) ==> forall|i: int|
            #![trigger args.remote_new_rw_file@[i]]
            0 <= i < args.remote_new_rw_file@.len() && !named_later(args, 2, i, args.remote_new_rw_file@[i].ino)
                ==> serves_remote_new_option(args, pool@, i),
        r matches Ok(pool) ==> forall|i: int|
            #![trigger args.local_ro_file@[i]]
            0 <= i < args.local_ro_file@.len() && !named_later(args, 3, i, args.local_ro_file@[i].ino)
                ==> serves_local_ro_option(args, fetched, pool@, i),
        r matches Ok(pool) ==> forall|i: int|
            #![trigger args.local_ro_file_unverified@[i]]
            0 <= i < args.local_ro_file_unverified@.len() && !named_later(args, 4, i, args.local_ro_file_unverified@[i].ino)
                ==> serves_local_unverified_option(args, fetched, pool@, i),
{
    let s1 = fetched.remote_ro@.map_values(|f: RemoteVerifiedFetch| f.file_size);
    let s2 = fetched.remote_ro_unverified@;
    let sizes = remote_sizes(fetched);
    assert(sizes == s1 + s2);
    match r {
        Ok(pool) => {
            lemma_first_negative_none(sizes);
            assert forall|i: int| 0 <= i < fetched.remote_ro@.len() implies #[trigger] fetched.remote_ro@[i].file_size >= 0 by {
                assert(sizes[i] == s1[i]);
            }
            assert forall|i: int| 0 <= i < fetched.remote_ro_unverified@.len() implies #[trigger] fetched.remote_ro_unverified@[i] >= 0 by {
                assert(sizes[s1.len() + i] == s2[i]);
            }
            let e = pool_entries(args, fetched);
            assert forall|k: Inode| pool@.dom().contains(k) <==> configured_inodes(args).contains(k) by {
                lemma_pool_serves_configured_files(args, fetched, k);
            }
            assert(pool@.dom() =~= configured_inodes(args));
            assert forall|i: int|
                0 <= i < args.remote_ro_file@.len() && !named_later(args, 0, i, #[trigger] args.remote_ro_file@[i].ino)
                implies serves_remote_ro_option(args, fetched, pool@, i) by {
                assert(list_inos(args, 0)[i] == args.remote_ro_file@[i].ino);
                lemma_option_entry_kept(args, fetched, 0, i);
                lemma_entry_position(args, fetched, 0, list_offset(args, 0) + i);
            }
            assert forall|i: int|
                0 <= i < args.remote_ro_file_unverified@.len() && !named_later(args, 1, i, #[trigger] args.remote_ro_file_unverified@[i].ino)
                implies serves_remote_unverified_option(args, fetched, pool@, i) by {
                assert(list_inos(args, 1)[i] == args.remote_ro_file_unverified@[i].ino);
                lemma_option_entry_kept(args, fetched, 1, i);
                lemma_entry_position(args, fetched, 1, list_offset(args, 1) + i);
            }
            assert forall|i: int|
                0 <= i < args.remote_new_rw_file@.len() && !named_later(args, 2, i, #[trigger] args.remote_new_rw_file@[i].ino)
                implies serves_remote_new_option(args, pool@, i) by {
                assert(list_inos(args, 2)[i] == args.remote_new_rw_file@[i].ino);
                lemma_option_entry_kept(args, fetched, 2, i);
                lemma_entry_position(args, fetched, 2, list_offset(args, 2) + i);
            }
            assert forall|i: int|
                0 <= i < args.local_ro_file@.len() && !named_later(args, 3, i, #[trigger] args.local_ro_file@[i].ino)
                implies serves_local_ro_option(args, fetched, pool@, i) by {
                assert(list_inos(args, 3)[i] == args.local_ro_file@[i].ino);
                lemma_option_entry_kept(args, fetched, 3, i);
                lemma_entry_position(args, fetched, 3, list_offset(args, 3) + i);
            }
            assert forall|i: int|
                0 <= i < args.local_ro_file_unverified@.len() && !named_later(args, 4, i, #[trigger] args.local_ro_file_unverified@[i].ino)
                implies serves_local_unverified_option(args, fetched, pool@, i) by {
                assert(list_inos(args, 4)[i] == args.local_ro_file_unverified@[i].ino);
                lemma_option_entry_kept(args, fetched, 4, i);
                lemma_entry_position(args, fetched, 4, list_offset(args, 4) + i);
            }
        },
        Err(e) => {
            let v = first_negative(sizes)->0;
            lemma_first_negative_some(sizes, v);
            let i = choose|i: int| 0 <= i < sizes.len() && sizes[i] == v && forall|j: int| 0 <= j < i ==> sizes[j] >= 0;
            if i < s1.len() {
                assert(fetched.remote_ro@[i].file_size == v);
                assert forall|j: int| 0 <= j < i implies #[trigger] fetched.remote_ro@[j].file_size >= 0 by {
                    assert(sizes[j] == s1[j]);
                }
            } else {
                let k = i - s1.len();
                assert(fetched.remote_ro_unverified@[k] == v);
                assert forall|j: int| 0 <= j < fetched.remote_ro@.len() implies #[trigger] fetched.remote_ro@[j].file_size >= 0 by {
                    assert(sizes[j] == s1[j]);
                }
                assert forall|j: int| 0 <= j < k implies #[trigger] fetched.remote_ro_unverified@[j] >= 0 by {
                    assert(sizes[s1.len() + j] == s2[j]);
                }
            }
        },
    }
}

/// Inserts the configured files in pool order, refusing the first negative
/// remote size.
fn build_file_pool(args: &Args, fetched: &FetchedFiles) -> (r: Result<
    BTreeMap<Inode, FileConfig>,
    PoolError,
>)
    requires
        fetched_matches(args, fetched),
    ensures
        match r {
            Ok(pool) => first_negative(remote_sizes(fetched)) is None && pool_view(pool@)
                == entries_to_map(pool_entries(args, fetched)),
            Err(e) => first_negative(remote_sizes(fetched)) matches Some(v) && e
                == PoolError::InvalidFileSize(v),
        },
{
    let mut file_pool: BTreeMap<Inode, FileConfig> = BTreeMap::new();
    let ghost e1 = remote_ro_entries(args, fetched);
    let ghost e2 = remote_unverified_entries(args, fetched);
    let ghost e3 = remote_new_entries(args);
    let ghost e4 = local_ro_entries(args, fetched);
    let ghost e5 = local_unverified_entries(args, fetched);
    let ghost s1 = fetched.remote_ro@.map_values(|f: RemoteVerifiedFetch| f.file_size);
    let ghost s2 = fetched.remote_ro_unverified@;
    let ghost sizes = remote_sizes(fetched);
    assert(sizes =~= s1 + s2);
    assert(pool_view(file_pool@) =~= Map::empty());
    assert(e1.take(0) =~= Seq::<(Inode, FileSpec)>::empty());
    assert(s1.take(0) =~= Seq::<i64>::empty());

    if args.has_remote_files() {
        let n1 = args.remote_ro_file.len();
        let mut i: usize = 0;
        while i < n1
            invariant
                fetched_matches(args, fetched),
                n1 == args.remote_ro_file@.len(),
                0 <= i <= n1,
                e1 == remote_ro_entries(args, fetched),
                s1 == fetched.remote_ro@.map_values(|f: RemoteVerifiedFetch| f.file_size),
                sizes == s1 + s2,
                sizes == remote_sizes(fetched),
                pool_view(file_pool@) == entries_to_map(e1.take(i as int)),
                first_negative(s1.take(i as int)) is None,
            decreases n1 - i,
        {
            let config = &args.remote_ro_file[i];
            let fetch = &fetched.remote_ro[i];
            proof {
                assert(s1.take(i + 1) =~= s1.take(i as int).push(s1[i as int]));
                lemma_first_negative_push(s1.take(i as int), s1[i as int]);
            }
            let file_size = match remote_file_size(fetch.file_size) {
                Ok(s) => s,
                Err(err) => {
                    proof {
                        assert(sizes.take(i + 1) =~= s1.take(i + 1));
                        lemma_first_negative_prefix(sizes, i + 1);
                    }
                    return Err(err);
                },
            };
            let c = new_config_remote_verified_file(
                config.remote_id,
                file_size,
                fetch.signature.clone(),
            );
            proof {
                assert(e1.take(i + 1) =~= e1.take(i as int).push(e1[i as int]));
                lemma_entries_push(e1.take(i as int), e1[i as int]);
            }
            insert_config(&mut file_pool, config.ino, c);
            i = i + 1;
        }
        assert(e1.take(n1 as int) =~= e1);
        assert(s1.take(n1 as int) =~= s1);

        let n2 = args.remote_ro_file_unverified.len();
        let mut i: usize = 0;
        assert(e1 + e2.take(0) =~= e1);
        assert(s1 + s2.take(0) =~= s1);
        while i < n2
            invariant
                fetched_matches(args, fetched),
                n2 == args.remote_ro_file_unverified@.len(),
                0 <= i <= n2,
                e2 == remote_unverified_entries(args, fetched),
                s2 == fetched.remote_ro_unverified@,
                sizes == s1 + s2,
                sizes == remote_sizes(fetched),
                pool_view(file_pool@) == entries_to_map(e1 + e2.take(i as int)),
                first_negative(s1 + s2.take(i as int)) is None,
            decreases n2 - i,
        {
            let config = &args.remote_ro_file_unverified[i];
            let size = fetched.remote_ro_unverified[i];
            proof {
                assert(s1 + s2.take(i + 1) =~= (s1 + s2.take(i as int)).push(s2[i as int]));
                lemma_first_negative_push(s1 + s2.take(i as int), s2[i as int]);
            }
            let file_size = match remote_file_size(size) {
                Ok(s) => s,
                Err(err) => {
                    proof {
                        assert(sizes.take(s1.len() + i + 1) =~= s1 + s2.take(i + 1));
                        lemma_first_negative_prefix(sizes, s1.len() + i + 1);
                    }
                    return Err(err);
                },
            };
            let c = new_config_remote_unverified_file(config.remote_id, file_size);
            proof {
                assert(e1 + e2.take(i + 1) =~= (e1 + e2.take(i as int)).push(e2[i as int]));
                lemma_entries_push(e1 + e2.take(i as int), e2[i as int]);
            }
            insert_config(&mut file_pool, config.ino, c);
            i = i + 1;
        }
        assert(e2.take(n2 as int) =~= e2);
        assert(s2.take(n2 as int) =~= s2);

        let n3 = args.remote_new_rw_file.len();
        let mut i: usize = 0;
        assert(e1 + e2 + e3.take(0) =~= e1 + e2);
        while i < n3
            invariant
                n3 == args.remote_new_rw_file@.len(),
                0 <= i <= n3,
                e3 == remote_new_entries(args),
                pool_view(file_pool@) == entries_to_map(e1 + e2 + e3.take(i as int)),
            decreases n3 - i,
        {
            let config = &args.remote_new_rw_file[i];
            let c = new_config_remote_new_verified_file(config.remote_id);
            proof {
                assert(e1 + e2 + e3.take(i + 1) =~= (e1 + e2 + e3.take(i as int)).push(
                    e3[i as int],
                ));
                lemma_entries_push(e1 + e2 + e3.take(i as int), e3[i as int]);
            }
            insert_config(&mut file_pool, config.ino, c);
            i = i + 1;
        }
        assert(e3.take(n3 as int) =~= e3);
    } else {
        assert(e1 =~= Seq::<(Inode, FileSpec)>::empty());
        assert(e2 =~= Seq::<(Inode, FileSpec)>::empty());
        assert(e3 =~= Seq::<(Inode, FileSpec)>::empty());
        assert(s1 =~= Seq::<i64>::empty());
        assert(s2 =~= Seq::<i64>::empty());
        assert(e1 + e2 + e3 =~= Seq::<(Inode, FileSpec)>::empty());
    }
    assert(sizes =~= s1 + s2);

    let n4 = args.local_ro_file.len();
    let mut i: usize = 0;
    assert(e1 + e2 + e3 + e4.take(0) =~= e1 + e2 + e3);
    while i < n4
        invariant
            fetched_matches(args, fetched),
            n4 == args.local_ro_file@.len(),
            0 <= i <= n4,
            e4 == local_ro_entries(args, fetched),
            pool_view(file_pool@) == entries_to_map(e1 + e2 + e3 + e4.take(i as int)),
        decreases n4 - i,
    {
        let config = &args.local_ro_file[i];
        let fetch = &fetched.local_ro[i];
        let c = new_config_local_ro_file(
            config.file_path.as_str(),
            config.merkle_tree_dump_path.as_str(),
            fetch.signature.clone(),
            fetch.file_size,
        );
        proof {
            assert(e1 + e2 + e3 + e4.take(i + 1) =~= (e1 + e2 + e3 + e4.take(i as int)).push(
                e4[i as int],
            ));
            lemma_entries_push(e1 + e2 + e3 + e4.take(i as int), e4[i as int]);
        }
        insert_config(&mut file_pool, config.ino, c);
        i = i + 1;
    }
    assert(e4.take(n4 as int) =~= e4);

    let n5 = args.local_ro_file_unverified.len();
    let mut i: usize = 0;
    assert(e1 + e2 + e3 + e4 + e5.take(0) =~= e1 + e2 + e3 + e4);
    while i < n5
        invariant
            fetched_matches(args, fetched),
            n5 == args.local_ro_file_unverified@.len(),
            0 <= i <= n5,
            e5 == local_unverified_entries(args, fetched),
            pool_view(file_pool@) == entries_to_map(e1 + e2 + e3 + e4 + e5.take(i as int)),
        decreases n5 - i,
    {
        let config = &args.local_ro_file_unverified[i];
        let c = new_config_local_ro_file_unverified(
            config.file_path.as_str(),
            fetched.local_ro_unverified[i],
        );
        proof {
            assert(e1 + e2 + e3 + e4 + e5.take(i + 1) =~= (e1 + e2 + e3 + e4 + e5.take(
                i as int,
            )).push(e5[i as int]));
            lemma_entries_push(e1 + e2 + e3 + e4 + e5.take(i as int), e5[i as int]);
        }
        insert_config(&mut file_pool, config.ino, c);
        i = i + 1;
    }
    assert(e5.take(n5 as int) =~= e5);
    Ok(file_pool)
}


/// Builds the file pool from the options and what was read about each file.
/// Remote sizes are checked in order, and the first negative one is refused;
/// otherwise every configured file is inserted in the order of
/// `pool_entries`, a later option for an inode replacing an earlier one.
pub fn prepare_file_pool(args: &Args, fetched: &FetchedFiles) -> (r: Result<
    BTreeMap<Inode, FileConfig>,
    PoolError,
>)
    requires
        fetched_matches(args, fetched),
    ensures
        match r {
            Ok(pool) => first_negative(remote_sizes(fetched)) is None && pool_view(pool@)
                == entries_to_map(pool_entries(args, fetched)),
            Err(e) => first_negative(remote_sizes(fetched)) matches Some(v) && e
                == PoolError::InvalidFileSize(v),
        },
        // Every remote size is a valid file size, or the first invalid one is refused.
        r is Ok ==> (forall|i: int|
            0 <= i < fetched.remote_ro@.len() ==> #[trigger] fetched.remote_ro@[i].file_size >= 0)
            && (forall|i: int|
            0 <= i < fetched.remote_ro_unverified@.len()
                ==> #[trigger] fetched.remote_ro_unverified@[i] >= 0),
        r matches Err(PoolError::InvalidFileSize(v)) ==> v < 0 && ((exists|i: int|
            0 <= i < fetched.remote_ro@.len() && #[trigger] fetched.remote_ro@[i].file_size == v
                && forall|j: int| 0 <= j < i ==> #[trigger] fetched.remote_ro@[j].file_size >= 0)
            || ((forall|j: int|
            0 <= j < fetched.remote_ro@.len() ==> #[trigger] fetched.remote_ro@[j].file_size >= 0)
            && exists|i: int|
            0 <= i < fetched.remote_ro_unverified@.len() && #[trigger] fetched.remote_ro_unverified@[i]
                == v && forall|j: int|
                0 <= j < i ==> #[trigger] fetched.remote_ro_unverified@[j] >= 0)),
        // The pool serves exactly the inodes some option names.
        r matches Ok(pool) ==> pool@.dom() == configured_inodes(args),
        // Each option whose inode no later option names is served as that option
        // says, with what was read for that same option.
        r matches Ok(pool) ==> forall|i: int|
            #![trigger args.remote_ro_file@[i]]
            0 <= i < args.remote_ro_file@.len() && !named_later(args, 0, i, args.remote_ro_file@[i].ino)
                ==> serves_remote_ro_option(args, fetched, pool@, i),
        r matches Ok(pool) ==> forall|i: int|
            #![trigger args.remote_ro_file_unverified@[i]]
            0 <= i < args.remote_ro_file_unverified@.len() && !named_later(args, 1, i, args.remote_ro_file_unverified@[i].ino)
                ==> serves_remote_unverified_option(args, fetched, pool@, i),
        r matches Ok(pool) ==> forall|i: int|
            #![trigger args.remote_new_rw_file@[i]]
            0 <= i < args.remote_new_rw_file@.len() && !named_later(args, 2, i, args.remote_new_rw_file@[i].ino)
                ==> serves_remote_new_option(args, pool@, i),
        r matches Ok(pool) ==> forall|i: int|
            #![trigger args.local_ro_file@[i]]
            0 <= i < args.local_ro_file@.len() && !named_later(args, 3, i, args.local_ro_file@[i].ino)
                ==> serves_local_ro_option(args, fetched, pool@, i),
        r matches Ok(pool) ==> forall|i: int|
            #![trigger args.local_ro_file_unverified@[i]]
            0 <= i < args.local_ro_file_unverified@.len() && !named_later(args, 4, i, args.local_ro_file_unverified@[i].ino)
                ==> serves_local_unverified_option(args, fetched, pool@, i),
{
    let r = build_file_pool(args, fetched);
    proof {
        lemma_pool_result(args, fetched, r);
    }
    r
}

} // verus!
