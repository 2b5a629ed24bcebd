//! AuthFS command-line options: the file options, each a `:`-separated list
//! of fields, and the parsed arguments.

use vstd::prelude::*;

use crate::intparse::{
    decimal, lemma_decimal_reads_back, lemma_parse_i32_of_signed_decimal,
    lemma_parse_u64_of_decimal, parse_i32, parse_i32_spec, parse_u64, parse_u64_spec,
    signed_decimal, IntErrorKind,
};
use crate::text::{count_char, join_fields, lemma_split_count, lemma_split_join, split_fields, split_on};

verus! {

/// The number under which AuthFS exposes a file (its name in the mount).
pub type Inode = u64;

/// Why a file option was refused.
#[derive(Clone, Copy, Debug, PartialEq, Eq, Structural)]
pub enum OptionError {
    /// The option does not have the number of `:`-separated fields its kind takes.
    InvalidOption,
    /// A numeric field is not a decimal integer of its type.
    InvalidNumber(IntErrorKind),
}

/// A read-only remote file with integrity check (`ino:remote_id:cert_path`).
#[derive(Debug)]
pub struct OptionRemoteRoFile {
    pub ino: Inode,
    /// ID to refer to the remote file.
    pub remote_id: i32,
    /// Certificate to verify the authenticity of the file's fs-verity signature.
    pub _certificate_path: String,
}

/// A read-only remote file without integrity check (`ino:remote_id`).
#[derive(Debug)]
pub struct OptionRemoteRoFileUnverified {
    pub ino: Inode,
    /// ID to refer to the remote file.
    pub remote_id: i32,
}

/// A new read-writable remote file with integrity check (`ino:remote_id`).
#[derive(Debug)]
pub struct OptionRemoteRwFile {
    pub ino: Inode,
    /// ID to refer to the remote file.
    pub remote_id: i32,
}

/// A read-only local file with integrity check
/// (`ino:file_path:merkle_tree_dump_path:signature_path:cert_path`).
#[derive(Debug)]
pub struct OptionLocalFileRo {
    pub ino: Inode,
    /// Local path of the backing file.
    pub file_path: String,
    /// Local path of the backing file's fs-verity Merkle tree dump.
    pub merkle_tree_dump_path: String,
    /// Local path of fs-verity signature for the backing file.
    pub signature_path: String,
    /// Certificate to verify the authenticity of the file's fs-verity signature.
    pub _certificate_path: String,
}

/// A read-only local file without integrity check (`ino:file_path`).
#[derive(Debug)]
pub struct OptionLocalRoFileUnverified {
    pub ino: Inode,
    /// Local path of the backing file.
    pub file_path: String,
}

impl View for OptionRemoteRoFile {
    type V = (Inode, i32, Seq<char>);

    open spec fn view(&self) -> (Inode, i32, Seq<char>) {
        (self.ino, self.remote_id, self._certificate_path@)
    }
}

impl View for OptionRemoteRoFileUnverified {
    type V = (Inode, i32);

    open spec fn view(&self) -> (Inode, i32) {
        (self.ino, self.remote_id)
    }
}

impl View for OptionRemoteRwFile {
    type V = (Inode, i32);

    open spec fn view(&self) -> (Inode, i32) {
        (self.ino, self.remote_id)
    }
}

impl View for OptionLocalFileRo {
    type V = (Inode, Seq<char>, Seq<char>, Seq<char>, Seq<char>);

    open spec fn view(&self) -> (Inode, Seq<char>, Seq<char>, Seq<char>, Seq<char>) {
        (
            self.ino,
            self.file_path@,
            self.merkle_tree_dump_path@,
            self.signature_path@,
            self._certificate_path@,
        )
    }
}

impl View for OptionLocalRoFileUnverified {
    type V = (Inode, Seq<char>);

    open spec fn view(&self) -> (Inode, Seq<char>) {
        (self.ino, self.file_path@)
    }
}

/// The `:`-separated fields of an option.
pub open spec fn option_fields(option: Seq<char>) -> Seq<Seq<char>> {
    split_on(option, ':')
}

/// The inode number and remote ID held in the first two fields, in that order
/// of checking.
pub open spec fn ino_and_id_spec(f: Seq<Seq<char>>) -> Result<(Inode, i32), OptionError> {
    match parse_u64_spec(f[0]) {
        Err(k) => Err(OptionError::InvalidNumber(k)),
        Ok(ino) => match parse_i32_spec(f[1]) {
            Err(k) => Err(OptionError::InvalidNumber(k)),
            Ok(id) => Ok((ino, id)),
        },
    }
}

pub open spec fn remote_ro_file_spec(option: Seq<char>) -> Result<
    (Inode, i32, Seq<char>),
    OptionError,
> {
    let f = option_fields(option);
    if f.len() != 3 {
        Err(OptionError::InvalidOption)
    } else {
        match ino_and_id_spec(f) {
            Err(e) => Err(e),
            Ok(p) => Ok((p.0, p.1, f[2])),
        }
    }
}

pub open spec fn remote_pair_spec(option: Seq<char>) -> Result<(Inode, i32), OptionError> {
    let f = option_fields(option);
    if f.len() != 2 {
        Err(OptionError::InvalidOption)
    } else {
        ino_and_id_spec(f)
    }
}

pub open spec fn local_file_ro_spec(option: Seq<char>) -> Result<
    (Inode, Seq<char>, Seq<char>, Seq<char>, Seq<char>),
    OptionError,
> {
    let f = option_fields(option);
    if f.len() != 5 {
        Err(OptionError::InvalidOption)
    } else {
        match parse_u64_spec(f[0]) {
            Err(k) => Err(OptionError::InvalidNumber(k)),
            Ok(ino) => Ok((ino, f[1], f[2], f[3], f[4])),
        }
    }
}

pub open spec fn local_ro_file_unverified_spec(option: Seq<char>) -> Result<
    (Inode, Seq<char>),
    OptionError,
> {
    let f = option_fields(option);
    if f.len() != 2 {
        Err(OptionError::InvalidOption)
    } else {
        match parse_u64_spec(f[0]) {
            Err(k) => Err(OptionError::InvalidNumber(k)),
            Ok(ino) => Ok((ino, f[1])),
        }
    }
}


/// The option text for an inode and a remote ID: `ino:remote_id`, in decimal.
pub open spec fn remote_pair_text(ino: Inode, remote_id: i32) -> Seq<char> {
    join_fields(seq![decimal(ino as nat), signed_decimal(remote_id as int)], ':')
}

/// The option text for a remote verified file: `ino:remote_id:cert_path`.
pub open spec fn remote_ro_file_text(ino: Inode, remote_id: i32, cert: Seq<char>) -> Seq<char> {
    join_fields(seq![decimal(ino as nat), signed_decimal(remote_id as int), cert], ':')
}

/// The option text for a local verified file.
pub open spec fn local_file_ro_text(
    ino: Inode,
    file: Seq<char>,
    tree: Seq<char>,
    sig: Seq<char>,
    cert: Seq<char>,
) -> Seq<char> {
    join_fields(seq![decimal(ino as nat), file, tree, sig, cert], ':')
}

/// The option text for a local file without integrity check: `ino:file_path`.
pub open spec fn local_ro_file_unverified_text(ino: Inode, file: Seq<char>) -> Seq<char> {
    join_fields(seq![decimal(ino as nat), file], ':')
}

/// Numbers written in decimal hold no field separator.
proof fn lemma_numbers_have_no_separator(ino: Inode, remote_id: i32)
    ensures
        !decimal(ino as nat).contains(':'),
        !signed_decimal(remote_id as int).contains(':'),
{
    lemma_decimal_reads_back(ino as nat, u64::MAX as int, IntErrorKind::PosOverflow);
    if decimal(ino as nat).contains(':') {
        let i = choose|i: int| 0 <= i < decimal(ino as nat).len() && decimal(ino as nat)[i] == ':';
        assert(crate::intparse::is_digit(decimal(ino as nat)[i]));
    }
    let m: nat = if remote_id < 0 {
        (-remote_id) as nat
    } else {
        remote_id as nat
    };
    lemma_decimal_reads_back(m, 0x8000_0000, IntErrorKind::NegOverflow);
    let t = signed_decimal(remote_id as int);
    if t.contains(':') {
        let i = choose|i: int| 0 <= i < t.len() && t[i] == ':';
        if remote_id < 0 {
            assert(t[i] == '-' || t[i] == decimal(m)[i - 1]);
            if i > 0 {
                assert(crate::intparse::is_digit(decimal(m)[i - 1]));
            }
        } else {
            assert(crate::intparse::is_digit(decimal(m)[i]));
        }
    }
}

/// Writing an option and parsing it gives its values back: the text
/// `ino:remote_id` parses, as a remote file option of either kind that takes
/// two fields, to that inode and remote ID.
pub proof fn lemma_remote_pair_round_trip(ino: Inode, remote_id: i32)
    ensures
        remote_pair_spec(remote_pair_text(ino, remote_id)) == Ok::<(Inode, i32), OptionError>(
            (ino, remote_id),
        ),
{
    let f = seq![decimal(ino as nat), signed_decimal(remote_id as int)];
    lemma_numbers_have_no_separator(ino, remote_id);
    lemma_split_join(f, ':');
    lemma_parse_u64_of_decimal(ino);
    lemma_parse_i32_of_signed_decimal(remote_id);
}

/// Writing a remote verified file option and parsing it gives its values
/// back, for a certificate path without `:`.
pub proof fn lemma_remote_ro_file_round_trip(ino: Inode, remote_id: i32, cert: Seq<char>)
    requires
        !cert.contains(':'),
    ensures
        remote_ro_file_spec(remote_ro_file_text(ino, remote_id, cert)) == Ok::<
            (Inode, i32, Seq<char>),
            OptionError,
        >((ino, remote_id, cert)),
{
    let f = seq![decimal(ino as nat), signed_decimal(remote_id as int), cert];
    lemma_numbers_have_no_separator(ino, remote_id);
    lemma_split_join(f, ':');
    lemma_parse_u64_of_decimal(ino);
    lemma_parse_i32_of_signed_decimal(remote_id);
}

/// Writing a local verified file option and parsing it gives its values
/// back, for paths without `:`.
pub proof fn lemma_local_file_ro_round_trip(
    ino: Inode,
    file: Seq<char>,
    tree: Seq<char>,
    sig: Seq<char>,
    cert: Seq<char>,
)
    requires
        !file.contains(':'),
        !tree.contains(':'),
        !sig.contains(':'),
        !cert.contains(':'),
    ensures
        local_file_ro_spec(local_file_ro_text(ino, file, tree, sig, cert)) == Ok::<
            (Inode, Seq<char>, Seq<char>, Seq<char>, Seq<char>),
            OptionError,
        >((ino, file, tree, sig, cert)),
{
    let f = seq![decimal(ino as nat), file, tree, sig, cert];
    lemma_numbers_have_no_separator(ino, 0);
    assert forall|i: int| 0 <= i < f.len() implies !(#[trigger] f[i]).contains(':') by {}
    lemma_split_join(f, ':');
    lemma_parse_u64_of_decimal(ino);
}

/// Writing a local file option without integrity check and parsing it gives
/// its values back, for a path without `:`.
pub proof fn lemma_local_ro_file_unverified_round_trip(ino: Inode, file: Seq<char>)
    requires
        !file.contains(':'),
    ensures
        local_ro_file_unverified_spec(local_ro_file_unverified_text(ino, file)) == Ok::<
            (Inode, Seq<char>),
            OptionError,
        >((ino, file)),
{
    let f = seq![decimal(ino as nat), file];
    lemma_numbers_have_no_separator(ino, 0);
    assert forall|i: int| 0 <= i < f.len() implies !(#[trigger] f[i]).contains(':') by {}
    lemma_split_join(f, ':');
    lemma_parse_u64_of_decimal(ino);
}

/// The inode number and remote ID in the first two of `fields`.
fn parse_ino_and_id(fields: &Vec<&str>) -> (r: Result<(Inode, i32), OptionError>)
    requires
        fields@.len() >= 2,
    ensures
        r == ino_and_id_spec(fields@.map_values(|p: &str| p@)),
{
    let ghost f = fields@.map_values(|p: &str| p@);
    assert(f[0] == fields@[0]@ && f[1] == fields@[1]@);
    let ino = match parse_u64(fields[0]) {
        Ok(v) => v,
        Err(k) => {
            return Err(OptionError::InvalidNumber(k));
        },
    };
    let remote_id = match parse_i32(fields[1]) {
        Ok(v) => v,
        Err(k) => {
            return Err(OptionError::InvalidNumber(k));
        },
    };
    Ok((ino, remote_id))
}

/// Parses `--remote-ro-file` (`ino:remote_id:cert_path`).
pub fn parse_remote_ro_file_option(option: &str) -> (r: Result<OptionRemoteRoFile, OptionError>)
    ensures
        match r {
            Ok(o) => remote_ro_file_spec(option@) == Ok::<_, OptionError>(o@),
            Err(e) => remote_ro_file_spec(option@) == Err::<(Inode, i32, Seq<char>), _>(e),
        },
        // Refused for its shape exactly when it has the wrong number of `:`.
        (r matches Err(OptionError::InvalidOption)) <==> count_char(option@, ':') != 2,
{
    let strs = split_fields(option, ':');
    proof {
        lemma_split_count(option@, ':');
    }
    let ghost f = strs@.map_values(|p: &str| p@);
    assert(f =~= option_fields(option@));
    if strs.len() != 3 {
        return Err(OptionError::InvalidOption);
    }
    let (ino, remote_id) = parse_ino_and_id(&strs)?;
    Ok(OptionRemoteRoFile { ino, remote_id, _certificate_path: strs[2].to_owned() })
}

/// Parses `--remote-ro-file-unverified` (`ino:remote_id`).
pub fn parse_remote_ro_file_unverified_option(option: &str) -> (r: Result<
    OptionRemoteRoFileUnverified,
    OptionError,
>)
    ensures
        match r {
            Ok(o) => remote_pair_spec(option@) == Ok::<_, OptionError>(o@),
            Err(e) => remote_pair_spec(option@) == Err::<(Inode, i32), _>(e),
        },
        // Refused for its shape exactly when it has the wrong number of `:`.
        (r matches Err(OptionError::InvalidOption)) <==> count_char(option@, ':') != 1,
{
    let strs = split_fields(option, ':');
    proof {
        lemma_split_count(option@, ':');
    }
    let ghost f = strs@.map_values(|p: &str| p@);
    assert(f =~= option_fields(option@));
    if strs.len() != 2 {
        return Err(OptionError::InvalidOption);
    }
    let (ino, remote_id) = parse_ino_and_id(&strs)?;
    Ok(OptionRemoteRoFileUnverified { ino, remote_id })
}

/// Parses `--remote-new-rw-file` (`ino:remote_id`). An option with two fields
/// whose numbers do not parse is a caller's error here (the tool aborts on
/// it), so such options are outside the contract.
pub fn parse_remote_new_rw_file_option(option: &str) -> (r: Result<OptionRemoteRwFile, OptionError>)
    requires
        remote_pair_spec(option@) != Err::<(Inode, i32), _>(OptionError::InvalidOption)
            ==> remote_pair_spec(option@) is Ok,
    ensures
        match r {
            Ok(o) => remote_pair_spec(option@) == Ok::<_, OptionError>(o@),
            Err(e) => e == OptionError::InvalidOption && remote_pair_spec(option@) == Err::<
                (Inode, i32),
                _,
            >(e),
        },
        // Refused for its shape exactly when it has the wrong number of `:`.
        (r matches Err(OptionError::InvalidOption)) <==> count_char(option@, ':') != 1,
{
    let strs = split_fields(option, ':');
    proof {
        lemma_split_count(option@, ':');
    }
    let ghost f = strs@.map_values(|p: &str| p@);
    assert(f =~= option_fields(option@));
    if strs.len() != 2 {
        return Err(OptionError::InvalidOption);
    }
    match parse_ino_and_id(&strs) {
        Ok((ino, remote_id)) => Ok(OptionRemoteRwFile { ino, remote_id }),
        Err(_) => {
            assert(false);
            Err(OptionError::InvalidOption)
        },
    }
}

/// Parses `--local-ro-file` (`ino:file_path:merkle_tree_dump_path:signature_path:cert_path`).
pub fn parse_local_file_ro_option(option: &str) -> (r: Result<OptionLocalFileRo, OptionError>)
    ensures
        match r {
            Ok(o) => local_file_ro_spec(option@) == Ok::<_, OptionError>(o@),
            Err(e) => local_file_ro_spec(option@) == Err::<
                (Inode, Seq<char>, Seq<char>, Seq<char>, Seq<char>),
                _,
            >(e),
        },
        // Refused for its shape exactly when it has the wrong number of `:`.
        (r matches Err(OptionError::InvalidOption)) <==> count_char(option@, ':') != 4,
{
    let strs = split_fields(option, ':');
    proof {
        lemma_split_count(option@, ':');
    }
    let ghost f = strs@.map_values(|p: &str| p@);
    assert(f =~= option_fields(option@));
    if strs.len() != 5 {
        return Err(OptionError::InvalidOption);
    }
    let ino = match parse_u64(strs[0]) {
        Ok(v) => v,
        Err(k) => {
            return Err(OptionError::InvalidNumber(k));
        },
    };
    Ok(OptionLocalFileRo {
        ino,
        file_path: strs[1].to_owned(),
        merkle_tree_dump_path: strs[2].to_owned(),
        signature_path: strs[3].to_owned(),
        _certificate_path: strs[4].to_owned(),
    })
}

/// Parses `--local-ro-file-unverified` (`ino:file_path`).
pub fn parse_local_ro_file_unverified_ro_option(option: &str) -> (r: Result<
    OptionLocalRoFileUnverified,
    OptionError,
>)
    ensures
        match r {
            Ok(o) => local_ro_file_unverified_spec(option@) == Ok::<_, OptionError>(o@),
            Err(e) => local_ro_file_unverified_spec(option@) == Err::<(Inode, Seq<char>), _>(e),
        },
        // Refused for its shape exactly when it has the wrong number of `:`.
        (r matches Err(OptionError::InvalidOption)) <==> count_char(option@, ':') != 1,
{
    let strs = split_fields(option, ':');
    proof {
        lemma_split_count(option@, ':');
    }
    let ghost f = strs@.map_values(|p: &str| p@);
    assert(f =~= option_fields(option@));
    if strs.len() != 2 {
        return Err(OptionError::InvalidOption);
    }
    let ino = match parse_u64(strs[0]) {
        Ok(v) => v,
        Err(k) => {
            return Err(OptionError::InvalidNumber(k));
        },
    };
    Ok(OptionLocalRoFileUnverified { ino, file_path: strs[1].to_owned() })
}

/// The parsed AuthFS command line.
#[derive(Debug)]
pub struct Args {
    /// Mount point of AuthFS.
    pub mount_point: String,
    /// CID of the VM where the service runs.
    pub cid: u32,
    /// Extra options to FUSE.
    pub extra_options: Option<String>,
    /// Read-only remote files with integrity check.
    pub remote_ro_file: Vec<OptionRemoteRoFile>,
    /// Read-only remote files without integrity check.
    pub remote_ro_file_unverified: Vec<OptionRemoteRoFileUnverified>,
    /// New read-writable remote files with integrity check.
    pub remote_new_rw_file: Vec<OptionRemoteRwFile>,
    /// Read-only local files with integrity check.
    pub local_ro_file: Vec<OptionLocalFileRo>,
    /// Read-only local files without integrity check.
    pub local_ro_file_unverified: Vec<OptionLocalRoFileUnverified>,
    /// Enable debugging features.
    pub debug: bool,
}

impl Args {
    pub open spec fn spec_has_remote_files(&self) -> bool {
        self.remote_ro_file@.len() > 0 || self.remote_ro_file_unverified@.len() > 0
            || self.remote_new_rw_file@.len() > 0
    }

    /// Whether any remote file is configured (and so the remote file service
    /// is needed).
    pub fn has_remote_files(&self) -> (r: bool)
        ensures
            r == self.spec_has_remote_files(),
    {
        self.remote_ro_file.len() > 0 || self.remote_ro_file_unverified.len() > 0
            || self.remote_new_rw_file.len() > 0
    }
}

} // verus!
