//! The CompOS compilation service: the signing key it holds, and what it
//! answers around its outside work (running the compiler, signing with the
//! key service).

use vstd::prelude::*;

use crate::binder_status::{
    is_exception, new_binder_exception, ExceptionCode, ServiceError,
};
use crate::text::text_equals;

verus! {

/// A SHA-256 digest.
pub type Sha256Digest = [u8; 32];

/// What a compiler run gives: the fs-verity digests of its three outputs, or
/// the exit code of a failed or skipped run.
#[derive(Debug)]
pub enum CompilerOutput {
    Digests { oat: Sha256Digest, vdex: Sha256Digest, image: Sha256Digest },
    ExitCode(i8),
}

/// The answer to a compilation request.
#[derive(Debug)]
pub struct CompilationResult {
    pub exit_code: i8,
    pub oat_signature: Vec<u8>,
    pub vdex_signature: Vec<u8>,
    pub image_signature: Vec<u8>,
}

/// What follows a compiler run: the answer, or the three formatted digests
/// to sign with the stored key before answering.
#[derive(Debug)]
pub enum CompileStep {
    Finished(CompilationResult),
    SignDigests { key_blob: Vec<u8>, oat: Vec<u8>, vdex: Vec<u8>, image: Vec<u8> },
}

/// The header of an fs-verity formatted digest: the magic "FSVerity", the
/// hash algorithm (SHA-256 is 1) and the digest size (32), both 16-bit little
/// endian.
pub open spec fn fsverity_sha256_header() -> Seq<u8> {
    seq![
        0x46u8,
        0x53u8,
        0x56u8,
        0x65u8,
        0x72u8,
        0x69u8,
        0x74u8,
        0x79u8,
        1u8,
        0u8,
        32u8,
        0u8,
    ]
}

/// The fs-verity formatted digest of a SHA-256 file digest: the bytes that
/// are signed to make the file's fs-verity signature.
pub fn to_formatted_digest(digest: &Sha256Digest) -> (r: Vec<u8>)
    ensures
        r@ == fsverity_sha256_header() + digest@,
{
    let mut r: Vec<u8> = Vec::new();
    r.push(0x46u8);
    r.push(0x53u8);
    r.push(0x56u8);
    r.push(0x65u8);
    r.push(0x72u8);
    r.push(0x69u8);
    r.push(0x74u8);
    r.push(0x79u8);
    r.push(1u8);
    r.push(0u8);
    r.push(32u8);
    r.push(0u8);
    assert(r@ =~= fsverity_sha256_header());
    let mut i: usize = 0;
    while i < 32
        invariant
            0 <= i <= 32,
            r@ =~= fsverity_sha256_header() + digest@.take(i as int),
        decreases 32 - i,
    {
        r.push(digest[i]);
        assert(digest@.take(i + 1) =~= digest@.take(i as int).push(digest@[i as int]));
        i = i + 1;
    }
    assert(digest@.take(32) =~= digest@);
    r
}

/// A compilation result that carries only an exit code.
pub fn exit_code_result(exit_code: i8) -> (r: CompilationResult)
    ensures
        r.exit_code == exit_code,
        r.oat_signature@.len() == 0,
        r.vdex_signature@.len() == 0,
        r.image_signature@.len() == 0,
{
    CompilationResult {
        exit_code,
        oat_signature: Vec::new(),
        vdex_signature: Vec::new(),
        image_signature: Vec::new(),
    }
}

/// The answer to a successful compilation: exit code zero and the three
/// signatures.
pub fn signed_compilation_result(
    oat_signature: Vec<u8>,
    vdex_signature: Vec<u8>,
    image_signature: Vec<u8>,
) -> (r: CompilationResult)
    ensures
        r.exit_code == 0,
        r.oat_signature@ == oat_signature@,
        r.vdex_signature@ == vdex_signature@,
        r.image_signature@ == image_signature@,
{
    CompilationResult { exit_code: 0, oat_signature, vdex_signature, image_signature }
}

/// A message followed by a detail.
fn message_with_detail(prefix: &str, detail: &str) -> (r: String)
    ensures
        r@ == prefix@ + detail@,
{
    String::from_str(prefix).concat(detail)
}

/// The CompOS service's own state: the signing key blob, empty until set.
#[derive(Debug)]
pub struct CompOsService {
    key_blob: Vec<u8>,
}

impl View for CompOsService {
    type V = Seq<u8>;

    closed spec fn view(&self) -> Seq<u8> {
        self.key_blob@
    }
}

/// The key that a request to set `blob` leaves, when the service holds
/// `key`; `None` when the request is refused.
pub open spec fn initialize_key_spec(key: Seq<u8>, blob: Seq<u8>) -> Option<Seq<u8>> {
    if key.len() == 0 {
        Some(blob)
    } else {
        None
    }
}

/// The signing key is set once: on a service that holds no key, a request
/// to set a non-empty key is granted, and every later request to set a key
/// is refused and leaves that key in place.
pub proof fn lemma_signing_key_set_once(key: Seq<u8>, first: Seq<u8>, second: Seq<u8>)
    requires
        key.len() == 0,
        first.len() > 0,
    ensures
        initialize_key_spec(key, first) == Some(first),
        initialize_key_spec(first, second) is None,
{
}

impl CompOsService {
    /// A service that holds no key yet.
    pub fn new() -> (s: Self)
        ensures
            s@ == Seq::<u8>::empty(),
    {
        CompOsService { key_blob: Vec::new() }
    }

    /// Sets the signing key blob. It can be set while none is held; after
    /// that, the request is refused and the key is left as it is.
    pub fn initialize_signing_key(&mut self, key_blob: &[u8]) -> (r: Result<(), ServiceError>)
        ensures
            match initialize_key_spec(old(self)@, key_blob@) {
                Some(k) => r is Ok && final(self)@ == k,
                None => final(self)@ == old(self)@ && (r matches Err(e) && is_exception(
                    e,
                    ExceptionCode::IllegalState,
                    "Cannot re-initialize the key"@,
                )),
            },
    {
        if self.key_blob.len() == 0 {
            self.key_blob = vstd::slice::slice_to_vec(key_blob);
            Ok(())
        } else {
            Err(
                new_binder_exception(
                    ExceptionCode::IllegalState,
                    String::from_str("Cannot re-initialize the key"),
                ),
            )
        }
    }

    /// The key for a signing request: refused while no key is held.
    pub fn initialized_key(&self) -> (r: Result<&[u8], ServiceError>)
        ensures
            self@.len() == 0 <==> r is Err,
            r matches Ok(k) ==> k@ == self@,
            r matches Err(e) ==> is_exception(e, ExceptionCode::IllegalState, "Key is not initialized"@),
    {
        if self.key_blob.len() == 0 {
            Err(
                new_binder_exception(
                    ExceptionCode::IllegalState,
                    String::from_str("Key is not initialized"),
                ),
            )
        } else {
            Ok(self.key_blob.as_slice())
        }
    }

    /// What the service answers after the key service was asked to sign or to
    /// generate a key: its result, or an illegal-state error carrying its
    /// error message.
    pub fn key_service_outcome<T>(outcome: Result<T, String>) -> (r: Result<T, ServiceError>)
        ensures
            outcome matches Ok(v) ==> r == Ok::<T, ServiceError>(v),
            outcome matches Err(m) ==> (r matches Err(e) && is_exception(
                e,
                ExceptionCode::IllegalState,
                m@,
            )),
    {
        match outcome {
            Ok(v) => Ok(v),
            Err(m) => Err(new_binder_exception(ExceptionCode::IllegalState, m)),
        }
    }

    /// The answer to a key verification request, from the key service's
    /// check: whether it found the key blob and public key to match.
    pub fn signing_key_verified(check: Result<(), String>) -> (r: bool)
        ensures
            r == check is Ok,
    {
        match check {
            Ok(()) => true,
            Err(_) => false,
        }
    }

    /// The raw fs-verity signature of a compiler output, from the key
    /// service's answer to signing its formatted digest: the signature, or
    /// an empty one when signing failed.
    pub fn generate_raw_fsverity_signature(signed: Result<Vec<u8>, String>) -> (r: Vec<u8>)
        ensures
            signed matches Ok(s) ==> r@ == s@,
            signed is Err ==> r@.len() == 0,
    {
        match signed {
            Ok(s) => s,
            Err(_) => Vec::new(),
        }
    }

    /// Checks the arguments of an odrefresh request: both directory
    /// descriptors must be non-negative, and the zygote architecture one of
    /// "zygote64" and "zygote64_32".
    pub fn check_odrefresh_args(system_dir_fd: i32, output_dir_fd: i32, zygote_arch: &str) -> (r:
        Result<(), ServiceError>)
        ensures
            (system_dir_fd < 0 || output_dir_fd < 0) ==> (r matches Err(e) && is_exception(
                e,
                ExceptionCode::IllegalArgument,
                "The remote FDs are expected to be non-negative"@,
            )),
            (system_dir_fd >= 0 && output_dir_fd >= 0 && zygote_arch@ != "zygote64"@
                && zygote_arch@ != "zygote64_32"@) ==> (r matches Err(e) && is_exception(
                e,
                ExceptionCode::IllegalArgument,
                "Invalid zygote arch"@,
            )),
            (system_dir_fd >= 0 && output_dir_fd >= 0 && (zygote_arch@ == "zygote64"@
                || zygote_arch@ == "zygote64_32"@)) ==> r is Ok,
    {
        if system_dir_fd < 0 || output_dir_fd < 0 {
            return Err(
                new_binder_exception(
                    ExceptionCode::IllegalArgument,
                    String::from_str("The remote FDs are expected to be non-negative"),
                ),
            );
        }
        if !text_equals(zygote_arch, "zygote64") && !text_equals(zygote_arch, "zygote64_32") {
            return Err(
                new_binder_exception(
                    ExceptionCode::IllegalArgument,
                    String::from_str("Invalid zygote arch"),
                ),
            );
        }
        Ok(())
    }

    /// The answer to an odrefresh request, from the run's outcome: a failed
    /// run is reported with its error, an exit code is answered as the
    /// result, and digests (which odrefresh does not give) are refused.
    pub fn odrefresh_outcome(output: Result<CompilerOutput, String>) -> (r: Result<
        CompilationResult,
        ServiceError,
    >)
        ensures
            output matches Err(m) ==> (r matches Err(e) && is_exception(
                e,
                ExceptionCode::ServiceSpecific,
                "odrefresh failed: "@ + m@,
            )),
            output matches Ok(CompilerOutput::ExitCode(c)) ==> (r matches Ok(res) && res.exit_code
                == c && res.oat_signature@.len() == 0 && res.vdex_signature@.len() == 0
                && res.image_signature@.len() == 0),
            output matches Ok(CompilerOutput::Digests { .. }) ==> (r matches Err(e) && is_exception(
                e,
                ExceptionCode::ServiceSpecific,
                "odrefresh failed"@,
            )),
    {
        match output {
            Err(m) => Err(
                new_binder_exception(
                    ExceptionCode::ServiceSpecific,
                    message_with_detail("odrefresh failed: ", m.as_str()),
                ),
            ),
            Ok(CompilerOutput::ExitCode(c)) => Ok(exit_code_result(c)),
            Ok(CompilerOutput::Digests { .. }) => Err(
                new_binder_exception(
                    ExceptionCode::ServiceSpecific,
                    String::from_str("odrefresh failed"),
                ),
            ),
        }
    }

    /// What follows a compile command, from the compiler's outcome: a failed
    /// run is reported with its error; an exit code is answered as the
    /// result; digests are to be signed with the stored key, which must be
    /// set.
    pub fn compile_cmd_outcome(&self, output: Result<CompilerOutput, String>) -> (r: Result<
        CompileStep,
        ServiceError,
    >)
        ensures
            output matches Err(m) ==> (r matches Err(e) && is_exception(
                e,
                ExceptionCode::ServiceSpecific,
                "Compilation failed: "@ + m@,
            )),
            output matches Ok(CompilerOutput::ExitCode(c)) ==> (r matches Ok(
                CompileStep::Finished(res),
            ) && res.exit_code == c && res.oat_signature@.len() == 0
                && res.vdex_signature@.len() == 0 && res.image_signature@.len() == 0),
            output matches Ok(CompilerOutput::Digests { .. }) && self@.len() == 0 ==> (r matches Err(
                e,
            ) && is_exception(e, ExceptionCode::IllegalState, "Key is not initialized"@)),
            output matches Ok(CompilerOutput::Digests { oat, vdex, image }) ==> (self@.len() > 0 ==> (
            r matches Ok(CompileStep::SignDigests { key_blob, oat: o, vdex: v, image: i })
                && key_blob@ == self@ && o@ == fsverity_sha256_header() + oat@ && v@
                == fsverity_sha256_header() + vdex@ && i@ == fsverity_sha256_header() + image@)),
    {
        match output {
            Err(m) => Err(
                new_binder_exception(
                    ExceptionCode::ServiceSpecific,
                    message_with_detail("Compilation failed: ", m.as_str()),
                ),
            ),
            Ok(CompilerOutput::ExitCode(c)) => Ok(CompileStep::Finished(exit_code_result(c))),
            Ok(CompilerOutput::Digests { oat, vdex, image }) => {
                let key = self.initialized_key()?;
                Ok(
                    CompileStep::SignDigests {
                        key_blob: vstd::slice::slice_to_vec(key),
                        oat: to_formatted_digest(&oat),
                        vdex: to_formatted_digest(&vdex),
                        image: to_formatted_digest(&image),
                    },
                )
            },
        }
    }

    /// The answer to the binary compile request, which the service does not
    /// offer.
    pub fn compile() -> (r: Result<i8, ServiceError>)
        ensures
            r matches Err(e) && is_exception(
                e,
                ExceptionCode::UnsupportedOperation,
                "Not yet implemented"@,
            ),
    {
        Err(
            new_binder_exception(
                ExceptionCode::UnsupportedOperation,
                String::from_str("Not yet implemented"),
            ),
        )
    }
}

} // verus!
