use vstd::prelude::*;

use crate::errors::ExtractError;

verus! {

/// The 16-byte marker that opens the embedded relational store
/// ("SQLite format 3" followed by a NUL byte).
pub open spec fn store_signature() -> Seq<u8> {
    seq![
        0x53u8,
        0x51u8,
        0x4cu8,
        0x69u8,
        0x74u8,
        0x65u8,
        0x20u8,
        0x66u8,
        0x6fu8,
        0x72u8,
        0x6du8,
        0x61u8,
        0x74u8,
        0x20u8,
        0x33u8,
        0x00u8,
    ]
}

/// The signature occurs in `b` starting at offset `i`.
pub open spec fn signature_at(b: Seq<u8>, i: int) -> bool {
    &&& 0 <= i
    &&& i + 16 <= b.len()
    &&& forall|k: int| 0 <= k < 16 ==> b[i + k] == store_signature()[k]
}

/// No signature occurs anywhere in `b`.
pub open spec fn no_signature(b: Seq<u8>) -> bool {
    forall|i: int| !signature_at(b, i)
}

fn signature_byte(k: usize) -> (r: u8)
    requires
        k < 16,
    ensures
        r == store_signature()[k as int],
{
    if k == 0 {
        0x53
    } else if k == 1 {
        0x51
    } else if k == 2 {
        0x4c
    } else if k == 3 {
        0x69
    } else if k == 4 {
        0x74
    } else if k == 5 {
        0x65
    } else if k == 6 {
        0x20
    } else if k == 7 {
        0x66
    } else if k == 8 {
        0x6f
    } else if k == 9 {
        0x72
    } else if k == 10 {
        0x6d
    } else if k == 11 {
        0x61
    } else if k == 12 {
        0x74
    } else if k == 13 {
        0x20
    } else if k == 14 {
        0x33
    } else {
        0x00
    }
}

fn signature_matches_at(bytes: &Vec<u8>, i: usize) -> (r: bool)
    requires
        i + 16 <= bytes@.len(),
    ensures
        r == signature_at(bytes@, i as int),
{
    let n = bytes.len();
    let mut k: usize = 0;
    while k < 16
        invariant
            k <= 16,
            i + 16 <= n,
            n == bytes@.len(),
            forall|j: int| 0 <= j < k ==> bytes@[i + j] == store_signature()[j],
        decreases 16 - k,
    {
        if bytes[i + k] != signature_byte(k) {
            return false;
        }
        k += 1;
    }
    true
}

/// Finds the first offset at which the embedded store's signature occurs.
/// Fails exactly when the buffer holds no signature anywhere.
pub fn locate_embedded_store(bytes: &Vec<u8>) -> (r: Result<usize, ExtractError>)
    ensures
        match r {
            Ok(off) => signature_at(bytes@, off as int) && forall|j: int|
                j < off ==> !signature_at(bytes@, j),
            Err(e) => e is SignatureNotFound && no_signature(bytes@),
        },
{
    let n = bytes.len();
    if n < 16 {
        return Err(ExtractError::SignatureNotFound);
    }
    let mut i: usize = 0;
    while i <= n - 16
        invariant
            16 <= n,
            n == bytes@.len(),
            i <= n - 16 + 1,
            forall|j: int| j < i ==> !signature_at(bytes@, j),
        decreases n - i,
    {
        if signature_matches_at(bytes, i) {
            return Ok(i);
        }
        i += 1;
    }
    Err(ExtractError::SignatureNotFound)
}

/// Copies the trailing byte range of the buffer, from `offset` to its end:
/// the embedded store runs from the signature to the end of the host file.
pub fn store_tail(bytes: &Vec<u8>, offset: usize) -> (r: Vec<u8>)
    requires
        offset <= bytes@.len(),
    ensures
        r@ == bytes@.subrange(offset as int, bytes@.len() as int),
{
    let n = bytes.len();
    let mut out: Vec<u8> = Vec::new();
    let mut i: usize = offset;
    while i < n
        invariant
            offset <= i <= n,
            n == bytes@.len(),
            out@ == bytes@.subrange(offset as int, i as int),
        decreases n - i,
    {
        out.push(bytes[i]);
        proof {
            assert(out@ =~= bytes@.subrange(offset as int, i + 1));
        }
        i += 1;
    }
    proof {
        assert(out@ =~= bytes@.subrange(offset as int, bytes@.len() as int));
    }
    out
}

#[verifier::external_type_specification]
#[verifier::external_body]
pub struct ExTempPath(tempfile::TempPath);

/// Relies on tempfile::NamedTempFile::new, std::io::Write::write_all and
/// NamedTempFile::into_temp_path: creates a fresh disposable file holding
/// exactly the given bytes, and hands back its path handle. The operating
/// system entry is removed when the handle is dropped, on every exit path
/// of the extraction attempt.
#[verifier::external_body]
fn write_disposable_file(bytes: &Vec<u8>) -> (r: Result<tempfile::TempPath, String>) {
    let mut f = match tempfile::NamedTempFile::new() {
        Ok(f) => f,
        Err(e) => return Err(format!("{}", e)),
    };
    match std::io::Write::write_all(&mut f, bytes.as_slice()) {
        Ok(()) => Ok(f.into_temp_path()),
        Err(e) => Err(format!("{}", e)),
    }
}

/// Relies on tempfile::TempPath's Deref to a path: the location of the
/// disposable file, as a plain string.
#[verifier::external_body]
fn temp_path_string(f: &tempfile::TempPath) -> (r: String) {
    f.to_string_lossy().to_string()
}

/// Copies the located byte range into a freshly created disposable store
/// file, so a relational-store engine can open it independently. The
/// returned handle deletes the file when dropped; the string is its path.
pub fn isolate_store(bytes: &Vec<u8>, offset: usize) -> (r: Result<
    (tempfile::TempPath, String),
    ExtractError,
>)
    requires
        offset <= bytes@.len(),
    ensures
        r matches Err(e) ==> e is StoreOpenError,
{
    let tail = store_tail(bytes, offset);
    let f = match write_disposable_file(&tail) {
        Ok(f) => f,
        Err(m) => {
            return Err(ExtractError::StoreOpenError(m));
        },
    };
    let p = temp_path_string(&f);
    Ok((f, p))
}

} // verus!
