//! Acceptance of the two artifacts a session needs: the storage image and
//! the firmware image.

use vstd::prelude::*;

use crate::error::Error;

verus! {

/// Exact length of a storage (memory card flash) image, in bytes.
pub const FLASH_SIZE: u64 = 0x20000;

/// Exact length of a firmware image, in bytes.
pub const BIOS_SIZE: u64 = 0x4000;

/// What a scan of the system directory learnt about one entry.
#[derive(Clone, Copy, Debug, PartialEq, Eq, Structural)]
pub struct DirEntryInfo {
    /// The entry is a regular file whose metadata could be read.
    pub is_file: bool,
    /// Its length in bytes.
    pub len: u64,
    /// Its content was read in full and recognised as firmware. Only
    /// meaningful for candidates.
    pub recognized: bool,
}

/// Whether an entry is worth reading as firmware: a regular file of the
/// firmware's exact length.
pub open spec fn is_candidate(e: DirEntryInfo) -> bool {
    e.is_file && e.len == BIOS_SIZE
}

/// Whether an entry is an accepted firmware image.
pub open spec fn is_accepted(e: DirEntryInfo) -> bool {
    is_candidate(e) && e.recognized
}

/// The outcome a firmware scan owes for `entries`: the first accepted entry
/// in directory order, or `FirmwareNotFound` when there is none.
pub open spec fn firmware_choice(entries: Seq<DirEntryInfo>, r: Result<usize, Error>) -> bool {
    match r {
        Ok(i) => {
            &&& i < entries.len()
            &&& is_accepted(entries[i as int])
            &&& forall|j: int| 0 <= j < i ==> !is_accepted(#[trigger] entries[j])
        },
        Err(e) => {
            &&& e == Error::FirmwareNotFound
            &&& forall|j: int| 0 <= j < entries.len() ==> !is_accepted(#[trigger] entries[j])
        },
    }
}

/// Whether a directory entry with this metadata should be read and offered
/// to the firmware recogniser.
pub fn is_firmware_candidate(is_file: bool, len: u64) -> (r: bool)
    ensures
        r == is_candidate(DirEntryInfo { is_file, len, recognized: false }),
{
    is_file && len == BIOS_SIZE
}

/// Picks the firmware among the scanned entries of the system directory:
/// the first accepted one in the order given.
pub fn find_bios(entries: &Vec<DirEntryInfo>) -> (r: Result<usize, Error>)
    ensures
        firmware_choice(entries@, r),
{
    let mut i: usize = 0;
    while i < entries.len()
        invariant
            i <= entries.len(),
            forall|j: int| 0 <= j < i ==> !is_accepted(#[trigger] entries@[j]),
        decreases entries.len() - i,
    {
        let e = entries[i];
        if is_firmware_candidate(e.is_file, e.len) && e.recognized {
            return Ok(i);
        }
        i += 1;
    }
    Err(Error::FirmwareNotFound)
}

/// When exactly one entry is an accepted firmware, wherever it stands, the
/// scan returns that entry.
pub proof fn lemma_single_firmware_found(
    entries: Seq<DirEntryInfo>,
    k: int,
    r: Result<usize, Error>,
)
    requires
        0 <= k < entries.len(),
        is_accepted(entries[k]),
        forall|j: int| 0 <= j < entries.len() && j != k ==> !is_accepted(#[trigger] entries[j]),
        firmware_choice(entries, r),
    ensures
        r == Ok::<usize, Error>(k as usize),
{
}

/// When the directory holds an accepted firmware anywhere, the scan
/// succeeds, with an accepted entry no later than it.
pub proof fn lemma_firmware_found_when_present(
    entries: Seq<DirEntryInfo>,
    k: int,
    r: Result<usize, Error>,
)
    requires
        0 <= k < entries.len(),
        is_accepted(entries[k]),
        firmware_choice(entries, r),
    ensures
        r matches Ok(i) && i <= k,
{
}

/// Whether a read brought a whole storage image.
pub open spec fn full_read(contents: Option<Vec<u8>>) -> bool {
    contents is Some && contents->0@.len() == FLASH_SIZE
}

/// Decides the outcome of loading a storage image. `file_len` is the length
/// the file system reports (`None` when it could not be had), `contents`
/// what was read (`None` on a failed open or read), and `recognized` whether
/// the machine accepted the contents.
pub fn load_flash(file_len: Option<u64>, contents: Option<Vec<u8>>, recognized: bool) -> (r:
    Result<Vec<u8>, Error>)
    ensures
        file_len is None ==> r == Err::<Vec<u8>, Error>(Error::ArtifactUnreadable),
        file_len matches Some(n) && n != FLASH_SIZE ==> r == Err::<Vec<u8>, Error>(
            Error::ArtifactSizeMismatch,
        ),
        file_len == Some(FLASH_SIZE) && !full_read(contents) ==> r == Err::<Vec<u8>, Error>(
            Error::ArtifactUnreadable,
        ),
        file_len == Some(FLASH_SIZE) && full_read(contents) && !recognized ==> r == Err::<
            Vec<u8>,
            Error,
        >(Error::ArtifactUnrecognized),
        r is Ok <==> (file_len == Some(FLASH_SIZE) && full_read(contents) && recognized),
        r matches Ok(d) ==> contents matches Some(c) && d@ == c@,
{
    let n = match file_len {
        Some(n) => n,
        None => return Err(Error::ArtifactUnreadable),
    };
    if n != FLASH_SIZE {
        return Err(Error::ArtifactSizeMismatch);
    }
    let data = match contents {
        Some(d) => d,
        None => return Err(Error::ArtifactUnreadable),
    };
    if data.len() as u64 != FLASH_SIZE {
        return Err(Error::ArtifactUnreadable);
    }
    if !recognized {
        return Err(Error::ArtifactUnrecognized);
    }
    Ok(data)
}

} // verus!
