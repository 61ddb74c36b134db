use vstd::prelude::*;
use crate::errors::ServiceError;

verus! {

/// The state drive's mapping: a memory map over the whole block device,
/// carried by `memmap2::MmapMut`.
#[verifier::external_type_specification]
#[verifier::external_body]
pub struct ExMmapMut(memmap2::MmapMut);

/// The bytes a mapping currently holds, in device order.
pub uninterp spec fn mmap_bytes(map: memmap2::MmapMut) -> Seq<u8>;

/// Relies on `memmap2::MmapMut`'s `Deref` to `[u8]`: the length of the
/// mapped byte range.
#[verifier::external_body]
fn mmap_len(map: &memmap2::MmapMut) -> (r: usize)
    ensures
        r == mmap_bytes(*map).len(),
{
    let bytes: &[u8] = map;
    bytes.len()
}

/// Relies on `memmap2::MmapMut`'s `Deref` to `[u8]`: copies the window
/// `[offset, offset + size)` of the mapped bytes.
#[verifier::external_body]
fn mmap_copy_out(map: &memmap2::MmapMut, offset: usize, size: usize) -> (r: Vec<u8>)
    requires
        offset + size <= mmap_bytes(*map).len(),
    ensures
        r@ == mmap_bytes(*map).subrange(offset as int, offset + size),
{
    map[offset..offset + size].to_vec()
}

/// Relies on `memmap2::MmapMut`'s `DerefMut` to `[u8]` and
/// `slice::copy_from_slice`: overwrites the window starting at `offset`
/// with `data`, leaving every byte outside it unchanged.
#[verifier::external_body]
fn mmap_copy_in(map: &mut memmap2::MmapMut, offset: usize, data: &[u8])
    requires
        offset + data@.len() <= mmap_bytes(*old(map)).len(),
    ensures
        mmap_bytes(*final(map)) == write_range(mmap_bytes(*old(map)), offset as int, data@),
{
    map[offset..offset + data.len()].copy_from_slice(data);
}

/// Relies on `memmap2::MmapMut::flush`: synchronously writes the mapped
/// range back to the device; the mapped bytes themselves are untouched.
#[verifier::external_body]
fn mmap_flush(map: &memmap2::MmapMut) -> (r: Result<(), ServiceError>)
    ensures
        r is Err ==> r->Err_0 == ServiceError::FlushFailed,
{
    match map.flush() {
        Ok(()) => Ok(()),
        Err(_) => Err(ServiceError::FlushFailed),
    }
}

/// The window `[offset, offset + size)` of a byte image.
pub open spec fn read_range(s: Seq<u8>, offset: int, size: int) -> Seq<u8> {
    s.subrange(offset, offset + size)
}

/// A byte image after `data` is copied in at `offset`: the window is
/// replaced, everything outside it is kept.
pub open spec fn write_range(s: Seq<u8>, offset: int, data: Seq<u8>) -> Seq<u8> {
    s.subrange(0, offset) + data + s.subrange(offset + data.len(), s.len() as int)
}

/// The capacity of the mapped state drive in bytes. The mapping always
/// covers the whole device, so this is the device's capacity, and no read
/// or write below ever changes it.
pub fn raw_state_size(map: &memmap2::MmapMut) -> (r: usize)
    ensures
        r == mmap_bytes(*map).len(),
{
    mmap_len(map)
}

/// Reads `size` bytes of the state drive starting at `offset`.
///
/// A window that exceeds the drive's capacity is rejected before any byte
/// is copied; within bounds the result is exactly the current window.
pub fn raw_state_read(map: &memmap2::MmapMut, offset: usize, size: usize) -> (r: Result<
    Vec<u8>,
    ServiceError,
>)
    ensures
        offset + size > mmap_bytes(*map).len() ==> r == Err::<Vec<u8>, ServiceError>(
            ServiceError::OutOfBounds,
        ),
        offset + size <= mmap_bytes(*map).len() ==> (r matches Ok(data) && data@ == read_range(
            mmap_bytes(*map),
            offset as int,
            size as int,
        )),
{
    let capacity = mmap_len(map);
    match offset.checked_add(size) {
        Some(end) => {
            if end > capacity {
                Err(ServiceError::OutOfBounds)
            } else {
                Ok(mmap_copy_out(map, offset, size))
            }
        },
        None => Err(ServiceError::OutOfBounds),
    }
}

/// Writes `data` onto the state drive at `offset` and flushes synchronously.
///
/// A window that exceeds the mapped length is rejected with nothing
/// written; within bounds the bytes are in place even if the flush then
/// fails — a failed flush is fatal for the request but performs no
/// rollback. The drive's capacity never changes.
pub fn raw_state_write(map: &mut memmap2::MmapMut, offset: usize, data: &[u8]) -> (r: Result<
    (),
    ServiceError,
>)
    ensures
        offset + data@.len() > mmap_bytes(*old(map)).len() ==> {
            &&& r == Err::<(), ServiceError>(ServiceError::OutOfBounds)
            &&& mmap_bytes(*final(map)) == mmap_bytes(*old(map))
        },
        offset + data@.len() <= mmap_bytes(*old(map)).len() ==> {
            &&& mmap_bytes(*final(map)) == write_range(
                mmap_bytes(*old(map)),
                offset as int,
                data@,
            )
            &&& (r == Ok::<(), ServiceError>(()) || r == Err::<(), ServiceError>(
                ServiceError::FlushFailed,
            ))
        },
        mmap_bytes(*final(map)).len() == mmap_bytes(*old(map)).len(),
{
    let length = mmap_len(map);
    let within = match offset.checked_add(data.len()) {
        Some(end) => end <= length,
        None => false,
    };
    if !within {
        return Err(ServiceError::OutOfBounds);
    }
    mmap_copy_in(map, offset, data);
    proof {
        lemma_write_range_preserves_size(mmap_bytes(*old(map)), offset as int, data@);
        assert(mmap_bytes(*map) == write_range(mmap_bytes(*old(map)), offset as int, data@));
    }
    match mmap_flush(map) {
        Ok(()) => Ok(()),
        Err(_) => Err(ServiceError::FlushFailed),
    }
}

/// Law: copying a window in never changes the image's size.
pub proof fn lemma_write_range_preserves_size(s: Seq<u8>, offset: int, data: Seq<u8>)
    requires
        0 <= offset,
        offset + data.len() <= s.len(),
    ensures
        write_range(s, offset, data).len() == s.len(),
{
}

/// Law: a write followed by a read over the same range returns exactly the
/// bytes written, absent an intervening overlapping write.
pub proof fn lemma_write_then_read(s: Seq<u8>, offset: int, data: Seq<u8>)
    requires
        0 <= offset,
        offset + data.len() <= s.len(),
    ensures
        read_range(write_range(s, offset, data), offset, data.len() as int) == data,
{
    assert(read_range(write_range(s, offset, data), offset, data.len() as int) =~= data);
}

/// Law: a write leaves every byte outside the written window as it was.
pub proof fn lemma_write_preserves_outside(s: Seq<u8>, offset: int, data: Seq<u8>, i: int)
    requires
        0 <= offset,
        offset + data.len() <= s.len(),
        0 <= i < s.len(),
        i < offset || offset + data.len() <= i,
    ensures
        write_range(s, offset, data)[i] == s[i],
{
}

/// The path of the state drive's block device: the configured value when
/// one is set, a fixed default otherwise. The caller persists the default
/// back into its environment when told that it was used.
pub fn resolve_state_drive_path(configured: Option<String>) -> (r: (String, bool))
    ensures
        configured matches Some(path) ==> r.0 == path && r.1 == false,
        configured is None ==> r.0@ == "/dev/pmem1"@ && r.1 == true,
{
    match configured {
        Some(path) => (path, false),
        None => ("/dev/pmem1".to_owned(), true),
    }
}

} // verus!
