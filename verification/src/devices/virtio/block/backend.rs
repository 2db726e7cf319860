use vstd::prelude::*;

verus! {

/// Storage behind a virtio block device: a byte array of whole sectors.
pub trait BlockBackend {
    /// The stored bytes.
    spec fn view(&self) -> Seq<u8>;

    /// The number of 512-byte sectors.
    fn sector_count(&self) -> (n: u64)
        ensures
            n == self.view().len() / 512,
            n * 512 <= usize::MAX,
    ;

    /// The `len` bytes from `offset` on.
    fn read(&self, offset: usize, len: usize) -> (r: Vec<u8>)
        requires
            offset + len <= self.view().len(),
        ensures
            r@ == self.view().subrange(offset as int, offset + len),
    ;

    /// Overwrites the bytes from `offset` on with `data`.
    fn write(&mut self, offset: usize, data: &[u8])
        requires
            offset + data@.len() <= old(self).view().len(),
        ensures
            final(self).view() == old(self).view().subrange(0, offset as int) + data@ + old(
                self,
            ).view().subrange(offset + data@.len(), old(self).view().len() as int),
    ;
}

/// Copies `data[offset..offset + len]`.
fn copy_range(data: &Vec<u8>, offset: usize, len: usize) -> (r: Vec<u8>)
    requires
        offset + len <= data@.len(),
    ensures
        r@ == data@.subrange(offset as int, offset + len),
{
    let mut out: Vec<u8> = Vec::with_capacity(len);
    let total = data.len();
    let mut i: usize = 0;
    while i < len
        invariant
            total == data@.len(),
            offset + len <= data@.len(),
            i <= len,
            out@ == data@.subrange(offset as int, offset + i),
        decreases len - i,
    {
        out.push(data[offset + i]);
        i += 1;
        assert(out@ =~= data@.subrange(offset as int, offset + i));
    }
    out
}

/// Overwrites `data[offset..offset + src.len()]` with `src`.
fn overwrite(data: &mut Vec<u8>, offset: usize, src: &[u8])
    requires
        offset + src@.len() <= old(data)@.len(),
    ensures
        final(data)@ == old(data)@.subrange(0, offset as int) + src@ + old(data)@.subrange(
            offset + src@.len(),
            old(data)@.len() as int,
        ),
{
    let n = src.len();
    let total = data.len();
    let mut i: usize = 0;
    while i < n
        invariant
            total == data@.len(),
            n == src@.len(),
            offset + n <= data@.len(),
            data@.len() == old(data)@.len(),
            i <= n,
            forall|k: int| 0 <= k < i ==> data@[offset + k] == src@[k],
            forall|k: int| 0 <= k < data@.len() && !(offset <= k < offset + i) ==> data@[k] == old(data)@[k],
        decreases n - i,
    {
        data.set(offset + i, src[i]);
        i += 1;
    }
    assert(data@ =~= old(data)@.subrange(0, offset as int) + src@ + old(data)@.subrange(
        offset + src@.len(),
        old(data)@.len() as int,
    ));
}

/// A disk image held in memory (read from a file by the host).
pub struct FileBackend {
    pub data: Vec<u8>,
}

impl FileBackend {
    /// A backend over the bytes of an image.
    pub fn from_bytes(data: Vec<u8>) -> (b: FileBackend)
        ensures
            b.data@ == data@,
    {
        FileBackend { data }
    }
}

impl BlockBackend for FileBackend {
    open spec fn view(&self) -> Seq<u8> {
        self.data@
    }

    fn sector_count(&self) -> (n: u64) {
        self.data.len() as u64 / 512
    }

    fn read(&self, offset: usize, len: usize) -> (r: Vec<u8>) {
        copy_range(&self.data, offset, len)
    }

    fn write(&mut self, offset: usize, data: &[u8]) {
        overwrite(&mut self.data, offset, data);
    }
}

/// In-memory storage, zeroed or given as bytes.
pub struct MemoryBackend {
    pub data: Vec<u8>,
}

impl MemoryBackend {
    /// `sectors` zeroed sectors.
    pub fn new(sectors: u64) -> (b: MemoryBackend)
        requires
            sectors * 512 <= usize::MAX,
        ensures
            b.data@ == Seq::new((sectors * 512) as nat, |i: int| 0u8),
    {
        let n = (sectors * 512) as usize;
        let data: Vec<u8> = vec![0u8; n];
        assert(data@ =~= Seq::new((sectors * 512) as nat, |i: int| 0u8)) by {
            assert forall|i: int| 0 <= i < n implies data@[i] == 0u8 by {
                assert(cloned(0u8, data@[i]));
            }
        }
        MemoryBackend { data }
    }

    /// A backend over the given bytes.
    pub fn from_bytes(data: Vec<u8>) -> (b: MemoryBackend)
        ensures
            b.data@ == data@,
    {
        MemoryBackend { data }
    }
}

impl BlockBackend for MemoryBackend {
    open spec fn view(&self) -> Seq<u8> {
        self.data@
    }

    fn sector_count(&self) -> (n: u64) {
        self.data.len() as u64 / 512
    }

    fn read(&self, offset: usize, len: usize) -> (r: Vec<u8>) {
        copy_range(&self.data, offset, len)
    }

    fn write(&mut self, offset: usize, data: &[u8]) {
        overwrite(&mut self.data, offset, data);
    }
}

} // verus!
