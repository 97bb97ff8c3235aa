use vstd::prelude::*;
use crate::rendering::error::RenderError;

verus! {

/// The factor by which a buffer that is too small grows.
pub const BUFFER_GROW: usize = 2;

/// The number of bytes of a vertex buffer when it is made: room for 32 vertices.
pub const INITIAL_VERTEX_BUFFER_SIZE: usize = 640;

/// The number of bytes of an index buffer when it is made: room for 32 indices.
pub const INITIAL_INDEX_BUFFER_SIZE: usize = 64;

/// The number of bytes to a multiple of which the device wants every write.
pub const WRITE_ALIGNMENT: usize = 4;

/// What a buffer holds.
#[derive(Clone, Copy, Debug, PartialEq, Eq, Structural)]
pub enum BufferUsage {
    Vertex,
    Index,
}

/// How far `current` is below `required`.
pub open spec fn shortfall(current: nat, required: nat) -> nat {
    if current < required {
        (required - current) as nat
    } else {
        0
    }
}

/// `length` bytes, all zero.
pub open spec fn zeros(length: nat) -> Seq<u8> {
    Seq::new(length, |i: int| 0u8)
}

/// The least multiple of four that is not below `val`.
pub open spec fn spec_nearest_4(val: nat) -> nat {
    ((val + 3) / 4 * 4) as nat
}

/// The capacity that a buffer of `current` bytes has once it holds `required`
/// bytes: `current` doubled as often as it takes, and not once more.
pub open spec fn spec_grown_capacity(current: nat, required: nat) -> nat
    decreases shortfall(current, required),
{
    if current == 0 || current >= required {
        current
    } else {
        spec_grown_capacity(2 * current, required)
    }
}

/// Growing never shrinks, and reaches what is required.
pub proof fn grown_capacity_suffices(current: nat, required: nat)
    requires
        current > 0,
    ensures
        spec_grown_capacity(current, required) >= current,
        spec_grown_capacity(current, required) >= required,
        required <= current ==> spec_grown_capacity(current, required) == current,
    decreases shortfall(current, required),
{
    if current < required {
        grown_capacity_suffices(2 * current, required);
    }
}

/// A buffer doubles only while it is too small: where it grew, half of the
/// new capacity was not enough.
pub proof fn grown_capacity_is_least(current: nat, required: nat)
    requires
        0 < current < required,
    ensures
        spec_grown_capacity(current, required) % 2 == 0,
        spec_grown_capacity(current, required) / 2 < required,
    decreases shortfall(current, required),
{
    if 2 * current < required {
        grown_capacity_is_least(2 * current, required);
    } else {
        assert(spec_grown_capacity(2 * current, required) == 2 * current);
    }
}

/// A multiple of four stays one however often it doubles.
pub proof fn grown_capacity_keeps_alignment(current: nat, required: nat)
    requires
        current % 4 == 0,
    ensures
        spec_grown_capacity(current, required) % 4 == 0,
    decreases shortfall(current, required),
{
    if current != 0 && current < required {
        grown_capacity_keeps_alignment(2 * current, required);
    }
}

/// Rounds a number of bytes up to the nearest multiple of four.
pub fn nearest_4(val: usize) -> (r: usize)
    requires
        val + 3 <= usize::MAX,
    ensures
        r == spec_nearest_4(val as nat),
        val <= r < val + 4,
        r % 4 == 0,
{
    let rest = val % WRITE_ALIGNMENT;
    if rest == 0 {
        val
    } else {
        val + (WRITE_ALIGNMENT - rest)
    }
}

/// The capacity to which a buffer of `current` bytes grows to hold `required`
/// bytes, or `None` where no number of bytes that large can be written down.
pub fn grown_capacity(current: usize, required: usize) -> (r: Option<usize>)
    ensures
        match r {
            Some(capacity) => capacity == spec_grown_capacity(current as nat, required as nat),
            None => spec_grown_capacity(current as nat, required as nat) > usize::MAX,
        },
{
    let mut capacity = current;
    while capacity != 0 && capacity < required
        invariant
            spec_grown_capacity(capacity as nat, required as nat) == spec_grown_capacity(
                current as nat,
                required as nat,
            ),
        decreases shortfall(capacity as nat, required as nat),
    {
        if capacity > usize::MAX / BUFFER_GROW {
            proof {
                grown_capacity_suffices(2 * capacity as nat, required as nat);
            }
            return None;
        }
        capacity = capacity * BUFFER_GROW;
    }
    Some(capacity)
}

/// The bytes of a buffer of the graphics device, kept on this side so that
/// what the device is handed is known. The capacity of a buffer is the
/// number of its bytes; it is never zero and always a multiple of four.
#[derive(Debug)]
pub struct GpuBuffer {
    usage: BufferUsage,
    data: Vec<u8>,
}

impl View for GpuBuffer {
    type V = Seq<u8>;

    closed spec fn view(&self) -> Seq<u8> {
        self.data@
    }
}

/// Asks `bytemuck::try_zeroed_vec` for `length` bytes. Where memory was to be
/// had, the bytes that come back are `length` in number and all zero;
/// nothing is said of when that is.
#[verifier::external_body]
fn try_zeroed_bytes(length: usize) -> (r: Option<Vec<u8>>)
    ensures
        r matches Some(bytes) ==> bytes@ == zeros(length as nat),
{
    bytemuck::try_zeroed_vec::<u8>(length).ok()
}

impl GpuBuffer {
    /// What the buffer holds.
    pub closed spec fn spec_usage(&self) -> BufferUsage {
        self.usage
    }

    /// The capacity with which a buffer of the given usage starts.
    pub open spec fn initial_capacity(usage: BufferUsage) -> nat {
        match usage {
            BufferUsage::Vertex => INITIAL_VERTEX_BUFFER_SIZE as nat,
            BufferUsage::Index => INITIAL_INDEX_BUFFER_SIZE as nat,
        }
    }

    /// Whether bytes can stand as the contents of a buffer.
    pub open spec fn is_storage(bytes: Seq<u8>) -> bool {
        bytes.len() > 0 && bytes.len() % 4 == 0
    }

    /// Whether the buffer is as every buffer is meant to be.
    pub open spec fn wf(&self) -> bool {
        Self::is_storage(self@)
    }

    /// A buffer of the given usage over the given storage, or the failure
    /// that there is none to be had or that it cannot hold a buffer.
    pub fn with_storage(usage: BufferUsage, storage: Option<Vec<u8>>) -> (r: Result<
        GpuBuffer,
        RenderError,
    >)
        ensures
            match r {
                Ok(buffer) => {
                    &&& storage matches Some(bytes)
                    &&& buffer@ == bytes@
                    &&& buffer.spec_usage() == usage
                    &&& buffer.wf()
                },
                Err(e) => {
                    &&& e == RenderError::BufferGrowthFailure
                    &&& storage matches Some(bytes) ==> !Self::is_storage(bytes@)
                },
            },
    {
        match storage {
            Some(bytes) => {
                if bytes.len() > 0 && bytes.len() % WRITE_ALIGNMENT == 0 {
                    Ok(GpuBuffer { usage, data: bytes })
                } else {
                    Err(RenderError::BufferGrowthFailure)
                }
            },
            None => Err(RenderError::BufferGrowthFailure),
        }
    }

    /// A zeroed buffer of the given usage and of its initial capacity, where
    /// memory for it is to be had.
    pub fn new(usage: BufferUsage) -> (r: Result<GpuBuffer, RenderError>)
        ensures
            match r {
                Ok(buffer) => {
                    &&& buffer@ == zeros(Self::initial_capacity(usage))
                    &&& buffer.spec_usage() == usage
                    &&& buffer.wf()
                },
                Err(e) => e == RenderError::BufferGrowthFailure,
            },
    {
        let capacity = match usage {
            BufferUsage::Vertex => INITIAL_VERTEX_BUFFER_SIZE,
            BufferUsage::Index => INITIAL_INDEX_BUFFER_SIZE,
        };
        Self::with_storage(usage, try_zeroed_bytes(capacity))
    }

    /// What the buffer holds.
    pub fn usage(&self) -> (usage: BufferUsage)
        ensures
            usage == self.spec_usage(),
    {
        self.usage
    }

    /// The number of bytes of the buffer.
    pub fn capacity(&self) -> (capacity: usize)
        ensures
            capacity == self@.len(),
    {
        self.data.len()
    }

    /// The bytes of the buffer.
    pub fn contents(&self) -> (bytes: &Vec<u8>)
        ensures
            bytes@ == self@,
    {
        &self.data
    }

    /// A zeroed buffer to take the place of this one where this one cannot
    /// hold `required_bytes`: of the same usage and of twice the capacity,
    /// doubled again until it is large enough. `None` where this one is large
    /// enough; the failure where the larger buffer cannot be had.
    pub fn grown(&self, required_bytes: usize) -> (r: Result<Option<GpuBuffer>, RenderError>)
        requires
            self.wf(),
        ensures
            required_bytes <= self@.len() ==> r matches Ok(None),
            spec_grown_capacity(self@.len(), required_bytes as nat) > usize::MAX ==> r.is_err(),
            match r {
                Ok(None) => required_bytes <= self@.len(),
                Ok(Some(buffer)) => {
                    &&& required_bytes > self@.len()
                    &&& buffer.wf()
                    &&& buffer.spec_usage() == self.spec_usage()
                    &&& buffer@ == zeros(spec_grown_capacity(self@.len(), required_bytes as nat))
                    &&& buffer@.len() >= required_bytes
                    &&& buffer@.len() >= self@.len()
                },
                Err(e) => e == RenderError::BufferGrowthFailure && required_bytes > self@.len(),
            },
    {
        let current = self.data.len();
        proof {
            grown_capacity_suffices(current as nat, required_bytes as nat);
            grown_capacity_keeps_alignment(current as nat, required_bytes as nat);
        }
        if required_bytes <= current {
            return Ok(None);
        }
        match grown_capacity(current, required_bytes) {
            Some(capacity) => {
                match Self::with_storage(self.usage, try_zeroed_bytes(capacity)) {
                    Ok(buffer) => Ok(Some(buffer)),
                    Err(e) => Err(e),
                }
            },
            None => Err(RenderError::BufferGrowthFailure),
        }
    }

    /// Makes sure that the buffer can hold `required_bytes`. A buffer that is
    /// large enough stays as it is. One that is not is replaced by a zeroed
    /// one of twice the capacity, doubled again until it is large enough; the
    /// result then is `true`. The buffer never shrinks. Where the larger
    /// buffer cannot be had, the buffer stays as it is and the failure is
    /// reported.
    pub fn ensure_capacity(&mut self, required_bytes: usize) -> (r: Result<bool, RenderError>)
        requires
            old(self).wf(),
        ensures
            final(self).wf(),
            final(self).spec_usage() == old(self).spec_usage(),
            final(self)@.len() >= old(self)@.len(),
            required_bytes <= old(self)@.len() ==> r == Ok::<bool, RenderError>(false),
            spec_grown_capacity(old(self)@.len(), required_bytes as nat) > usize::MAX ==> r.is_err(),
            match r {
                Ok(replaced) => {
                    &&& replaced == (required_bytes > old(self)@.len())
                    &&& final(self)@.len() >= required_bytes
                    &&& final(self)@.len() == spec_grown_capacity(
                        old(self)@.len(),
                        required_bytes as nat,
                    )
                    &&& replaced ==> final(self)@ == zeros(final(self)@.len())
                    &&& !replaced ==> final(self)@ == old(self)@
                },
                Err(e) => {
                    &&& e == RenderError::BufferGrowthFailure
                    &&& required_bytes > old(self)@.len()
                    &&& final(self)@ == old(self)@
                },
            },
    {
        proof {
            grown_capacity_suffices(self@.len(), required_bytes as nat);
        }
        match self.grown(required_bytes) {
            Ok(None) => Ok(false),
            Ok(Some(buffer)) => {
                *self = buffer;
                Ok(true)
            },
            Err(e) => Err(e),
        }
    }

    /// What the buffer holds after `bytes` were written to its start: the
    /// bytes, zeros up to the next multiple of four, and behind them what was
    /// there before.
    pub open spec fn after_upload(before: Seq<u8>, bytes: Seq<u8>) -> Seq<u8> {
        let written = spec_nearest_4(bytes.len());
        bytes + zeros((written - bytes.len()) as nat) + before.subrange(
            written as int,
            before.len() as int,
        )
    }

    /// Writes `bytes` to the start of the buffer, over what was there. The
    /// region written is rounded up to a multiple of four bytes and filled up
    /// with zeros; its size is returned. Bytes that the buffer cannot hold
    /// are not written: the buffer stays as it is and `None` is returned.
    pub fn upload(&mut self, bytes: &Vec<u8>) -> (r: Option<usize>)
        requires
            old(self).wf(),
        ensures
            final(self).wf(),
            final(self).spec_usage() == old(self).spec_usage(),
            final(self)@.len() == old(self)@.len(),
            match r {
                Some(written) => {
                    &&& bytes@.len() <= old(self)@.len()
                    &&& written == spec_nearest_4(bytes@.len())
                    &&& final(self)@ == Self::after_upload(old(self)@, bytes@)
                    &&& final(self)@.subrange(0, bytes@.len() as int) == bytes@
                },
                None => bytes@.len() > old(self)@.len() && final(self)@ == old(self)@,
            },
    {
        let length = bytes.len();
        if length > self.data.len() {
            return None;
        }
        let written = nearest_4(length);
        let mut at: usize = 0;
        while at < written
            invariant
                at <= written,
                length == bytes@.len(),
                length <= written <= self.data@.len(),
                self.data@.len() == old(self)@.len(),
                self.usage == old(self).usage,
                forall|i: int| 0 <= i < at && i < length ==> self.data@[i] == bytes@[i],
                forall|i: int| length <= i < at ==> self.data@[i] == 0u8,
                forall|i: int| at <= i < self.data@.len() ==> self.data@[i] == old(self)@[i],
            decreases written - at,
        {
            let byte: u8 = if at < length {
                bytes[at]
            } else {
                0
            };
            self.data.set(at, byte);
            at += 1;
        }
        assert(self@ =~= Self::after_upload(old(self)@, bytes@));
        assert(self@.subrange(0, bytes@.len() as int) =~= bytes@);
        Some(written)
    }

    /// Reads back the first `length` bytes of the buffer, or `None` where the
    /// buffer has fewer.
    pub fn read(&self, length: usize) -> (r: Option<Vec<u8>>)
        ensures
            match r {
                Some(bytes) => length <= self@.len() && bytes@ == self@.subrange(0, length as int),
                None => length > self@.len(),
            },
    {
        if length > self.data.len() {
            return None;
        }
        let mut bytes: Vec<u8> = Vec::new();
        let mut at: usize = 0;
        while at < length
            invariant
                at <= length <= self.data@.len(),
                bytes@ == self.data@.subrange(0, at as int),
            decreases length - at,
        {
            bytes.push(self.data[at]);
            assert(self.data@.subrange(0, at + 1) =~= self.data@.subrange(0, at as int).push(
                self.data@[at as int],
            ));
            at += 1;
        }
        Some(bytes)
    }
}

/// What was uploaded is read back as it was, whatever the buffer held before
/// and whatever stands in the padding behind it.
pub proof fn upload_then_read(before: Seq<u8>, bytes: Seq<u8>)
    requires
        GpuBuffer::is_storage(before),
        bytes.len() <= before.len(),
    ensures
        GpuBuffer::after_upload(before, bytes).len() == before.len(),
        GpuBuffer::after_upload(before, bytes).subrange(0, bytes.len() as int) == bytes,
{
    assert(GpuBuffer::after_upload(before, bytes).subrange(0, bytes.len() as int) =~= bytes);
}

} // verus!
