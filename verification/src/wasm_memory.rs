//! The stack of allocations through which host and guest exchange data.
//!
//! A guest's memory is filled from the bottom up: every write takes the
//! bytes just above what was written before, and is described by an
//! allocation, the offset and length of those bytes.

use vstd::prelude::*;

verus! {

/// The highest number of bytes that the memory holds: offsets and lengths
/// are 32-bit numbers.
pub const MEMORY_LIMIT: u64 = 4294967295;

/// Why an allocation could not be made.
#[derive(Clone, Copy, Debug, PartialEq, Eq, Structural)]
pub enum AllocationError {
    /// The allocation would reach beyond the end of the memory.
    OutOfBounds,
    /// The allocation would hold no bytes.
    ZeroLength,
    /// The allocation does not start at the top of the stack.
    BadStackAlignment,
    /// The value to be written could not be serialised.
    Serialization,
}

/// A run of bytes in the memory. One made by [`WasmAllocation::new`] is not
/// empty and lies within the memory.
#[derive(Clone, Copy, Debug, PartialEq, Eq)]
pub struct WasmAllocation {
    offset: u32,
    length: u32,
}

/// The allocation of `length` bytes at `offset`, or why there is none: one
/// that reaches beyond the memory is out of bounds, one without bytes has
/// zero length.
pub open spec fn allocation_at(offset: int, length: int) -> Result<(int, int), AllocationError> {
    if offset + length > MEMORY_LIMIT {
        Err(AllocationError::OutOfBounds)
    } else if length == 0 {
        Err(AllocationError::ZeroLength)
    } else {
        Ok((offset, length))
    }
}

impl WasmAllocation {
    /// Where the allocation starts.
    pub closed spec fn spec_offset(&self) -> int {
        self.offset as int
    }

    /// How many bytes the allocation holds.
    pub closed spec fn spec_length(&self) -> int {
        self.length as int
    }

    /// The allocation of `length` bytes at `offset`, if there is one.
    pub fn new(offset: u32, length: u32) -> (allocation: Result<WasmAllocation, AllocationError>)
        ensures
            match allocation {
                Ok(a) => allocation_at(offset as int, length as int) == Ok::<
                    (int, int),
                    AllocationError,
                >((a.spec_offset(), a.spec_length())),
                Err(error) => allocation_at(offset as int, length as int) == Err::<
                    (int, int),
                    AllocationError,
                >(error),
            },
    {
        if offset as u64 + length as u64 > MEMORY_LIMIT {
            Err(AllocationError::OutOfBounds)
        } else if length == 0 {
            Err(AllocationError::ZeroLength)
        } else {
            Ok(WasmAllocation { offset, length })
        }
    }

    /// Where the allocation starts.
    pub fn offset(&self) -> (offset: u32)
        ensures
            offset == self.spec_offset(),
    {
        self.offset
    }

    /// How many bytes the allocation holds.
    pub fn length(&self) -> (length: u32)
        ensures
            length == self.spec_length(),
    {
        self.length
    }
}

/// The stack of a guest's memory: the bytes written so far, bottom first.
pub struct WasmStack {
    memory: Vec<u8>,
}

impl View for WasmStack {
    type V = Seq<u8>;

    /// The bytes written so far.
    closed spec fn view(&self) -> Seq<u8> {
        self.memory@
    }
}

/// What a write of `bytes` does to a memory that holds `memory`: the place
/// that the bytes take, above all that was written before, or why they
/// cannot be written.
pub open spec fn written(memory: Seq<u8>, bytes: Seq<u8>) -> Result<(int, int), AllocationError> {
    allocation_at(memory.len() as int, bytes.len() as int)
}

impl WasmStack {
    /// Whether the stack is within the memory. Every stack made by
    /// [`WasmStack::new`] is, and every write keeps it so.
    pub closed spec fn well_formed(&self) -> bool {
        self.memory.len() <= MEMORY_LIMIT
    }

    /// Whether the stack is within the memory.
    pub fn is_well_formed(&self) -> (well_formed: bool)
        ensures
            well_formed == self.well_formed(),
    {
        self.memory.len() as u64 <= MEMORY_LIMIT
    }

    /// The most that the memory can hold.
    pub fn max() -> (max: u64)
        ensures
            max == MEMORY_LIMIT,
    {
        MEMORY_LIMIT
    }

    /// An empty stack.
    pub fn new() -> (stack: WasmStack)
        ensures
            stack@ == Seq::<u8>::empty(),
            stack.well_formed(),
    {
        WasmStack { memory: Vec::new() }
    }

    /// The offset at which the next allocation starts: the number of bytes
    /// written so far.
    pub fn top(&self) -> (top: u32)
        requires
            self.well_formed(),
        ensures
            top == self@.len(),
    {
        self.memory.len() as u32
    }

    /// The bytes of an allocation, if it lies within what was written.
    pub fn read(&self, allocation: WasmAllocation) -> (bytes: Option<Vec<u8>>)
        ensures
            match bytes {
                Some(found) => allocation.spec_offset() + allocation.spec_length() <= self@.len()
                    && found@ == self@.subrange(
                    allocation.spec_offset(),
                    allocation.spec_offset() + allocation.spec_length(),
                ),
                None => allocation.spec_offset() + allocation.spec_length() > self@.len(),
            },
    {
        let start = allocation.offset as usize;
        let end = allocation.offset as u64 + allocation.length as u64;
        if end > self.memory.len() as u64 {
            return None;
        }
        let mut found: Vec<u8> = Vec::new();
        let mut i: usize = start;
        while i < end as usize
            invariant
                start <= i <= end,
                end <= self.memory.len(),
                found@ == self.memory@.subrange(start as int, i as int),
            decreases end - i,
        {
            found.push(self.memory[i]);
            i += 1;
        }
        Some(found)
    }

    /// The allocation of `length` bytes that the stack would make next.
    pub fn next_allocation(&self, length: u32) -> (allocation: Result<
        WasmAllocation,
        AllocationError,
    >)
        requires
            self.well_formed(),
        ensures
            match allocation {
                Ok(a) => allocation_at(self@.len() as int, length as int) == Ok::<
                    (int, int),
                    AllocationError,
                >((a.spec_offset(), a.spec_length())),
                Err(error) => allocation_at(self@.len() as int, length as int) == Err::<
                    (int, int),
                    AllocationError,
                >(error),
            },
    {
        WasmAllocation::new(self.top(), length)
    }

    /// Takes the bytes of `allocation` into use, filled with zeros, and
    /// returns where they start. The allocation must start at the top of the
    /// stack and end within the memory; else nothing is taken.
    pub fn allocate(&mut self, allocation: WasmAllocation) -> (top: Result<u32, AllocationError>)
        requires
            old(self).well_formed(),
        ensures
            final(self).well_formed(),
            match top {
                Ok(offset) => {
                    &&& offset == old(self)@.len()
                    &&& allocation.spec_offset() == old(self)@.len()
                    &&& old(self)@.len() + allocation.spec_length() <= MEMORY_LIMIT
                    &&& final(self)@ == old(self)@ + Seq::new(
                        allocation.spec_length() as nat,
                        |i: int| 0u8,
                    )
                },
                Err(error) => {
                    &&& final(self)@ == old(self)@
                    &&& error == (if allocation.spec_offset() != old(self)@.len() {
                        AllocationError::BadStackAlignment
                    } else {
                        AllocationError::OutOfBounds
                    })
                    &&& allocation.spec_offset() != old(self)@.len() || old(self)@.len()
                        + allocation.spec_length() > MEMORY_LIMIT
                },
            },
    {
        let top = self.top();
        if top != allocation.offset {
            Err(AllocationError::BadStackAlignment)
        } else if top as u64 + allocation.length as u64 > MEMORY_LIMIT {
            Err(AllocationError::OutOfBounds)
        } else {
            let ghost before = self.memory@;
            let mut i: u32 = 0;
            while i < allocation.length
                invariant
                    i <= allocation.length,
                    before.len() + allocation.length <= MEMORY_LIMIT,
                    self.memory@ == before + Seq::new(i as nat, |k: int| 0u8),
                decreases allocation.length - i,
            {
                self.memory.push(0);
                i += 1;
            }
            Ok(top)
        }
    }

    /// Writes `bytes` on top of the stack.
    fn write_in_wasm_memory(&mut self, bytes: &[u8]) -> (allocation: Result<
        WasmAllocation,
        AllocationError,
    >)
        requires
            old(self).well_formed(),
        ensures
            final(self).well_formed(),
            match allocation {
                Ok(a) => written(old(self)@, bytes@) == Ok::<(int, int), AllocationError>(
                    (a.spec_offset(), a.spec_length()),
                ) && final(self)@ == old(self)@ + bytes@,
                Err(error) => written(old(self)@, bytes@) == Err::<(int, int), AllocationError>(
                    error,
                ) && final(self)@ == old(self)@,
            },
    {
        if bytes.len() as u64 > MEMORY_LIMIT {
            return Err(AllocationError::OutOfBounds);
        }
        let length = bytes.len() as u32;
        let next_allocation = self.next_allocation(length)?;
        let ghost before = self.memory@;
        let ptr = self.allocate(next_allocation)?;
        let start = ptr as usize;
        let mut i: usize = 0;
        while i < bytes.len()
            invariant
                i <= bytes.len(),
                start == before.len(),
                bytes.len() == length,
                self.memory@.len() == before.len() + bytes.len(),
                self.memory@.len() <= MEMORY_LIMIT,
                self.memory@.subrange(0, start as int) == before,
                self.memory@.subrange(start as int, start + i) == bytes@.subrange(0, i as int),
            decreases bytes.len() - i,
        {
            self.memory.set(start + i, bytes[i]);
            i += 1;
        }
        assert(self.memory@ =~= before + bytes@) by {
            assert(self.memory@.subrange(start as int, start + bytes.len()) == bytes@.subrange(
                0,
                bytes.len() as int,
            ));
            assert(bytes@.subrange(0, bytes.len() as int) =~= bytes@);
            assert(self.memory@ =~= self.memory@.subrange(0, start as int) + self.memory@.subrange(
                start as int,
                start + bytes.len(),
            ));
        }
        WasmAllocation::new(ptr, length)
    }

    /// Writes a string on top of the stack, as its UTF-8 bytes.
    pub fn write_string(&mut self, s: &str) -> (allocation: Result<WasmAllocation, AllocationError>)
        requires
            old(self).well_formed(),
        ensures
            final(self).well_formed(),
            match allocation {
                Ok(a) => written(old(self)@, vstd::utf8::encode_utf8(s@)) == Ok::<
                    (int, int),
                    AllocationError,
                >((a.spec_offset(), a.spec_length())) && final(self)@ == old(self)@
                    + vstd::utf8::encode_utf8(s@),
                Err(error) => written(old(self)@, vstd::utf8::encode_utf8(s@)) == Err::<
                    (int, int),
                    AllocationError,
                >(error) && final(self)@ == old(self)@,
            },
    {
        self.write_in_wasm_memory(s.as_bytes())
    }

    /// Writes a value on top of the stack, as the JSON bytes that it was
    /// serialised to; `None` stands for a value that could not be
    /// serialised.
    pub fn write_json(&mut self, json_bytes: Option<Vec<u8>>) -> (allocation: Result<
        WasmAllocation,
        AllocationError,
    >)
        requires
            old(self).well_formed(),
        ensures
            final(self).well_formed(),
            match json_bytes {
                None => allocation == Err::<WasmAllocation, AllocationError>(
                    AllocationError::Serialization,
                ) && final(self)@ == old(self)@,
                Some(bytes) => match allocation {
                    Ok(a) => written(old(self)@, bytes@) == Ok::<(int, int), AllocationError>(
                        (a.spec_offset(), a.spec_length()),
                    ) && final(self)@ == old(self)@ + bytes@,
                    Err(error) => written(old(self)@, bytes@) == Err::<(int, int), AllocationError>(
                        error,
                    ) && final(self)@ == old(self)@,
                },
            },
    {
        match json_bytes {
            None => Err(AllocationError::Serialization),
            Some(bytes) => self.write_in_wasm_memory(bytes.as_slice()),
        }
    }
}

} // verus!
