//! Flat, bounds-checked byte memory.
use vstd::prelude::*;
use vstd::slice::slice_subrange;

verus! {

/// Number of addressable bytes.
pub const MEMORY_SIZE: u16 = 4096;

/// Returned by every memory access whose span does not lie inside memory.
#[derive(Copy, Clone, Debug, PartialEq, Eq, Structural)]
pub struct OutOfBoundsError;

pub type Result<T> = core::result::Result<T, OutOfBoundsError>;

/// The interpreter's byte-addressable store of `MEMORY_SIZE` bytes.
pub struct Memory {
    memory: Vec<u8>,
}

/// The big-endian 16-bit word made of `high` followed by `low`.
pub open spec fn word_of(high: u8, low: u8) -> u16 {
    ((high as int) * 256 + (low as int)) as u16
}

impl View for Memory {
    type V = Seq<u8>;

    closed spec fn view(&self) -> Seq<u8> {
        self.memory@
    }
}

impl Default for Memory {
    fn default() -> (m: Self)
        ensures
            m.wf(),
            m@ == Seq::new(MEMORY_SIZE as nat, |i: int| 0u8),
    {
        let m = Memory { memory: vec![0u8; MEMORY_SIZE as usize] };
        assert(m@ =~= Seq::new(MEMORY_SIZE as nat, |i: int| 0u8));
        m
    }
}

impl Memory {
    /// Every memory holds exactly `MEMORY_SIZE` bytes.
    pub open spec fn wf(&self) -> bool {
        self@.len() == MEMORY_SIZE
    }

    /// Sets every byte to zero.
    pub fn reset(&mut self)
        requires
            old(self).wf(),
        ensures
            final(self).wf(),
            final(self)@ == Seq::new(MEMORY_SIZE as nat, |i: int| 0u8),
    {
        self.memory = vec![0u8; MEMORY_SIZE as usize];
        assert(self@ =~= Seq::new(MEMORY_SIZE as nat, |i: int| 0u8));
    }

    /// Stores `data` at `address`; fails, changing nothing, when `address`
    /// lies outside memory.
    pub fn write_u8(&mut self, address: u16, data: u8) -> (r: Result<()>)
        requires
            old(self).wf(),
        ensures
            final(self).wf(),
            r is Ok <==> address < MEMORY_SIZE,
            r is Ok ==> final(self)@ == old(self)@.update(address as int, data),
            r is Err ==> final(self)@ == old(self)@,
    {
        if address >= MEMORY_SIZE {
            return Err(OutOfBoundsError);
        }
        self.memory.set(address as usize, data);
        Ok(())
    }

    /// Copies `data` into memory starting at `start_address`; fails, changing
    /// nothing, when the span does not fit in memory.
    pub fn write_data(&mut self, start_address: u16, data: &[u8]) -> (r: Result<()>)
        requires
            old(self).wf(),
        ensures
            final(self).wf(),
            r is Ok <==> start_address + data@.len() <= MEMORY_SIZE,
            r is Ok ==> final(self)@ == old(self)@.subrange(0, start_address as int) + data@
                + old(self)@.subrange(start_address + data@.len(), MEMORY_SIZE as int),
            r is Err ==> final(self)@ == old(self)@,
    {
        if start_address > MEMORY_SIZE || data.len() > (MEMORY_SIZE - start_address) as usize {
            return Err(OutOfBoundsError);
        }
        let start = start_address as usize;
        let mut index: usize = 0;
        while index < data.len()
            invariant
                start + data@.len() <= MEMORY_SIZE,
                self.wf(),
                old(self).wf(),
                0 <= index <= data@.len(),
                forall|k: int| 0 <= k < start ==> self@[k] == old(self)@[k],
                forall|k: int| start <= k < start + index ==> self@[k] == data@[k - start],
                forall|k: int| start + index <= k < MEMORY_SIZE ==> self@[k] == old(self)@[k],
            decreases data@.len() - index,
        {
            self.memory.set(start + index, data[index]);
            index = index + 1;
        }
        assert(self@ =~= old(self)@.subrange(0, start as int) + data@
            + old(self)@.subrange(start + data@.len(), MEMORY_SIZE as int));
        Ok(())
    }

    /// The byte at `address`.
    pub fn get_u8(&self, address: u16) -> (r: Result<u8>)
        requires
            self.wf(),
        ensures
            r is Ok <==> address < MEMORY_SIZE,
            r matches Ok(b) ==> b == self@[address as int],
    {
        if address >= MEMORY_SIZE {
            return Err(OutOfBoundsError);
        }
        Ok(self.memory[address as usize])
    }

    /// The big-endian word whose high byte is at `address` and whose low byte
    /// follows it.
    pub fn get_u16(&self, address: u16) -> (r: Result<u16>)
        requires
            self.wf(),
        ensures
            r is Ok <==> address + 1 < MEMORY_SIZE,
            r matches Ok(w) ==> w == word_of(self@[address as int], self@[address + 1]),
    {
        if address >= MEMORY_SIZE - 1 {
            return Err(OutOfBoundsError);
        }
        let high_byte = self.memory[address as usize] as u16;
        let low_byte = self.memory[(address + 1) as usize] as u16;
        Ok(high_byte * 256 + low_byte)
    }

    /// The `size` bytes starting at `address`.
    pub fn get_data(&self, address: u16, size: u16) -> (r: Result<&[u8]>)
        requires
            self.wf(),
        ensures
            r is Ok <==> address + size <= MEMORY_SIZE,
            r matches Ok(s) ==> s@ == self@.subrange(address as int, address + size),
    {
        if size > MEMORY_SIZE || address > MEMORY_SIZE - size {
            return Err(OutOfBoundsError);
        }
        Ok(slice_subrange(self.memory.as_slice(), address as usize, (address + size) as usize))
    }
}

} // verus!
