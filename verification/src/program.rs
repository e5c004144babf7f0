use vstd::prelude::*;
use crate::encoding::{from_le64, get_le64};
use crate::error::{LoadError, RuntimeError};

verus! {

/// The least number of bytes of an image: its file header.
pub const MIN_IMAGE_SIZE: usize = 64;

/// Whether `bytes` start with the four bytes that mark an ELF file.
pub open spec fn has_magic(bytes: Seq<u8>) -> bool {
    bytes.len() >= 4 && bytes[0] == 0x7f && bytes[1] == 0x45 && bytes[2] == 0x4c && bytes[3]
        == 0x46
}

/// The entry offset that the header of an image holds in its bytes 24 to 31.
pub open spec fn header_entry(bytes: Seq<u8>) -> u64 {
    from_le64(bytes.subrange(24, 32))
}

/// A program image, with the offset in it at which execution starts.
pub struct Program {
    pub bytecode: Vec<u8>,
    pub entry_point: u64,
}

impl Program {
    /// Takes `bytecode` as an image: it has to hold a whole file header that
    /// starts with the ELF mark. The entry point is read from the header.
    pub fn new(bytecode: Vec<u8>) -> (r: Result<Program, LoadError>)
        ensures
            match r {
                Ok(p) => bytecode.len() >= MIN_IMAGE_SIZE && has_magic(bytecode@) && p.bytecode@
                    == bytecode@ && p.entry_point == header_entry(bytecode@),
                Err(LoadError::TooShort) => bytecode.len() < MIN_IMAGE_SIZE,
                Err(LoadError::BadMagic) => bytecode.len() >= MIN_IMAGE_SIZE && !has_magic(
                    bytecode@,
                ),
            },
    {
        if bytecode.len() < MIN_IMAGE_SIZE {
            return Err(LoadError::TooShort);
        }
        if bytecode[0] != 0x7f || bytecode[1] != 0x45 || bytecode[2] != 0x4c || bytecode[3] != 0x46 {
            return Err(LoadError::BadMagic);
        }
        let mut program = Program { bytecode, entry_point: 0 };
        program.parse_bytecode();
        Ok(program)
    }

    /// Reads the entry point from the header.
    fn parse_bytecode(&mut self)
        requires
            old(self).bytecode.len() >= 32,
        ensures
            final(self).bytecode == old(self).bytecode,
            final(self).entry_point == header_entry(old(self).bytecode@),
    {
        self.entry_point = get_le64(self.bytecode.as_slice(), 24);
    }

    /// The `length` bytes of the image from `address` on.
    pub fn read(&self, address: u64, length: u64) -> (r: Result<Vec<u8>, RuntimeError>)
        ensures
            match r {
                Ok(data) => address + length <= self.bytecode.len() && data@
                    == self.bytecode@.subrange(address as int, address + length),
                Err(e) => address + length > self.bytecode.len() && e
                    == RuntimeError::MemoryOutOfBounds,
            },
    {
        let n = self.bytecode.len();
        if address > n as u64 || length > n as u64 - address {
            return Err(RuntimeError::MemoryOutOfBounds);
        }
        let start = address as usize;
        let end = start + length as usize;
        let mut data: Vec<u8> = Vec::new();
        let mut i: usize = start;
        while i < end
            invariant
                start <= i <= end <= self.bytecode.len(),
                data@ == self.bytecode@.subrange(start as int, i as int),
            decreases end - i,
        {
            data.push(self.bytecode[i]);
            assert(data@ =~= self.bytecode@.subrange(start as int, i + 1));
            i += 1;
        }
        Ok(data)
    }
}

} // verus!
