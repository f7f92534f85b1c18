//! The 4096-byte address space of the machine, with bounds-checked access.
use vstd::prelude::*;

verus! {

/// Number of addressable bytes.
pub const MEM_SIZE: u16 = 0x1000;

/// Address at which programs are loaded.
pub const ROM_START_ADDRESS: u16 = 0x200;

/// Number of bytes of the built-in glyph table at address 0.
pub const FONT_LEN: usize = 80;

/// An access that does not lie within the address space: it starts at
/// `address` and spans `num_bytes` bytes.
#[derive(Debug, Clone, Copy, PartialEq, Eq, Structural)]
pub struct MemoryFault {
    pub address: u16,
    pub num_bytes: usize,
}

/// Whether `num_bytes` bytes starting at `address` lie within memory.
pub open spec fn access_ok(address: int, num_bytes: int) -> bool {
    address + num_bytes <= MEM_SIZE as int
}

/// The outcome of checking an access of `num_bytes` bytes at `address`.
pub open spec fn access_result(address: u16, num_bytes: usize) -> Result<(), MemoryFault> {
    if access_ok(address as int, num_bytes as int) {
        Ok(())
    } else {
        Err(MemoryFault { address, num_bytes })
    }
}

/// The built-in sprites of the hexadecimal digits 0 to F, five bytes each.
pub open spec fn font_glyphs() -> Seq<u8> {
    seq![
        0xF0u8, 0x90, 0x90, 0x90, 0xF0, // 0
        0x20, 0x60, 0x20, 0x20, 0x70, // 1
        0xF0, 0x10, 0xF0, 0x80, 0xF0, // 2
        0xF0, 0x10, 0xF0, 0x10, 0xF0, // 3
        0x90, 0x90, 0xF0, 0x10, 0x10, // 4
        0xF0, 0x80, 0xF0, 0x10, 0xF0, // 5
        0xF0, 0x80, 0xF0, 0x90, 0xF0, // 6
        0xF0, 0x10, 0x20, 0x40, 0x40, // 7
        0xF0, 0x90, 0xF0, 0x90, 0xF0, // 8
        0xF0, 0x90, 0xF0, 0x10, 0xF0, // 9
        0xF0, 0x90, 0xF0, 0x90, 0x90, // A
        0xE0, 0x90, 0xE0, 0x90, 0xE0, // B
        0xF0, 0x80, 0x80, 0x80, 0xF0, // C
        0xE0, 0x90, 0x90, 0x90, 0xE0, // D
        0xF0, 0x80, 0xF0, 0x80, 0xF0, // E
        0xF0, 0x80, 0xF0, 0x80, 0x80, // F
    ]
}

/// Memory as it is after construction: the glyph table, then zeros.
pub open spec fn initial_memory() -> Seq<u8> {
    Seq::new(MEM_SIZE as nat, |i: int| if i < FONT_LEN { font_glyphs()[i] } else { 0u8 })
}

/// `m` with `data` written over it from `address` on.
pub open spec fn write_spec(m: Seq<u8>, address: int, data: Seq<u8>) -> Seq<u8> {
    Seq::new(
        m.len(),
        |i: int| if address <= i < address + data.len() { data[i - address] } else { m[i] },
    )
}

/// The `num_bytes` bytes of `m` from `address` on.
pub open spec fn read_spec(m: Seq<u8>, address: int, num_bytes: int) -> Seq<u8> {
    m.subrange(address, address + num_bytes)
}

/// The big-endian 16-bit word at `address`.
pub open spec fn word_at(m: Seq<u8>, address: int) -> u16 {
    (m[address] * 256 + m[address + 1]) as u16
}

/// The two bytes of `w`, most significant first.
pub open spec fn word_bytes(w: u16) -> Seq<u8> {
    seq![(w / 256) as u8, (w % 256) as u8]
}

/// Writing bytes and reading the same range back gives the bytes written.
pub proof fn lemma_write_read_round_trip(m: Seq<u8>, address: int, data: Seq<u8>)
    requires
        m.len() == MEM_SIZE as nat,
        0 <= address,
        access_ok(address, data.len() as int),
    ensures
        read_spec(write_spec(m, address, data), address, data.len() as int) == data,
        write_spec(m, address, data).len() == m.len(),
{
    assert(read_spec(write_spec(m, address, data), address, data.len() as int) =~= data);
}

/// Writing a word and reading the word at the same address gives the word written.
pub proof fn lemma_word_round_trip(m: Seq<u8>, address: int, w: u16)
    requires
        m.len() == MEM_SIZE as nat,
        0 <= address,
        access_ok(address, 2),
    ensures
        word_at(write_spec(m, address, word_bytes(w)), address) == w,
{
}

/// Checks that `num_bytes` bytes starting at `address` lie within memory.
pub fn check_legal_mem_access(address: u16, num_bytes: usize) -> (r: Result<(), MemoryFault>)
    ensures
        r == access_result(address, num_bytes),
{
    if num_bytes > MEM_SIZE as usize || address as usize > MEM_SIZE as usize - num_bytes {
        Err(MemoryFault { address, num_bytes })
    } else {
        Ok(())
    }
}

/// The byte store of the machine.
pub struct Memory {
    bytes: Vec<u8>,
}

impl View for Memory {
    type V = Seq<u8>;

    closed spec fn view(&self) -> Seq<u8> {
        self.bytes@
    }
}

/// The glyph table as an array.
fn font_sprites() -> (r: [u8; FONT_LEN])
    ensures
        r@ == font_glyphs(),
{
    let r: [u8; FONT_LEN] = [
        0xF0, 0x90, 0x90, 0x90, 0xF0, // 0
        0x20, 0x60, 0x20, 0x20, 0x70, // 1
        0xF0, 0x10, 0xF0, 0x80, 0xF0, // 2
        0xF0, 0x10, 0xF0, 0x10, 0xF0, // 3
        0x90, 0x90, 0xF0, 0x10, 0x10, // 4
        0xF0, 0x80, 0xF0, 0x10, 0xF0, // 5
        0xF0, 0x80, 0xF0, 0x90, 0xF0, // 6
        0xF0, 0x10, 0x20, 0x40, 0x40, // 7
        0xF0, 0x90, 0xF0, 0x90, 0xF0, // 8
        0xF0, 0x90, 0xF0, 0x10, 0xF0, // 9
        0xF0, 0x90, 0xF0, 0x90, 0x90, // A
        0xE0, 0x90, 0xE0, 0x90, 0xE0, // B
        0xF0, 0x80, 0x80, 0x80, 0xF0, // C
        0xE0, 0x90, 0x90, 0x90, 0xE0, // D
        0xF0, 0x80, 0xF0, 0x80, 0xF0, // E
        0xF0, 0x80, 0xF0, 0x80, 0x80, // F
    ];
    assert(r@ =~= font_glyphs());
    r
}

impl Memory {
    /// Memory holds exactly `MEM_SIZE` bytes.
    pub open spec fn wf(&self) -> bool {
        self@.len() == MEM_SIZE as nat
    }

    /// Fresh memory: the glyph table at address 0, zeros elsewhere.
    pub fn new() -> (r: Self)
        ensures
            r.wf(),
            r@ == initial_memory(),
    {
        let font = font_sprites();
        let mut bytes: Vec<u8> = Vec::new();
        let mut k: usize = 0;
        while k < MEM_SIZE as usize
            invariant
                k <= MEM_SIZE,
                font@ == font_glyphs(),
                bytes@ == initial_memory().take(k as int),
            decreases MEM_SIZE - k,
        {
            if k < FONT_LEN {
                bytes.push(font[k]);
            } else {
                bytes.push(0u8);
            }
            proof {
                assert(bytes@ =~= initial_memory().take(k + 1));
            }
            k += 1;
        }
        assert(bytes@ =~= initial_memory());
        Memory { bytes }
    }

    /// Writes `contents` at the program origin; faults where it does not fit.
    pub fn load_rom(&mut self, contents: &[u8]) -> (r: Result<(), MemoryFault>)
        requires
            old(self).wf(),
        ensures
            final(self).wf(),
            r == access_result(ROM_START_ADDRESS, contents@.len() as usize),
            final(self)@ == (if r is Ok {
                write_spec(old(self)@, ROM_START_ADDRESS as int, contents@)
            } else {
                old(self)@
            }),
    {
        self.write_data(ROM_START_ADDRESS, contents)
    }

    /// The byte at `address`.
    pub fn read_byte(&self, address: u16) -> (r: Result<u8, MemoryFault>)
        requires
            self.wf(),
        ensures
            r == (if access_ok(address as int, 1) {
                Ok(self@[address as int])
            } else {
                Err(MemoryFault { address, num_bytes: 1 })
            }),
    {
        match check_legal_mem_access(address, 1) {
            Err(f) => Err(f),
            Ok(()) => Ok(self.bytes[address as usize]),
        }
    }

    /// Stores `byte` at `address`.
    pub fn write_byte(&mut self, address: u16, byte: u8) -> (r: Result<(), MemoryFault>)
        requires
            old(self).wf(),
        ensures
            final(self).wf(),
            r == access_result(address, 1),
            final(self)@ == (if r is Ok {
                old(self)@.update(address as int, byte)
            } else {
                old(self)@
            }),
    {
        match check_legal_mem_access(address, 1) {
            Err(f) => Err(f),
            Ok(()) => {
                self.bytes.set(address as usize, byte);
                Ok(())
            },
        }
    }

    /// The big-endian word at `address`.
    pub fn read_word(&self, address: u16) -> (r: Result<u16, MemoryFault>)
        requires
            self.wf(),
        ensures
            r == (if access_ok(address as int, 2) {
                Ok(word_at(self@, address as int))
            } else {
                Err(MemoryFault { address, num_bytes: 2 })
            }),
    {
        match check_legal_mem_access(address, 2) {
            Err(f) => Err(f),
            Ok(()) => {
                let hi = self.bytes[address as usize] as u16;
                let lo = self.bytes[address as usize + 1] as u16;
                Ok(hi * 256 + lo)
            },
        }
    }

    /// Stores `word` at `address`, most significant byte first.
    pub fn write_word(&mut self, address: u16, word: u16) -> (r: Result<(), MemoryFault>)
        requires
            old(self).wf(),
        ensures
            final(self).wf(),
            r == access_result(address, 2),
            final(self)@ == (if r is Ok {
                write_spec(old(self)@, address as int, word_bytes(word))
            } else {
                old(self)@
            }),
    {
        match check_legal_mem_access(address, 2) {
            Err(f) => Err(f),
            Ok(()) => {
                self.bytes.set(address as usize, (word / 256) as u8);
                self.bytes.set(address as usize + 1, (word % 256) as u8);
                assert(self@ =~= write_spec(old(self)@, address as int, word_bytes(word)));
                Ok(())
            },
        }
    }

    /// The `num_bytes` bytes from `address` on.
    pub fn read_data(&self, address: u16, num_bytes: u16) -> (r: Result<Vec<u8>, MemoryFault>)
        requires
            self.wf(),
        ensures
            match r {
                Ok(v) => access_ok(address as int, num_bytes as int) && v@ == read_spec(
                    self@,
                    address as int,
                    num_bytes as int,
                ),
                Err(f) => !access_ok(address as int, num_bytes as int) && f == MemoryFault {
                    address,
                    num_bytes: num_bytes as usize,
                },
            },
    {
        match check_legal_mem_access(address, num_bytes as usize) {
            Err(f) => Err(f),
            Ok(()) => {
                let start = address as usize;
                let mut out: Vec<u8> = Vec::new();
                let mut k: usize = 0;
                while k < num_bytes as usize
                    invariant
                        self.wf(),
                        access_ok(address as int, num_bytes as int),
                        start == address,
                        k <= num_bytes,
                        out@ == read_spec(self@, start as int, k as int),
                    decreases num_bytes - k,
                {
                    out.push(self.bytes[start + k]);
                    proof {
                        assert(out@ =~= read_spec(self@, start as int, k + 1));
                    }
                    k += 1;
                }
                Ok(out)
            },
        }
    }

    /// Writes `data` from `address` on.
    pub fn write_data(&mut self, address: u16, data: &[u8]) -> (r: Result<(), MemoryFault>)
        requires
            old(self).wf(),
        ensures
            final(self).wf(),
            r == access_result(address, data@.len() as usize),
            final(self)@ == (if r is Ok {
                write_spec(old(self)@, address as int, data@)
            } else {
                old(self)@
            }),
    {
        match check_legal_mem_access(address, data.len()) {
            Err(f) => Err(f),
            Ok(()) => {
                let start = address as usize;
                let mut k: usize = 0;
                while k < data.len()
                    invariant
                        self.wf(),
                        access_ok(address as int, data@.len() as int),
                        start == address,
                        k <= data@.len(),
                        self@ == write_spec(old(self)@, start as int, data@.take(k as int)),
                    decreases data@.len() - k,
                {
                    self.bytes.set(start + k, data[k]);
                    proof {
                        assert(self@ =~= write_spec(old(self)@, start as int, data@.take(k + 1)));
                    }
                    k += 1;
                }
                assert(data@.take(data@.len() as int) =~= data@);
                Ok(())
            },
        }
    }

    /// Copies the `num_bytes` bytes from `address` on into the front of `dest`.
    pub fn copy_into(&self, dest: &mut [u8], address: u16, num_bytes: u16) -> (r: Result<
        (),
        MemoryFault,
    >)
        requires
            self.wf(),
            num_bytes <= old(dest)@.len(),
        ensures
            r == access_result(address, num_bytes as usize),
            final(dest)@ == (if r is Ok {
                write_spec(old(dest)@, 0, read_spec(self@, address as int, num_bytes as int))
            } else {
                old(dest)@
            }),
    {
        match check_legal_mem_access(address, num_bytes as usize) {
            Err(f) => Err(f),
            Ok(()) => {
                let start = address as usize;
                let ghost src = read_spec(self@, address as int, num_bytes as int);
                let mut k: usize = 0;
                while k < num_bytes as usize
                    invariant
                        self.wf(),
                        access_ok(address as int, num_bytes as int),
                        start == address,
                        k <= num_bytes,
                        num_bytes <= old(dest)@.len(),
                        src == read_spec(self@, address as int, num_bytes as int),
                        dest@ == write_spec(old(dest)@, 0, src.take(k as int)),
                    decreases num_bytes - k,
                {
                    dest[k] = self.bytes[start + k];
                    proof {
                        assert(dest@ =~= write_spec(old(dest)@, 0, src.take(k + 1)));
                    }
                    k += 1;
                }
                assert(src.take(num_bytes as int) =~= src);
                Ok(())
            },
        }
    }
}

} // verus!
