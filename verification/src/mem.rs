//! The memory image: 65,536 byte cells addressed by a 16-bit word.

use vstd::prelude::*;

verus! {

/// Number of byte cells in a memory image.
pub const MAX_MEM: usize = 65536;

/// The low byte of a word.
pub open spec fn low_byte(value: u16) -> u8 {
    (value % 256) as u8
}

/// The high byte of a word.
pub open spec fn high_byte(value: u16) -> u8 {
    (value / 256) as u8
}

/// The word made of a low and a high byte (little-endian order in memory).
pub open spec fn word_of(low: u8, high: u8) -> u16 {
    (low + 256 * high) as u16
}

/// The address that follows `address`, wrapping from 0xFFFF to 0x0000.
pub open spec fn next_address(address: u16) -> u16 {
    if address == 0xFFFF {
        0
    } else {
        (address + 1) as u16
    }
}

/// A memory image as a sequence of bytes with every cell zero.
pub open spec fn zeroed() -> Seq<u8> {
    Seq::new(65536, |i: int| 0u8)
}

/// What `image` holds after the word `value` is stored at `address`: the low
/// byte at `address`, the high byte at the address that follows it.
pub open spec fn store_word(image: Seq<u8>, value: u16, address: u16) -> Seq<u8> {
    image.update(address as int, low_byte(value)).update(
        next_address(address) as int,
        high_byte(value),
    )
}

/// The little-endian word that `image` holds at `address`.
pub open spec fn load_word(image: Seq<u8>, address: u16) -> u16 {
    word_of(image[address as int], image[next_address(address) as int])
}

/// A memory image. Every function of the library but `init` expects it to
/// be well formed, that is to hold exactly 65,536 bytes.
#[derive(Debug)]
pub struct Mem {
    pub data: Vec<u8>,
}

impl View for Mem {
    type V = Seq<u8>;

    open spec fn view(&self) -> Seq<u8> {
        self.data@
    }
}

/// Splits a word into its low and high byte.
pub fn split_word(value: u16) -> (bytes: (u8, u8))
    ensures
        bytes.0 == low_byte(value),
        bytes.1 == high_byte(value),
        word_of(bytes.0, bytes.1) == value,
{
    let low: u8 = (value & 0xFF) as u8;
    let high: u8 = (value >> 8) as u8;
    assert(value & 0xFF == value % 256) by (bit_vector);
    assert(value >> 8 == value / 256) by (bit_vector);
    (low, high)
}

/// Joins a low and a high byte into a word.
pub fn join_word(low: u8, high: u8) -> (value: u16)
    ensures
        value == word_of(low, high),
        low_byte(value) == low,
        high_byte(value) == high,
{
    let value: u16 = (low as u16) | ((high as u16) << 8);
    assert((low as u16) | ((high as u16) << 8) == low + 256 * high) by (bit_vector);
    value
}

impl Mem {
    /// A memory image is well formed when it has exactly 65,536 cells.
    pub open spec fn wf(&self) -> bool {
        self.data@.len() == 65536
    }

    /// A well-formed image with every cell zero.
    pub fn new() -> (m: Mem)
        ensures
            m.wf(),
            m@ == zeroed(),
    {
        let m = Mem { data: vec![0u8; MAX_MEM] };
        assert(m@ =~= zeroed());
        m
    }

    /// Makes the image 65,536 cells of zero, whatever it held before.
    pub fn init(&mut self)
        ensures
            final(self).wf(),
            final(self)@ == zeroed(),
    {
        self.data = vec![0u8; MAX_MEM];
        assert(self@ =~= zeroed());
    }

    /// The byte at `address`.
    pub fn get(&self, address: u16) -> (value: u8)
        requires
            self.wf(),
        ensures
            value == self@[address as int],
    {
        self.data[address as usize]
    }

    /// Stores `value` at `address` and leaves every other cell as it was.
    pub fn set(&mut self, address: u16, value: u8)
        requires
            old(self).wf(),
        ensures
            final(self).wf(),
            final(self)@ == old(self)@.update(address as int, value),
    {
        self.data.set(address as usize, value);
    }

    /// Stores the word `value` in little-endian order, the low byte at
    /// `address` and the high byte at the address that follows it (which is
    /// 0x0000 after 0xFFFF), and charges two cycles.
    pub fn wtire_word(&mut self, value: u16, address: u16, cycles: &mut i64)
        requires
            old(self).wf(),
            *old(cycles) >= i64::MIN + 2,
        ensures
            final(self).wf(),
            final(self)@ == store_word(old(self)@, value, address),
            *final(cycles) == *old(cycles) - 2,
    {
        let (low, high) = split_word(value);
        self.data.set(address as usize, low);
        self.data.set(address.wrapping_add(1) as usize, high);
        *cycles = *cycles - 2;
    }
}

/// `memory[address]` reads the byte at `address`.
impl core::ops::Index<u16> for Mem {
    type Output = u8;

    fn index(&self, address: u16) -> (cell: &u8)
        ensures
            *cell == self@[address as int],
    {
        &self.data[address as usize]
    }
}

impl vstd::std_specs::core::IndexSpecImpl<u16> for Mem {
    open spec fn index_req(&self, address: &u16) -> bool {
        self.wf()
    }
}

} // verus!
