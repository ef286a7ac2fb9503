//! The 65,536-word memory, with the keyboard status and data registers
//! mapped into it, and the loading of program images.

use vstd::prelude::*;

verus! {

/// Number of words of memory: one for each 16-bit address.
pub const MEMORY_SIZE: usize = 0x10000;
/// Keyboard status register: its top bit is set when a key was waiting.
pub const MR_KBSR: u16 = 0xFE00;
/// Keyboard data register: the code of the last key read.
pub const MR_KBDR: u16 = 0xFE02;

/// What reading `address` does to memory, where `key` is what polling the
/// keyboard gives: the code of a waiting key, or `None`. Only a read of the
/// status register polls; it then records the outcome in both registers.
pub open spec fn after_read(mem: Seq<u16>, address: u16, key: Option<u16>) -> Seq<u16> {
    if address == MR_KBSR {
        match key {
            Some(c) => mem.update(MR_KBSR as int, 0x8000).update(MR_KBDR as int, c),
            None => mem.update(MR_KBSR as int, 0),
        }
    } else {
        mem
    }
}

/// The big-endian word made of `bytes[i]` and `bytes[i + 1]`.
pub open spec fn word_at(bytes: Seq<u8>, i: int) -> u16 {
    (bytes[i] as int * 256 + bytes[i + 1] as int) as u16
}

/// The load address that an image starts with.
pub open spec fn image_origin(image: Seq<u8>) -> int {
    word_at(image, 0) as int
}

/// The number of whole words that follow an image's origin.
pub open spec fn image_words(image: Seq<u8>) -> int {
    (image.len() - 2) / 2
}

/// The address that word `i` of an image with origin `origin` goes to:
/// addresses wrap at 16 bits.
pub open spec fn image_address(origin: int, i: int) -> int {
    (origin + i) % (MEMORY_SIZE as int)
}

/// `mem` after the first `n` words of `image` were stored one after the
/// other, from its origin on; a later word overwrites an earlier one at the
/// same address.
pub open spec fn stored(mem: Seq<u16>, image: Seq<u8>, n: nat) -> Seq<u16>
    decreases n,
{
    if n == 0 {
        mem
    } else {
        stored(mem, image, (n - 1) as nat).update(
            image_address(image_origin(image), n - 1),
            word_at(image, 2 + 2 * (n - 1)),
        )
    }
}

/// Storing the words of an image keeps the length of memory, and when the
/// image holds at most one word per address, each address holds the word
/// that was meant for it, or what it held before if there was none.
pub proof fn lemma_stored(mem: Seq<u16>, image: Seq<u8>, n: nat)
    requires
        mem.len() == MEMORY_SIZE,
        0 <= image_origin(image) < MEMORY_SIZE,
    ensures
        stored(mem, image, n).len() == MEMORY_SIZE,
        n <= MEMORY_SIZE ==> forall|a: int|
            0 <= a < MEMORY_SIZE ==> #[trigger] stored(mem, image, n)[a] == if (a - image_origin(image))
                % (MEMORY_SIZE as int) < n {
                word_at(image, 2 + 2 * ((a - image_origin(image)) % (MEMORY_SIZE as int)))
            } else {
                mem[a]
            },
    decreases n,
{
    if n > 0 {
        lemma_stored(mem, image, (n - 1) as nat);
        let o = image_origin(image);
        let m = MEMORY_SIZE as int;
        if n <= MEMORY_SIZE {
            assert forall|a: int| 0 <= a < MEMORY_SIZE implies #[trigger] stored(mem, image, n)[a]
                == if (a - o) % m < n {
                word_at(image, 2 + 2 * ((a - o) % m))
            } else {
                mem[a]
            } by {
                assert(0 <= (a - o) % m < m);
                if a >= o {
                    assert((a - o) % m == a - o);
                } else {
                    assert((a - o) % m == a - o + m);
                }
                if o + n - 1 < m {
                    assert(image_address(o, n - 1) == o + n - 1);
                } else {
                    assert(image_address(o, n - 1) == o + n - 1 - m);
                }
            }
        }
    }
}

/// Why an image could not be loaded.
#[derive(Debug, Copy, Clone, PartialEq, Eq, Structural)]
pub enum ImageError {
    /// The image is shorter than its two-byte origin.
    MissingOrigin,
}

/// The words `high` and `low` make in big-endian order.
fn swap16(high: u8, low: u8) -> (r: u16)
    ensures
        r as int == high as int * 256 + low as int,
{
    let r = ((high as u16) << 8) | (low as u16);
    proof {
        assert((((high as u16) << 8u16) | (low as u16)) as int == high as int * 256 + low as int)
            by (bit_vector);
    }
    r
}

/// The memory: one 16-bit word for every 16-bit address.
pub struct Memory(Vec<u16>);

impl View for Memory {
    type V = Seq<u16>;

    closed spec fn view(&self) -> Seq<u16> {
        self.0@
    }
}

impl Memory {
    /// One word for every address.
    pub open spec fn wf(&self) -> bool {
        self@.len() == MEMORY_SIZE
    }

    /// Memory with every word zero.
    pub fn new() -> (r: Memory)
        ensures
            r.wf(),
            forall|a: int| 0 <= a < MEMORY_SIZE ==> r@[a] == 0,
    {
        Memory(vec![0u16; MEMORY_SIZE])
    }

    /// Reads the word at `address`. `key` is what polling the keyboard
    /// gives at this moment; it matters only for the status register.
    pub fn read(&mut self, address: u16, key: Option<u16>) -> (r: u16)
        requires
            old(self).wf(),
        ensures
            final(self)@ == after_read(old(self)@, address, key),
            r == final(self)@[address as int],
            final(self).wf(),
    {
        if address == MR_KBSR {
            match key {
                Some(c) => {
                    self.0.set(MR_KBSR as usize, 0x8000);
                    self.0.set(MR_KBDR as usize, c);
                },
                None => {
                    self.0.set(MR_KBSR as usize, 0);
                },
            }
        }
        self.0[address as usize]
    }

    /// The word at `address`, without the keyboard poll that `read` does.
    pub fn get(&self, address: u16) -> (r: u16)
        requires
            self.wf(),
        ensures
            r == self@[address as int],
    {
        self.0[address as usize]
    }

    /// Stores `value` at `address`.
    pub fn write(&mut self, address: u16, value: u16)
        requires
            old(self).wf(),
        ensures
            final(self)@ == old(self)@.update(address as int, value),
            final(self).wf(),
    {
        self.0.set(address as usize, value);
    }

    /// Loads an image: a big-endian origin address, then big-endian words
    /// that are stored from that address on, wrapping past the last address.
    /// A trailing odd byte is ignored. Only an image without a whole origin
    /// is refused, and then nothing changes.
    pub fn load_file(&mut self, image: &[u8]) -> (r: Result<(), ImageError>)
        requires
            old(self).wf(),
        ensures
            final(self).wf(),
            image@.len() < 2 <==> r == Err::<(), ImageError>(ImageError::MissingOrigin),
            image@.len() >= 2 <==> r is Ok,
            r is Err ==> final(self)@ == old(self)@,
            r is Ok ==> final(self)@ == stored(old(self)@, image@, image_words(image@) as nat),
            r is Ok && image_words(image@) <= MEMORY_SIZE ==> forall|a: int|
                0 <= a < MEMORY_SIZE ==> #[trigger] final(self)@[a] == if (a - image_origin(image@))
                    % (MEMORY_SIZE as int) < image_words(image@) {
                    word_at(
                        image@,
                        2 + 2 * ((a - image_origin(image@)) % (MEMORY_SIZE as int)),
                    )
                } else {
                    old(self)@[a]
                },
    {
        if image.len() < 2 {
            return Err(ImageError::MissingOrigin);
        }
        let origin = swap16(image[0], image[1]) as usize;
        let words = (image.len() - 2) / 2;
        let ghost before = self@;
        let mut address: usize = origin;
        let mut i: usize = 0;
        while i < words
            invariant
                self.wf(),
                i <= words,
                image@.len() >= 2,
                words == image_words(image@),
                origin == image_origin(image@),
                origin < MEMORY_SIZE,
                address == image_address(origin as int, i as int),
                self@ == stored(before, image@, i as nat),
            decreases words - i,
        {
            assert(2 * (i + 1) <= image.len() - 2);
            let w = swap16(image[2 + 2 * i], image[3 + 2 * i]);
            self.0.set(address, w);
            address = if address + 1 == MEMORY_SIZE {
                0
            } else {
                address + 1
            };
            i = i + 1;
        }
        proof {
            lemma_stored(before, image@, words as nat);
        }
        Ok(())
    }
}

} // verus!
