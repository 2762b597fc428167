//! The 64K-word linear memory and its image format.

use crate::text::{glyph, hex, push_glyph, push_hex};
use crate::Word;
use vstd::prelude::*;
use vstd::slice::slice_subrange;
use vstd::string::StringExecFns;

verus! {

/// Number of words in memory.
pub const MEMORY_WORDS: usize = 65536;

/// Number of bytes in a memory image: two per word.
pub const IMAGE_BYTES: usize = 131072;

/// The words that a little-endian byte image encodes: word `i` has byte `2i`
/// as its low half and byte `2i + 1` as its high half.
pub open spec fn words_of(bytes: Seq<u8>) -> Seq<Word> {
    Seq::new(bytes.len() / 2, |i: int| (bytes[2 * i] + 256 * bytes[2 * i + 1]) as Word)
}

/// The little-endian byte image of a sequence of words: the low half of each
/// word, then its high half.
pub open spec fn bytes_of(words: Seq<Word>) -> Seq<u8> {
    Seq::new(
        2 * words.len(),
        |i: int|
            if i % 2 == 0 {
                (words[i / 2] % 256) as u8
            } else {
                (words[i / 2] / 256) as u8
            },
    )
}

/// Memory contents `mem` with `data` copied in from address `at` upwards.
/// Words of `data` that would land beyond the last address are dropped.
pub open spec fn overlay(mem: Seq<Word>, at: int, data: Seq<Word>) -> Seq<Word> {
    Seq::new(
        mem.len(),
        |a: int|
            if at <= a < at + data.len() {
                data[a - at]
            } else {
                mem[a]
            },
    )
}

/// The part of `mem` that starts at address `at` and holds `length` words, or
/// as many as there are up to the last address.
pub open spec fn window(mem: Seq<Word>, at: int, length: int) -> Seq<Word> {
    mem.subrange(
        at,
        if at + length <= mem.len() {
            at + length
        } else {
            mem.len() as int
        },
    )
}

/// The words of a row of a memory dump: `count` words from `base` upwards,
/// each as a blank and four hexadecimal digits.
pub open spec fn row_words(mem: Seq<Word>, base: int, count: int) -> Seq<char>
    decreases count,
{
    if count <= 0 {
        Seq::empty()
    } else {
        row_words(mem, base, count - 1) + " "@ + hex(mem[base + count - 1])
    }
}

/// The characters of a row of a memory dump: `count` words from `base`
/// upwards, each as the letter or digit whose code it is, or as a dot.
pub open spec fn row_glyphs(mem: Seq<Word>, base: int, count: int) -> Seq<char>
    decreases count,
{
    if count <= 0 {
        Seq::empty()
    } else {
        row_glyphs(mem, base, count - 1) + glyph(mem[base + count - 1])
    }
}

/// A row of a memory dump: the address of its first word, its sixteen
/// words, and the same words as characters.
pub open spec fn row(mem: Seq<Word>, base: int) -> Seq<char> {
    "0x"@ + hex(base as Word) + row_words(mem, base, 16) + " "@ + row_glyphs(mem, base, 16)
        + " \n"@
}

/// The first `count` rows of a memory dump.
pub open spec fn rows(mem: Seq<Word>, count: int) -> Seq<char>
    decreases count,
{
    if count <= 0 {
        Seq::empty()
    } else {
        rows(mem, count - 1) + row(mem, 16 * (count - 1))
    }
}

/// A memory dump: a heading and 4,096 rows of sixteen words.
pub open spec fn dump(mem: Seq<Word>) -> Seq<char> {
    "Memory    0    1    2    3    4    5    6    7    8    9    A    B    C    D    E    F\n"@
        + rows(mem, 4096)
}

/// Saving what was loaded gives back the image, byte for byte.
pub proof fn lemma_load_save(image: Seq<u8>)
    requires
        image.len() % 2 == 0,
    ensures
        bytes_of(words_of(image)) == image,
{
    let words = words_of(image);
    assert forall|i: int| 0 <= i < image.len() implies bytes_of(words)[i] == image[i] by {
        let w = i / 2;
        let lo = image[2 * w];
        let hi = image[2 * w + 1];
        assert(words[w] == lo + 256 * hi);
    }
    assert(bytes_of(words) =~= image);
}

/// Loading what was saved gives back the words.
pub proof fn lemma_save_load(words: Seq<Word>)
    ensures
        words_of(bytes_of(words)) == words,
{
    let image = bytes_of(words);
    assert forall|i: int| 0 <= i < words.len() implies words_of(image)[i] == words[i] by {
        assert(image[2 * i] == words[i] % 256);
        assert(image[2 * i + 1] == words[i] / 256);
    }
    assert(words_of(image) =~= words);
}

/// A cell that was set holds the value it was set to, and no other cell
/// changes.
pub proof fn lemma_set_get(mem: Seq<Word>, address: Word, value: Word)
    requires
        mem.len() == MEMORY_WORDS,
    ensures
        mem.update(address as int, value)[address as int] == value,
        forall|other: Word|
            other != address ==> mem.update(address as int, value)[other as int]
                == mem[other as int],
{
}

/// Memory array: 65,536 words, every address valid at all times.
pub struct Memory {
    buffer: [Word; 65536],
}

impl View for Memory {
    type V = Seq<Word>;

    /// The contents, indexed by address.
    closed spec fn view(&self) -> Seq<Word> {
        self.buffer@
    }
}

impl Memory {
    /// Memory holds a word at every one of its 65,536 addresses.
    pub proof fn lemma_len(&self)
        ensures
            self@.len() == MEMORY_WORDS,
    {
    }

    /// Creates a zero-filled memory.
    pub fn new() -> (memory: Memory)
        ensures
            memory@ == Seq::new(MEMORY_WORDS as nat, |a: int| 0u16),
    {
        Memory { buffer: [0; 65536] }
    }

    /// Loads a memory image: every word is replaced by the one that the
    /// image holds for its address.
    pub fn load(&mut self, image: &[u8; 131072])
        ensures
            final(self)@ == words_of(image@),
    {
        let mut address: usize = 0;
        while address < MEMORY_WORDS
            invariant
                address <= MEMORY_WORDS,
                forall|a: int| 0 <= a < address ==> self.buffer@[a] == words_of(image@)[a],
            decreases MEMORY_WORDS - address,
        {
            let low: u16 = image[2 * address] as u16;
            let high: u16 = image[2 * address + 1] as u16;
            self.buffer[address] = low + 256 * high;
            address += 1;
        }
        assert(self@ =~= words_of(image@));
    }

    /// Saves the memory image: `image` receives the two bytes of every word,
    /// in address order, low half first.
    pub fn save(&self, image: &mut [u8; 131072])
        ensures
            final(image)@ == bytes_of(self@),
    {
        let mut address: usize = 0;
        while address < MEMORY_WORDS
            invariant
                address <= MEMORY_WORDS,
                forall|i: int| 0 <= i < 2 * address ==> image@[i] == bytes_of(self@)[i],
            decreases MEMORY_WORDS - address,
        {
            let word: Word = self.buffer[address];
            image[2 * address] = (word % 256) as u8;
            image[2 * address + 1] = (word / 256) as u8;
            address += 1;
        }
        assert(image@ =~= bytes_of(self@));
    }

    /// Zero-fills the memory.
    pub fn clear(&mut self)
        ensures
            final(self)@ == Seq::new(MEMORY_WORDS as nat, |a: int| 0u16),
    {
        self.buffer = [0; 65536];
    }

    /// Copies `buffer` into memory from `address` upwards. Words that would
    /// land beyond the last address are not written.
    pub fn write(&mut self, address: Word, buffer: &[Word])
        ensures
            final(self)@ == overlay(old(self)@, address as int, buffer@),
    {
        let base: usize = address as usize;
        let room: usize = MEMORY_WORDS - base;
        let count: usize = if buffer.len() < room {
            buffer.len()
        } else {
            room
        };
        let mut i: usize = 0;
        while i < count
            invariant
                i <= count,
                base + count <= MEMORY_WORDS,
                count <= buffer@.len(),
                forall|a: int| 0 <= a < base ==> self.buffer@[a] == old(self).buffer@[a],
                forall|a: int| base <= a < base + i ==> self.buffer@[a] == buffer@[a - base],
                forall|a: int|
                    base + i <= a < MEMORY_WORDS ==> self.buffer@[a] == old(self).buffer@[a],
            decreases count - i,
        {
            self.buffer[base + i] = buffer[i];
            i += 1;
        }
        assert(self@ =~= overlay(old(self)@, address as int, buffer@));
    }

    /// Borrows `length` words of memory from `address` upwards, or as many
    /// as there are up to the last address.
    pub fn read(&self, address: Word, length: Word) -> (words: &[Word])
        ensures
            words@ == window(self@, address as int, length as int),
    {
        let start: usize = address as usize;
        let end: usize = if start + length as usize <= MEMORY_WORDS {
            start + length as usize
        } else {
            MEMORY_WORDS
        };
        slice_subrange(self.buffer.as_slice(), start, end)
    }

    /// Sets the cell at `address` to `value`.
    pub fn set(&mut self, address: Word, value: Word)
        ensures
            final(self)@ == old(self)@.update(address as int, value),
    {
        self.buffer[address as usize] = value;
    }

    /// Gets the cell at `address`.
    pub fn get(&self, address: Word) -> (value: Word)
        ensures
            value == self@[address as int],
    {
        self.buffer[address as usize]
    }

    /// Writes one row of the dump; see [`row`].
    fn row_to_string(&self, base: usize) -> (text: String)
        requires
            base + 16 <= MEMORY_WORDS,
        ensures
            text@ == row(self@, base as int),
    {
        let mut text = String::from_str("0x");
        push_hex(&mut text, base as Word);
        assert(text@ =~= "0x"@ + hex(base as Word) + row_words(self@, base as int, 0));
        let mut i: usize = 0;
        while i < 16
            invariant
                i <= 16,
                base + 16 <= MEMORY_WORDS,
                text@ == "0x"@ + hex(base as Word) + row_words(self@, base as int, i as int),
            decreases 16 - i,
        {
            text.append(" ");
            push_hex(&mut text, self.buffer[base + i]);
            i += 1;
            assert(text@ =~= "0x"@ + hex(base as Word) + row_words(self@, base as int, i as int));
        }
        text.append(" ");
        let ghost prefix = text@;
        assert(text@ =~= prefix + row_glyphs(self@, base as int, 0));
        let mut i: usize = 0;
        while i < 16
            invariant
                i <= 16,
                base + 16 <= MEMORY_WORDS,
                text@ == prefix + row_glyphs(self@, base as int, i as int),
            decreases 16 - i,
        {
            push_glyph(&mut text, self.buffer[base + i]);
            i += 1;
            assert(text@ =~= prefix + row_glyphs(self@, base as int, i as int));
        }
        text.append(" \n");
        text
    }

    /// Writes the memory out as a dump of 4,096 rows under a heading; see
    /// [`dump`].
    pub fn to_string(&self) -> (text: String)
        ensures
            text@ == dump(self@),
    {
        let mut text = String::from_str(
            "Memory    0    1    2    3    4    5    6    7    8    9    A    B    C    D    E    F\n",
        );
        let ghost heading = text@;
        assert(text@ =~= heading + rows(self@, 0));
        let mut r: usize = 0;
        while r < 4096
            invariant
                r <= 4096,
                text@ == heading + rows(self@, r as int),
            decreases 4096 - r,
        {
            let line = self.row_to_string(16 * r);
            text.append(line.as_str());
            r += 1;
            assert(text@ =~= heading + rows(self@, r as int));
        }
        text
    }
}

} // verus!
