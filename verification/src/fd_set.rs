//! The descriptor set: a bitmap of fixed size over the descriptor numbers
//! `0 .. FD_SETSIZE`, one bit for each number.
//!
//! The model of a set is the mathematical set of its members, `Set<int>`.
//! Descriptor `fd` is kept in bit `fd % 64` of word `fd / 64`, which is the
//! layout the operating system reads and writes on a 64-bit machine.

use vstd::prelude::*;
use vstd::set_lib::*;

verus! {

/// The number of descriptors a set has room for. Only the descriptor
/// numbers `0 .. FD_SETSIZE` can be members.
pub const FD_SETSIZE: usize = 1024;

/// The number of bits in one word of the bitmap.
pub const WORD_BITS: usize = 64;

/// The number of words in the bitmap, `FD_SETSIZE / WORD_BITS`.
pub const WORDS: usize = 16;

/// Whether `fd` is a descriptor number that a set can hold.
pub open spec fn in_range(fd: int) -> bool {
    0 <= fd < FD_SETSIZE
}

/// Whether bit `i` of `word` is one.
pub open spec fn has_bit(word: u64, i: u64) -> bool {
    (word >> i) & 1 == 1
}

/// The descriptor numbers whose bits are one in a bitmap of `words`:
/// descriptor `fd` is bit `fd % 64` of word `fd / 64`.
pub open spec fn members(words: [u64; 16]) -> Set<int> {
    Set::new(|fd: int| in_range(fd) && has_bit(words[fd / 64], (fd % 64) as u64))
}

/// A set of descriptor numbers below `FD_SETSIZE`.
pub struct FdSet {
    words: [u64; 16],
}

impl FdSet {
    /// The words of the bitmap.
    pub closed spec fn words(&self) -> [u64; 16] {
        self.words
    }
}

impl View for FdSet {
    type V = Set<int>;

    /// The members of the set.
    open spec fn view(&self) -> Set<int> {
        members(self.words())
    }
}

proof fn lemma_zero_has_no_bit(i: u64)
    by (bit_vector)
    requires
        i < 64,
    ensures
        !has_bit(0, i),
{
}

proof fn lemma_bit_after_or(word: u64, b: u64, i: u64)
    by (bit_vector)
    requires
        b < 64,
        i < 64,
    ensures
        has_bit(word | (1u64 << b), i) == (i == b || has_bit(word, i)),
{
}

proof fn lemma_bit_after_and_not(word: u64, b: u64, i: u64)
    by (bit_vector)
    requires
        b < 64,
        i < 64,
    ensures
        has_bit(word & !(1u64 << b), i) == (i != b && has_bit(word, i)),
{
}

proof fn lemma_bit_by_mask(word: u64, b: u64)
    by (bit_vector)
    requires
        b < 64,
    ensures
        (word & (1u64 << b) != 0) == has_bit(word, b),
{
}

proof fn lemma_and_not_of_clear_bit(word: u64, b: u64)
    by (bit_vector)
    requires
        b < 64,
        !has_bit(word, b),
    ensures
        word & !(1u64 << b) == word,
{
}

proof fn lemma_or_of_set_bit(word: u64, b: u64)
    by (bit_vector)
    requires
        b < 64,
        has_bit(word, b),
    ensures
        word | (1u64 << b) == word,
{
}

impl FdSet {
    /// A set with no members.
    pub fn new() -> (s: FdSet)
        ensures
            s@ == Set::<int>::empty(),
    {
        let s = FdSet { words: [0u64; 16] };
        proof {
            assert forall|fd: int| !s@.contains(fd) by {
                if in_range(fd) {
                    lemma_zero_has_no_bit((fd % 64) as u64);
                }
            }
            assert(s@ =~= Set::<int>::empty());
        }
        s
    }

    /// Makes `fd` a member. A descriptor that is a member already stays one,
    /// and the bitmap is then left as it was.
    pub fn set(&mut self, fd: i32)
        requires
            in_range(fd as int),
        ensures
            final(self)@ == old(self)@.insert(fd as int),
            old(self)@.contains(fd as int) ==> *final(self) == *old(self),
    {
        let idx: usize = (fd as usize) / WORD_BITS;
        let b: usize = (fd as usize) % WORD_BITS;
        let word: u64 = self.words[idx];
        let next: u64 = word | (1u64 << b);
        self.words[idx] = next;
        proof {
            assert forall|i: u64| i < 64 implies has_bit(next, i) == (i == b || has_bit(word, i)) by {
                lemma_bit_after_or(word, b as u64, i);
            }
            assert(self@ =~= old(self)@.insert(fd as int));
            if old(self)@.contains(fd as int) {
                lemma_or_of_set_bit(word, b as u64);
                assert(self.words =~= old(self).words);
            }
        }
    }

    /// Takes `fd` out of the set. A descriptor that is no member stays none,
    /// and the bitmap is then left as it was.
    pub fn clear(&mut self, fd: i32)
        requires
            in_range(fd as int),
        ensures
            final(self)@ == old(self)@.remove(fd as int),
            !old(self)@.contains(fd as int) ==> *final(self) == *old(self),
    {
        let idx: usize = (fd as usize) / WORD_BITS;
        let b: usize = (fd as usize) % WORD_BITS;
        let word: u64 = self.words[idx];
        let next: u64 = word & !(1u64 << b);
        self.words[idx] = next;
        proof {
            assert forall|i: u64| i < 64 implies has_bit(next, i) == (i != b && has_bit(word, i)) by {
                lemma_bit_after_and_not(word, b as u64, i);
            }
            assert(self@ =~= old(self)@.remove(fd as int));
            if !old(self)@.contains(fd as int) {
                lemma_and_not_of_clear_bit(word, b as u64);
                assert(self.words =~= old(self).words);
            }
        }
    }

    /// The bitmap itself, to be read and rewritten in place. Whatever is
    /// written to it is the set from then on.
    pub fn words_mut(&mut self) -> (words: &mut [u64; 16])
        ensures
            *words == old(self).words(),
            final(self).words() == *final(words),
    {
        &mut self.words
    }

    /// Whether `fd` is a member. The set is left as it was.
    pub fn is_set(&mut self, fd: i32) -> (member: bool)
        requires
            in_range(fd as int),
        ensures
            member == old(self)@.contains(fd as int),
            *final(self) == *old(self),
    {
        let idx: usize = (fd as usize) / WORD_BITS;
        let b: usize = (fd as usize) % WORD_BITS;
        let word: u64 = self.words[idx];
        proof {
            lemma_bit_by_mask(word, b as u64);
        }
        word & (1u64 << b) != 0
    }
}

proof fn lemma_top_bit(x: u64, y: u64)
    by (bit_vector)
    requires
        has_bit(x, 63) == has_bit(y, 63),
    ensures
        x >> 63 == y >> 63,
{
}

proof fn lemma_one_more_bit(x: u64, y: u64, n: u64)
    by (bit_vector)
    requires
        n < 63,
        x >> ((n + 1) as u64) == y >> ((n + 1) as u64),
        has_bit(x, n) == has_bit(y, n),
    ensures
        x >> n == y >> n,
{
}

proof fn lemma_shift_by_zero(x: u64)
    by (bit_vector)
    ensures
        x >> 0 == x,
{
}

/// Two words agree from bit `n` upwards when each of those bits agrees.
proof fn lemma_same_bits_from(x: u64, y: u64, n: u64)
    requires
        n < 64,
        forall|i: u64| i < 64 ==> has_bit(x, i) == has_bit(y, i),
    ensures
        x >> n == y >> n,
    decreases 64 - n,
{
    if n == 63 {
        lemma_top_bit(x, y);
    } else {
        lemma_same_bits_from(x, y, (n + 1) as u64);
        lemma_one_more_bit(x, y, n);
    }
}

proof fn lemma_words_with_same_bits(x: u64, y: u64)
    requires
        forall|i: u64| i < 64 ==> has_bit(x, i) == has_bit(y, i),
    ensures
        x == y,
{
    lemma_same_bits_from(x, y, 0);
    lemma_shift_by_zero(x);
    lemma_shift_by_zero(y);
}

impl FdSet {
    /// Every member is a descriptor number below `FD_SETSIZE`, so a set is
    /// finite and has at most `FD_SETSIZE` members.
    pub proof fn lemma_members_in_range(self)
        ensures
            forall|fd: int| self@.contains(fd) ==> in_range(fd),
            self@.finite(),
            self@.len() <= FD_SETSIZE,
    {
        let all = set_int_range(0, FD_SETSIZE as int);
        lemma_int_range(0, FD_SETSIZE as int);
        assert(self@.subset_of(all));
        lemma_len_subset(self@, all);
    }

    /// Two sets with the same members are the same value: the bitmap holds
    /// nothing but the membership.
    pub proof fn lemma_same_members_same_set(self, other: FdSet)
        requires
            self@ == other@,
        ensures
            self == other,
    {
        assert forall|k: int| 0 <= k < WORDS implies self.words[k] == other.words[k] by {
            assert forall|i: u64| i < 64 implies has_bit(self.words[k], i) == has_bit(
                other.words[k],
                i,
            ) by {
                let fd: int = k * 64 + i;
                assert(in_range(fd));
                assert(fd / 64 == k);
                assert(fd % 64 == i);
                assert(self@.contains(fd) == has_bit(self.words[k], i));
                assert(other@.contains(fd) == has_bit(other.words[k], i));
            }
            lemma_words_with_same_bits(self.words[k], other.words[k]);
        }
        assert(self.words =~= other.words);
    }

    /// A descriptor that has been added is a member, and once it has been
    /// removed again it is none.
    pub proof fn lemma_set_then_clear(self, fd: int)
        requires
            in_range(fd),
        ensures
            self@.insert(fd).contains(fd),
            !self@.insert(fd).remove(fd).contains(fd),
    {
    }

    /// Removing a descriptor that is no member changes nothing: the members
    /// are the same as before, and the descriptor is still none of them.
    pub proof fn lemma_clear_of_non_member(self, fd: int)
        requires
            in_range(fd),
            !self@.contains(fd),
        ensures
            self@.remove(fd) == self@,
            !self@.remove(fd).contains(fd),
    {
        assert(self@.remove(fd) =~= self@);
    }
}

} // verus!
