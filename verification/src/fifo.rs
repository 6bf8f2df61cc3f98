//! The sample FIFO between USB reception and I2S output.

use vstd::prelude::*;

verus! {

/// A ring of `N` words, one I2S slot each. What it holds is a sequence: words
/// are added at the end and leave from the front, and where room is short the
/// oldest give way.
pub struct AudioSampleFifo<const N: usize> {
    data: [u32; N],
    /// Position of the oldest word.
    read: usize,
    /// Number of words held.
    len: usize,
}

/// The last `count` elements of `s`, or all of `s` where it has fewer.
pub open spec fn newest(s: Seq<u32>, count: nat) -> Seq<u32> {
    if s.len() <= count {
        s
    } else {
        s.skip(s.len() - count)
    }
}

/// The smaller of two numbers.
pub open spec fn smaller(a: int, b: int) -> int {
    if a < b {
        a
    } else {
        b
    }
}

/// The position `by` places after `position` in a ring of `n`.
spec fn slot(position: int, by: int, n: int) -> int {
    if position + by < n {
        position + by
    } else {
        position + by - n
    }
}

impl<const N: usize> View for AudioSampleFifo<N> {
    type V = Seq<u32>;

    /// The held words, oldest first.
    closed spec fn view(&self) -> Seq<u32> {
        Seq::new(self.len as nat, |i: int| self.data@[slot(self.read as int, i, N as int)])
    }
}

impl<const N: usize> AudioSampleFifo<N> {
    #[verifier::type_invariant]
    spec fn wf(self) -> bool {
        &&& self.read < N
        &&& self.len <= N
    }

    /// An empty FIFO.
    pub fn new() -> (fifo: Self)
        requires
            N > 0,
        ensures
            fifo@ == Seq::<u32>::empty(),
    {
        let fifo = AudioSampleFifo { data: [0; N], read: 0, len: 0 };
        assert(fifo@ =~= Seq::<u32>::empty());
        fifo
    }

    /// Lets go of all words.
    pub fn clear(&mut self)
        ensures
            final(self)@ == Seq::<u32>::empty(),
    {
        proof {
            use_type_invariant(&*self);
        }
        self.read = 0;
        self.len = 0;
        assert(self@ =~= Seq::<u32>::empty());
    }

    /// Adds `words` at the end. Of what there then is, the newest `N` stay.
    pub fn push_slice(&mut self, words: &[u32])
        ensures
            final(self)@ == newest(old(self)@ + words@, N as nat),
    {
        proof {
            use_type_invariant(&*self);
        }
        let count: usize = words.len();
        if count >= N {
            // Nothing older than the last `N` of the new words can stay.
            self.clear();
            self.append(words, count - N);
            assert(self@ =~= newest(old(self)@ + words@, N as nat));
            return;
        }
        let free: usize = N - self.len;
        if count > free {
            self.discard_oldest(count - free);
        }
        self.append(words, 0);
        assert(self@ =~= newest(old(self)@ + words@, N as nat));
    }

    /// Adds the words from `start` on. There must be room for them.
    fn append(&mut self, words: &[u32], start: usize)
        requires
            start <= words.len(),
            old(self)@.len() + words@.len() - start <= N,
        ensures
            final(self)@ == old(self)@ + words@.skip(start as int),
    {
        let mut index: usize = start;
        assert(words@.subrange(start as int, index as int) =~= Seq::<u32>::empty());
        assert(self@ =~= old(self)@ + words@.subrange(start as int, index as int));
        while index < words.len()
            invariant
                start <= index <= words@.len(),
                old(self)@.len() + words@.len() - start <= N,
                self@ == old(self)@ + words@.subrange(start as int, index as int),
            decreases words.len() - index,
        {
            self.write_word(words[index]);
            index += 1;
            assert(self@ =~= old(self)@ + words@.subrange(start as int, index as int));
        }
        assert(words@.subrange(start as int, index as int) =~= words@.skip(start as int));
    }

    /// Moves the oldest words to the front of `out`, as many as there are and
    /// fit, and returns their number. The rest of `out` stays as it was.
    pub fn pop_slice(&mut self, out: &mut [u32]) -> (count: usize)
        ensures
            count == smaller(old(out)@.len() as int, old(self)@.len() as int),
            final(self)@ == old(self)@.skip(count as int),
            final(out)@ == old(self)@.take(count as int) + old(out)@.skip(count as int),
    {
        let count: usize = if out.len() < self.len() {
            out.len()
        } else {
            self.len()
        };
        let mut index: usize = 0;
        assert(self@ =~= old(self)@.skip(0));
        assert(out@ =~= old(self)@.take(0) + old(out)@.skip(0));
        while index < count
            invariant
                index <= count,
                count == smaller(old(out)@.len() as int, old(self)@.len() as int),
                self@ == old(self)@.skip(index as int),
                out@ == old(self)@.take(index as int) + old(out)@.skip(index as int),
            decreases count - index,
        {
            out[index] = self.read_word();
            index += 1;
            assert(self@ =~= old(self)@.skip(index as int));
            assert(out@ =~= old(self)@.take(index as int) + old(out)@.skip(index as int));
        }
        count
    }

    /// Lets go of the `count` oldest words, or of all where there are fewer.
    pub fn discard_oldest(&mut self, count: usize)
        ensures
            final(self)@ == old(self)@.skip(smaller(count as int, old(self)@.len() as int)),
    {
        proof {
            use_type_invariant(&*self);
        }
        let discard: usize = if count < self.len {
            count
        } else {
            self.len
        };
        self.read = Self::advance(self.read, discard);
        self.len = self.len - discard;
        assert(self@ =~= old(self)@.skip(discard as int));
    }

    /// The number of words held.
    pub fn len(&self) -> (len: usize)
        ensures
            len == self@.len(),
            len <= N,
    {
        proof {
            use_type_invariant(self);
        }
        self.len
    }

    /// Adds one word. There must be room for it.
    fn write_word(&mut self, word: u32)
        requires
            old(self)@.len() < N,
        ensures
            final(self)@ == old(self)@.push(word),
    {
        proof {
            use_type_invariant(&*self);
        }
        let write: usize = Self::advance(self.read, self.len);
        self.data[write] = word;
        self.len = self.len + 1;
        assert(self@ =~= old(self)@.push(word));
    }

    /// Takes the oldest word. There must be one.
    fn read_word(&mut self) -> (word: u32)
        requires
            old(self)@.len() > 0,
        ensures
            word == old(self)@[0],
            final(self)@ == old(self)@.skip(1),
    {
        proof {
            use_type_invariant(&*self);
        }
        let word: u32 = self.data[self.read];
        self.read = Self::advance(self.read, 1);
        self.len = self.len - 1;
        assert(self@ =~= old(self)@.skip(1));
        word
    }

    /// The position `by` places after `position`, back to 0 past the last.
    fn advance(position: usize, by: usize) -> (next: usize)
        requires
            position < N,
            by <= N,
        ensures
            next == slot(position as int, by as int, N as int),
            next < N,
    {
        if by < N - position {
            position + by
        } else {
            by - (N - position)
        }
    }
}

/// Words leave in the order in which they came: what is added without filling
/// the ring comes out whole, after what was there.
pub proof fn law_words_leave_in_order(held: Seq<u32>, words: Seq<u32>, n: nat)
    requires
        held.len() + words.len() <= n,
    ensures
        newest(held + words, n).take(held.len() as int) == held,
        newest(held + words, n).skip(held.len() as int) == words,
{
    assert((held + words).take(held.len() as int) =~= held);
    assert((held + words).skip(held.len() as int) =~= words);
}

/// Adding words in two parts is adding them at once.
pub proof fn law_additions_join(held: Seq<u32>, first: Seq<u32>, second: Seq<u32>, n: nat)
    ensures
        newest(newest(held + first, n) + second, n) == newest(held + (first + second), n),
{
    assert(newest(newest(held + first, n) + second, n) =~= newest(held + (first + second), n));
}

/// Taking words out in two parts is taking them out at once.
pub proof fn law_removals_join(held: Seq<u32>, first: nat, second: nat)
    requires
        first + second <= held.len(),
    ensures
        held.take(first as int) + held.skip(first as int).take(second as int) == held.take(
            (first + second) as int,
        ),
        held.skip(first as int).skip(second as int) == held.skip((first + second) as int),
{
    assert(held.take(first as int) + held.skip(first as int).take(second as int) =~= held.take(
        (first + second) as int,
    ));
    assert(held.skip(first as int).skip(second as int) =~= held.skip((first + second) as int));
}

/// A full ring gives up its oldest words: it never holds more than `n`, always
/// ends in the new words, or in the last `n` of them, and a block of `n` or
/// more leaves nothing of what was there.
pub proof fn law_overflow_drops_oldest(held: Seq<u32>, words: Seq<u32>, n: nat)
    requires
        held.len() <= n,
    ensures
        ({
            let after = newest(held + words, n);
            &&& after.len() == smaller((held.len() + words.len()) as int, n as int)
            &&& after.skip(after.len() - newest(words, n).len()) == newest(words, n)
            &&& words.len() >= n ==> after == newest(words, n)
        }),
{
    let after = newest(held + words, n);
    assert(after.skip(after.len() - newest(words, n).len()) =~= newest(words, n));
    if words.len() >= n {
        assert(after =~= newest(words, n));
    }
}

/// Left and right stay paired: with an even ring, adding an even number of
/// words to an even number keeps it even, and every word that stays keeps its
/// side.
pub proof fn law_stereo_pairs_stay_together(held: Seq<u32>, words: Seq<u32>, n: nat, i: int)
    requires
        n % 2 == 0,
        held.len() % 2 == 0,
        words.len() % 2 == 0,
        0 <= i < newest(held + words, n).len(),
    ensures
        ({
            let after = newest(held + words, n);
            let dropped = held.len() + words.len() - after.len();
            &&& after.len() % 2 == 0
            &&& dropped % 2 == 0
            &&& after[i] == (held + words)[i + dropped]
        }),
{
}

/// What stays are the last words, as they are: all where there is room, else as
/// many as the ring holds.
pub proof fn law_newest_are_the_last(s: Seq<u32>, n: nat, i: int)
    ensures
        newest(s, n).len() <= n,
        newest(s, n).len() <= s.len(),
        newest(s, n).len() == n || newest(s, n).len() == s.len(),
        0 <= i < newest(s, n).len() ==> newest(s, n)[i] == s[s.len() - newest(s, n).len() + i],
{
}

/// The smaller of two numbers is one of them, and exceeds neither.
pub proof fn law_smaller_exceeds_neither(a: int, b: int)
    ensures
        smaller(a, b) <= a,
        smaller(a, b) <= b,
        smaller(a, b) == a || smaller(a, b) == b,
{
}

} // verus!
