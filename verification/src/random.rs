use vstd::prelude::*;

verus! {

/// `random` of rand, for `usize`: a number drawn by the generator of the thread. Every
/// call may give another number, so nothing is promised of it.
#[verifier::external_body]
pub(crate) fn random_usize() -> (number: usize) {
    rand::random::<usize>()
}

/// Random numbers that stay as they are once drawn: the number at an index is drawn
/// when it is first asked for, and is the same whenever it is asked for again.
pub struct RandomGenerator {
    numbers: Vec<usize>,
    index: usize,
}

/// The numbers drawn so far, and the index that the generator stands at.
pub struct RandomGeneratorView {
    pub numbers: Seq<usize>,
    pub index: usize,
}

impl View for RandomGenerator {
    type V = RandomGeneratorView;

    closed spec fn view(&self) -> RandomGeneratorView {
        RandomGeneratorView { numbers: self.numbers@, index: self.index }
    }
}

impl RandomGeneratorView {
    /// The numbers of `self` are still there in `later`, and `later` has at least
    /// `count` numbers, and no more than that where it had to draw any.
    pub open spec fn grown_to(self, later: RandomGeneratorView, count: int) -> bool {
        &&& later.index == self.index
        &&& later.numbers.len() == if self.numbers.len() >= count {
            self.numbers.len() as int
        } else {
            count
        }
        &&& forall|i: int| 0 <= i < self.numbers.len() ==> later.numbers[i] == self.numbers[i]
    }
}

impl RandomGenerator {
    /// A generator that has drawn nothing and stands at index 0.
    pub fn new() -> (generator: RandomGenerator)
        ensures
            generator@ == (RandomGeneratorView { numbers: Seq::empty(), index: 0 }),
    {
        RandomGenerator { numbers: Vec::new(), index: 0 }
    }

    /// Draws numbers until there are at least `n` of them.
    fn define(&mut self, n: usize)
        ensures
            old(self)@.grown_to(final(self)@, n as int),
    {
        while self.numbers.len() < n
            invariant
                self.index == old(self).index,
                old(self).numbers@.len() <= self.numbers@.len(),
                self.numbers@.len() <= n || self.numbers@.len() == old(self).numbers@.len(),
                forall|i: int|
                    0 <= i < old(self).numbers@.len() ==> self.numbers@[i] == old(self).numbers@[i],
            decreases n - self.numbers@.len(),
        {
            self.numbers.push(random_usize());
        }
    }

    /// Moves on to the next index and gives the number there.
    pub fn next(&mut self) -> (number: usize)
        requires
            old(self)@.index + 1 < usize::MAX,
        ensures
            (RandomGeneratorView { index: (old(self)@.index + 1) as usize, ..old(self)@ }).grown_to(
                final(self)@,
                old(self)@.index + 2,
            ),
            number == final(self)@.numbers[final(self)@.index as int],
    {
        self.index += 1;
        self.get()
    }

    /// The number at the index that the generator stands at.
    pub fn get(&mut self) -> (number: usize)
        requires
            old(self)@.index < usize::MAX,
        ensures
            old(self)@.grown_to(final(self)@, old(self)@.index + 1),
            number == final(self)@.numbers[final(self)@.index as int],
    {
        self.get_index(self.index)
    }

    /// The number at `index`.
    pub fn get_index(&mut self, index: usize) -> (number: usize)
        requires
            index < usize::MAX,
        ensures
            old(self)@.grown_to(final(self)@, index + 1),
            number == final(self)@.numbers[index as int],
    {
        self.define(index + 1);
        self.numbers[index]
    }

    /// The number `offset` places behind the index that the generator stands at; none
    /// where no such place can be counted to.
    pub fn get_offset(&mut self, offset: u64) -> (number: Option<usize>)
        ensures
            match number {
                Some(number) => {
                    &&& old(self)@.index + offset < usize::MAX
                    &&& old(self)@.grown_to(final(self)@, old(self)@.index + offset + 1)
                    &&& number == final(self)@.numbers[old(self)@.index + offset]
                },
                None => old(self)@.index + offset >= usize::MAX && final(self)@ == old(self)@,
            },
    {
        if offset >= usize::MAX as u64 || self.index >= usize::MAX - offset as usize {
            return None;
        }
        Some(self.get_index(self.index + offset as usize))
    }

    /// The number `offset` places behind the index that the generator stands at.
    pub fn get_offset_unchecked(&mut self, offset: usize) -> (number: usize)
        requires
            old(self)@.index + offset < usize::MAX,
        ensures
            old(self)@.grown_to(final(self)@, old(self)@.index + offset + 1),
            number == final(self)@.numbers[old(self)@.index + offset],
    {
        let index = self.index + offset;
        self.get_index(index)
    }
}

} // verus!
