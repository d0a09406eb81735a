use vstd::prelude::*;

verus! {

/// The width of a Game Boy address and of the CPU's register pairs.
pub type Width = u16;

/// A 16-bit location in the Game Boy address space.
#[derive(Debug, Clone, Copy, PartialEq, Eq, Structural, Hash, PartialOrd, Ord)]
pub struct Address(pub Width);

impl Address {
    /// `address + offset` widened to `usize`.
    pub fn add(self, offset: usize) -> (r: usize)
        requires
            self.0 + offset <= usize::MAX,
        ensures
            r == self.0 + offset,
    {
        self.0 as usize + offset
    }

    /// `address - offset` widened to `usize`.
    pub fn sub(self, offset: usize) -> (r: usize)
        requires
            offset <= self.0,
        ensures
            r == self.0 - offset,
    {
        self.0 as usize - offset
    }

    pub fn index(self) -> (r: usize)
        ensures
            r == self.0,
    {
        self.0 as usize
    }

    pub fn value(self) -> (r: u16)
        ensures
            r == self.0,
    {
        self.0
    }

    /// The address whose value is the low 16 bits of `value`.
    pub fn from_index(value: usize) -> (r: Self)
        ensures
            r.0 == value % 0x10000,
    {
        let low: usize = value % 0x10000;
        Self(low as Width)
    }

    pub fn new(value: Width) -> (r: Self)
        ensures
            r.0 == value,
    {
        Self(value)
    }

    /// The address `rhs` bytes further on, wrapping at the end of the address space.
    pub fn wrapping_add(self, rhs: Width) -> (r: Self)
        ensures
            r.0 == (self.0 + rhs) % 0x10000,
    {
        Self(self.0.wrapping_add(rhs))
    }

    /// The address `rhs` bytes back, wrapping at the start of the address space.
    pub fn wrapping_sub(self, rhs: Width) -> (r: Self)
        ensures
            r.0 == (self.0 - rhs + 0x10000) % 0x10000,
    {
        Self(self.0.wrapping_sub(rhs))
    }

}

/// The eight buttons of the Game Boy.
#[derive(Debug, Clone, Copy, PartialEq, Eq, Structural)]
pub enum Controls {
    Right,
    Left,
    Up,
    Down,
    A,
    B,
    Start,
    Select,
}

impl Controls {
    /// The bit position of the button in the joypad state.
    pub open spec fn bit_spec(self) -> u8 {
        match self {
            Controls::Right => 0,
            Controls::Left => 1,
            Controls::Up => 2,
            Controls::Down => 3,
            Controls::A => 4,
            Controls::B => 5,
            Controls::Start => 6,
            Controls::Select => 7,
        }
    }

    pub fn bit(self) -> (r: u8)
        ensures
            r == self.bit_spec(),
            r < 8,
    {
        match self {
            Controls::Right => 0,
            Controls::Left => 1,
            Controls::Up => 2,
            Controls::Down => 3,
            Controls::A => 4,
            Controls::B => 5,
            Controls::Start => 6,
            Controls::Select => 7,
        }
    }
}

/// A fixed-size block of memory holding `SIZE` cells.
#[derive(Clone)]
pub struct Memory<const SIZE: usize, T> {
    data: Vec<T>,
}

impl<const SIZE: usize, T> View for Memory<SIZE, T> {
    type V = Seq<T>;

    closed spec fn view(&self) -> Seq<T> {
        self.data@
    }
}

impl<const SIZE: usize, T: Copy> Memory<SIZE, T> {
    /// A block of memory is well formed when it holds exactly `SIZE` cells.
    pub open spec fn wf(&self) -> bool {
        self@.len() == SIZE
    }

    /// A block of `SIZE` cells that all hold `value`.
    pub fn new_filled(value: T) -> (r: Self)
        ensures
            r.wf(),
            forall|i: int| 0 <= i < SIZE ==> r@[i] == value,
    {
        let mut data: Vec<T> = Vec::new();
        let mut i: usize = 0;
        while i < SIZE
            invariant
                i <= SIZE,
                data@.len() == i,
                forall|j: int| 0 <= j < i ==> data@[j] == value,
            decreases SIZE - i,
        {
            data.push(value);
            i = i + 1;
        }
        Self { data }
    }

    pub fn as_slice(&self) -> (r: &[T])
        ensures
            r@ == self@,
    {
        self.data.as_slice()
    }

    pub fn read(&self, index: usize) -> (r: T)
        requires
            self.wf(),
            index < SIZE,
        ensures
            r == self@[index as int],
    {
        self.data[index]
    }

    pub fn write(&mut self, index: usize, value: T)
        requires
            old(self).wf(),
            index < SIZE,
        ensures
            final(self)@ == old(self)@.update(index as int, value),
            final(self).wf(),
    {
        self.data.set(index, value);
    }
}

impl<const SIZE: usize> Memory<SIZE, u8> {
    /// A zero-filled block of memory.
    pub fn new() -> (r: Self)
        ensures
            r.wf(),
            forall|i: int| 0 <= i < SIZE ==> r@[i] == 0,
    {
        Self::new_filled(0)
    }
}

} // verus!
