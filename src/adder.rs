use vstd::prelude::*;

verus! {

/// An axis-aligned rectangle given by its two side lengths.
#[derive(Debug)]
pub struct Rectangle {
    pub length: u32,
    pub width: u32,
}

impl Rectangle {
    /// Whether `other` fits strictly inside `self`, sides kept parallel.
    pub fn can_hold(&self, other: &Rectangle) -> (r: bool)
        ensures
            r == (self.length > other.length && self.width > other.width),
    {
        self.length > other.length && self.width > other.width
    }
}

/// Adds two to `a`.
pub fn add_two(a: i32) -> (r: i32)
    requires
        a <= i32::MAX - 2,
    ensures
        r == a + 2,
{
    a + 2
}

/// The greeting for `name`: `Hello `, the name, then `!`.
pub fn greeting(name: &str) -> (r: String)
    ensures
        r@ == "Hello "@ + name@ + "!"@,
{
    let mut r = String::from_str("Hello ");
    r.append(name);
    r.append("!");
    r
}

/// A guess in the range 1 to 100.
pub struct Guess {
    value: i32,
}

impl View for Guess {
    type V = int;

    closed spec fn view(&self) -> int {
        self.value as int
    }
}

impl Guess {
    /// A guess holds a value from 1 to 100.
    pub open spec fn wf(&self) -> bool {
        1 <= self@ <= 100
    }

    /// A guess of `value`, which must lie from 1 to 100.
    pub fn new(value: i32) -> (r: Guess)
        requires
            1 <= value <= 100,
        ensures
            r@ == value as int,
            r.wf(),
    {
        Guess { value }
    }

    /// The guessed value.
    pub fn value(&self) -> (r: i32)
        ensures
            r as int == self@,
    {
        self.value
    }
}

} // verus!
