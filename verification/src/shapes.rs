//! Structs and methods: users and rectangles.

use vstd::prelude::*;

verus! {

/// A user account.
#[derive(Debug)]
pub struct User {
    pub active: bool,
    pub username: String,
    pub email: String,
    pub sign_in_count: u64,
}

/// A new, active user who has signed in once.
pub fn build_user(email: String, username: String) -> (r: User)
    ensures
        r.active,
        r.username@ == username@,
        r.email@ == email@,
        r.sign_in_count == 1,
{
    User { active: true, username, email, sign_in_count: 1 }
}

/// A rectangle, by its sides.
#[derive(Debug, Clone, Copy, PartialEq, Eq, Structural)]
pub struct Rectangle {
    pub width: u32,
    pub height: u32,
}

impl Rectangle {
    /// The area of the rectangle.
    pub fn area(&self) -> (r: u32)
        requires
            self.width * self.height <= u32::MAX,
        ensures
            r == self.width * self.height,
    {
        self.width * self.height
    }

    /// Whether the rectangle has a width at all.
    pub fn width(&self) -> (r: bool)
        ensures
            r == (self.width > 0),
    {
        self.width > 0
    }

    /// Whether `other` fits inside this rectangle, without turning it.
    pub fn can_hold(&self, other: &Rectangle) -> (r: bool)
        ensures
            r == (other.width <= self.width && other.height <= self.height),
    {
        other.width <= self.width && other.height <= self.height
    }

    /// The square with sides `size`.
    pub fn square(size: u32) -> (r: Self)
        ensures
            r.width == size,
            r.height == size,
    {
        Self { width: size, height: size }
    }
}

} // verus!
