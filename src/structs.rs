//! Plain record types: a user account and an axis-aligned rectangle.
use vstd::prelude::*;

verus! {

/// A user account.
pub struct User {
    username: String,
    email: String,
    sign_in_count: u64,
    pub active: bool,
}

impl User {
    pub closed spec fn username(&self) -> Seq<char> {
        self.username@
    }

    pub closed spec fn email(&self) -> Seq<char> {
        self.email@
    }

    pub closed spec fn sign_in_count(&self) -> u64 {
        self.sign_in_count
    }

    pub closed spec fn is_active(&self) -> bool {
        self.active
    }
}

/// A new, inactive account that has signed in once.
pub fn build_user(username: String, email: String) -> (u: User)
    ensures
        u.username() == username@,
        u.email() == email@,
        u.sign_in_count() == 1,
        !u.is_active(),
{
    User { username, email, sign_in_count: 1, active: false }
}

/// A rectangle with whole-number sides.
#[derive(Debug)]
pub struct Rectangle {
    width: u32,
    height: u32,
}

impl Rectangle {
    pub closed spec fn width(&self) -> u32 {
        self.width
    }

    pub closed spec fn height(&self) -> u32 {
        self.height
    }

    /// Width times height; the product must fit in a `u32`.
    pub fn area(&self) -> (a: u32)
        requires
            self.width() * self.height() <= u32::MAX,
        ensures
            a == self.width() * self.height(),
    {
        self.width * self.height
    }

    /// A square with sides of length `size`.
    pub fn square(size: u32) -> (r: Rectangle)
        ensures
            r.width() == size,
            r.height() == size,
    {
        Rectangle { width: size, height: size }
    }
}

/// A rectangle of the given sides.
pub fn get_rect(width: u32, height: u32) -> (r: Rectangle)
    ensures
        r.width() == width,
        r.height() == height,
{
    Rectangle { width, height }
}

/// A square with sides of length `size`.
pub fn get_square_rect(size: u32) -> (r: Rectangle)
    ensures
        r.width() == size,
        r.height() == size,
{
    Rectangle::square(size)
}

} // verus!
