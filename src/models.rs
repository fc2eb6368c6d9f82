use vstd::prelude::*;
use crate::roles::Role;

verus! {

/// A sign-up request; the role is diner unless one is given.
pub struct CreateUser {
    pub email: String,
    pub password: String,
    pub role: Option<Role>,
}

/// A new item of a menu.
pub struct CreateMenuItem {
    pub name: String,
    pub description: Option<String>,
    pub course_type: Option<String>,
    pub image_url: Option<String>,
    pub is_featured: Option<bool>,
    pub display_order: Option<i32>,
    pub quantity: Option<i32>,
}

/// A partial update of a menu item: each field present replaces the stored one.
pub struct UpdateMenuItem {
    pub name: Option<String>,
    pub description: Option<String>,
    pub course_type: Option<String>,
    pub image_url: Option<String>,
    pub is_featured: Option<bool>,
    pub display_order: Option<i32>,
    pub quantity: Option<i32>,
}

/// A change of a booking's status or payment status.
pub struct UpdateBooking {
    pub status: Option<String>,
    pub payment_status: Option<String>,
}

/// A new example record.
pub struct CreateExample {
    pub title: String,
    pub description: Option<String>,
}

/// A partial update of an example record.
pub struct UpdateExample {
    pub title: Option<String>,
    pub description: Option<String>,
}

impl CreateUser {
    /// The role the new user gets.
    pub fn role_or_default(&self) -> (r: Role)
        ensures
            self.role matches Some(x) ==> r == x,
            self.role is None ==> r == Role::Diner,
    {
        match self.role {
            Some(x) => x,
            None => Role::Diner,
        }
    }
}

impl CreateMenuItem {
    /// Whether the new item is featured: only when asked for.
    pub fn featured_or_default(&self) -> (r: bool)
        ensures
            self.is_featured matches Some(x) ==> r == x,
            self.is_featured is None ==> !r,
    {
        match self.is_featured {
            Some(x) => x,
            None => false,
        }
    }

    /// Where the new item stands in its menu: first unless a place is given.
    pub fn display_order_or_default(&self) -> (r: i32)
        ensures
            self.display_order matches Some(x) ==> r == x,
            self.display_order is None ==> r == 0,
    {
        match self.display_order {
            Some(x) => x,
            None => 0,
        }
    }
}

} // verus!
