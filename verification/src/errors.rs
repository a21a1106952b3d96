use vstd::prelude::*;
use vstd::string::StringExecFns;
use crate::location::{Location, locations_display, locations_text};

verus! {

/// The report of a failed shared acquisition: the value is held by an
/// exclusive access, whose location is enumerated when any was recorded.
pub open spec fn borrow_error_message(locs: Seq<Location>) -> Seq<char> {
    if locs.len() == 0 {
        "Value is already borrowed mutably"@
    } else {
        "Value is already borrowed mutably, current active borrows: \n"@ + locations_text(locs)
            + "\n\n"@
    }
}

/// The report of a failed exclusive acquisition: the value is held by some
/// access, whose locations are enumerated when any were recorded.
pub open spec fn borrow_mut_error_message(locs: Seq<Location>) -> Seq<char> {
    if locs.len() == 0 {
        "Value is already borrowed"@
    } else {
        "Value is already borrowed, current active borrows:\n"@ + locations_text(locs) + "\n\n"@
    }
}

/// An error returned by [`crate::RefCell::try_borrow`].
#[derive(Debug)]
pub struct BorrowError {
    /// Where the failed acquisition was attempted.
    pub attempted_at: Location,
    /// The locations of all accesses alive at the attempt, oldest first;
    /// empty when diagnostics are disabled.
    pub already_borrowed_at: Vec<Location>,
}

impl BorrowError {
    /// The human-readable report.
    pub fn message(&self) -> (s: String)
        ensures
            s@ == borrow_error_message(self.already_borrowed_at@),
    {
        if self.already_borrowed_at.len() == 0 {
            "Value is already borrowed mutably".to_owned()
        } else {
            let mut s = "Value is already borrowed mutably, current active borrows: \n".to_owned();
            let listing = locations_display(self.already_borrowed_at.as_slice());
            s.append(listing.as_str());
            s.append("\n\n");
            proof {
                assert(s@ =~= borrow_error_message(self.already_borrowed_at@));
            }
            s
        }
    }
}

/// An error returned by [`crate::RefCell::try_borrow_mut`].
#[derive(Debug)]
pub struct BorrowMutError {
    /// Where the failed acquisition was attempted.
    pub attempted_at: Location,
    /// The locations of all accesses alive at the attempt, oldest first;
    /// empty when diagnostics are disabled.
    pub already_borrowed_at: Vec<Location>,
}

impl BorrowMutError {
    /// The human-readable report.
    pub fn message(&self) -> (s: String)
        ensures
            s@ == borrow_mut_error_message(self.already_borrowed_at@),
    {
        if self.already_borrowed_at.len() == 0 {
            "Value is already borrowed".to_owned()
        } else {
            let mut s = "Value is already borrowed, current active borrows:\n".to_owned();
            let listing = locations_display(self.already_borrowed_at.as_slice());
            s.append(listing.as_str());
            s.append("\n\n");
            proof {
                assert(s@ =~= borrow_mut_error_message(self.already_borrowed_at@));
            }
            s
        }
    }
}

} // verus!
