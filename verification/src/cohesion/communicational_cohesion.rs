//! Communicational cohesion: the elements of a module are grouped because
//! they operate on the same central piece of data.  Here that piece is a
//! customer profile; every method reads or writes its fields.

use vstd::prelude::*;

verus! {

/// The central data structure: a customer's identity and contact details.
pub struct CustomerProfile {
    first_name: String,
    last_name: String,
    email: String,
    address: String,
}

impl CustomerProfile {
    /// The first name, as a sequence of characters.
    pub closed spec fn spec_first_name(&self) -> Seq<char> {
        self.first_name@
    }

    /// The last name, as a sequence of characters.
    pub closed spec fn spec_last_name(&self) -> Seq<char> {
        self.last_name@
    }

    /// The email address, as a sequence of characters.
    pub closed spec fn spec_email(&self) -> Seq<char> {
        self.email@
    }

    /// The postal address, as a sequence of characters.
    pub closed spec fn spec_address(&self) -> Seq<char> {
        self.address@
    }

    /// The full name: first name, a space, last name.
    pub open spec fn spec_full_name(&self) -> Seq<char> {
        self.spec_first_name() + " "@ + self.spec_last_name()
    }

    pub fn new(first_name: &str, last_name: &str, email: &str, address: &str) -> (r: Self)
        ensures
            r.spec_first_name() == first_name@,
            r.spec_last_name() == last_name@,
            r.spec_email() == email@,
            r.spec_address() == address@,
    {
        CustomerProfile {
            first_name: first_name.to_owned(),
            last_name: last_name.to_owned(),
            email: email.to_owned(),
            address: address.to_owned(),
        }
    }

    /// Reads from the data: renders the full name.
    pub fn get_full_name(&self) -> (r: String)
        ensures
            r@ == self.spec_full_name(),
    {
        let mut r = self.first_name.clone();
        r.append(" ");
        r.append(self.last_name.as_str());
        proof {
            assert(r@ =~= self.spec_full_name());
        }
        r
    }

    /// Writes to the data: replaces the email address and nothing else.
    pub fn update_email(&mut self, new_email: &str)
        ensures
            final (self).spec_email() == new_email@,
            final (self).spec_first_name() == old(self).spec_first_name(),
            final (self).spec_last_name() == old(self).spec_last_name(),
            final (self).spec_address() == old(self).spec_address(),
    {
        self.email = new_email.to_owned();
    }

    /// Reads from the data: renders the full name over the postal address.
    pub fn get_mailing_label(&self) -> (r: String)
        ensures
            r@ == self.spec_full_name() + "\n"@ + self.spec_address(),
    {
        let mut r = self.get_full_name();
        r.append("\n");
        r.append(self.address.as_str());
        proof {
            assert(r@ =~= self.spec_full_name() + "\n"@ + self.spec_address());
        }
        r
    }
}

/// A functionally cohesive reporting helper: only generates a summary line
/// for the given profile.
pub fn generate_customer_summary(profile: &CustomerProfile) -> (r: String)
    ensures
        r@ == "Summary for "@ + profile.spec_full_name() + ": Last email update was 2 days ago."@,
{
    let mut r = "Summary for ".to_owned();
    r.append(profile.get_full_name().as_str());
    r.append(": Last email update was 2 days ago.");
    proof {
        assert(r@ =~= "Summary for "@ + profile.spec_full_name()
            + ": Last email update was 2 days ago."@);
    }
    r
}

} // verus!
