use vstd::prelude::*;
use vstd::string::*;

verus! {

/// The single record kind this service writes and reads back.
pub struct Person {
    pub title: String,
    pub name: String,
    pub marketing: bool,
}

/// The record that the insert endpoint writes.
pub open spec fn is_founder(p: Person) -> bool {
    &&& p.title@ == "Founder & CEO"@
    &&& p.name@ == "Rootster"@
    &&& p.marketing
}

impl Person {
    /// The record that the insert endpoint writes: title "Founder & CEO",
    /// name "Rootster", marketing on.
    pub fn founder() -> (p: Person)
        ensures
            is_founder(p),
    {
        Person {
            title: String::from_str("Founder & CEO"),
            name: String::from_str("Rootster"),
            marketing: true,
        }
    }

    /// A field-for-field copy.
    pub fn copied(&self) -> (p: Person)
        ensures
            p == *self,
    {
        Person { title: self.title.clone(), name: self.name.clone(), marketing: self.marketing }
    }
}

} // verus!
