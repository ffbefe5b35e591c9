//! The registers the library knows, looked up by name.

use vstd::prelude::*;

use crate::spcregs::named_table::NamedTable;
use crate::spcregs::register_descriptor::{describes, RegisterDescriptor};
use crate::spcregs::x86::{self, rows_cr0, rows_cr4, rows_efer};

verus! {

/// Register descriptors looked up by name.
pub struct RegisterMap {
    map: NamedTable<RegisterDescriptor>,
}

impl View for RegisterMap {
    type V = Map<Seq<char>, RegisterDescriptor>;

    closed spec fn view(&self) -> Map<Seq<char>, RegisterDescriptor> {
        self.map@
    }
}

/// Adds a descriptor to the table under its own name.
fn insert_by_name(map: &mut NamedTable<RegisterDescriptor>, desc: RegisterDescriptor)
    ensures
        final(map)@ == old(map)@.insert(desc.spec_name(), desc),
{
    let key = String::from_str(desc.name());
    map.insert(key.as_str(), desc);
}

impl RegisterMap {
    /// The x86 control registers 0 and 4 and the extended feature register,
    /// each under its own name.
    pub fn new() -> (r: Self)
        ensures
            r@.dom() == set!["cr0"@, "cr4"@, "efer"@],
            describes(r@["cr0"@], "x86"@, "cpu"@, "cr0"@, "Control Register 0"@, 32, rows_cr0()),
            describes(r@["cr4"@], "x86"@, "cpu"@, "cr4"@, "Control Register 4"@, 32, rows_cr4()),
            describes(
                r@["efer"@],
                "x86"@,
                "cpu"@,
                "efer"@,
                "Extended Feature Register"@,
                32,
                rows_efer(),
            ),
    {
        proof {
            reveal_strlit("cr0");
            reveal_strlit("cr4");
            reveal_strlit("efer");
        }
        let mut map = NamedTable::new();
        let cr0 = x86::cr0();
        let ghost g0 = cr0;
        insert_by_name(&mut map, cr0);
        let cr4 = x86::cr4();
        let ghost g4 = cr4;
        insert_by_name(&mut map, cr4);
        let efer = x86::efer();
        let ghost ge = efer;
        insert_by_name(&mut map, efer);
        proof {
            assert(map@.dom() =~= set!["cr0"@, "cr4"@, "efer"@]);
            assert("cr0"@[2] != "cr4"@[2]);
            assert("cr0"@.len() != "efer"@.len());
            assert("cr4"@.len() != "efer"@.len());
            assert(map@["cr0"@] == g0);
            assert(map@["cr4"@] == g4);
            assert(map@["efer"@] == ge);
        }
        RegisterMap { map }
    }

    /// Sets the descriptor of `name`, and gives back the one it replaced.
    pub fn insert(&mut self, name: &str, reg: RegisterDescriptor) -> (r: Option<RegisterDescriptor>)
        ensures
            final(self)@ == old(self)@.insert(name@, reg),
            r == (if old(self)@.contains_key(name@) {
                Some(old(self)@[name@])
            } else {
                None::<RegisterDescriptor>
            }),
    {
        self.map.insert(name, reg)
    }

    /// The number of named registers.
    pub fn len(&self) -> (r: usize)
        ensures
            r == self@.len(),
    {
        self.map.len()
    }

    /// Whether no register is named.
    pub fn is_empty(&self) -> (r: bool)
        ensures
            r == (self@.len() == 0),
    {
        self.map.is_empty()
    }

    /// The descriptor of `name`, if any.
    pub fn get(&self, name: &str) -> (r: Option<&RegisterDescriptor>)
        ensures
            r is Some <==> self@.contains_key(name@),
            r matches Some(d) ==> *d == self@[name@],
    {
        self.map.get(name)
    }
}

impl Default for RegisterMap {
    fn default() -> (r: Self)
        ensures
            r@.dom() == set!["cr0"@, "cr4"@, "efer"@],
    {
        Self::new()
    }
}

} // verus!
