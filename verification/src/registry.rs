//! The module registration record: the mapping from exported symbol names to
//! the functions the module offers, built once by the initializer. The
//! module's whole surface is a single callable registered under the name
//! `add`.

use vstd::prelude::*;

verus! {

/// The registration record. Its view is the sequence of exported names,
/// each as a sequence of characters.
pub struct ModuleRecord {
    exports: Vec<String>,
}

impl View for ModuleRecord {
    type V = Seq<Seq<char>>;

    closed spec fn view(&self) -> Seq<Seq<char>> {
        self.exports@.map_values(|s: String| s@)
    }
}

impl ModuleRecord {
    /// The module initializer: builds the record with the one exported
    /// callable, `add`, already registered. There is no partially
    /// registered state to observe: the record a caller can first see
    /// already contains the function.
    pub fn init() -> (m: Self)
        ensures
            m@ =~= seq!["add"@],
            m@.contains("add"@),
    {
        let mut exports: Vec<String> = Vec::new();
        exports.push("add".to_owned());
        let m = ModuleRecord { exports };
        proof {
            assert(m@ =~= seq!["add"@]);
            assert(m@[0] == "add"@);
        }
        m
    }

    /// Whether a symbol of the given name is registered.
    pub fn has_export(&self, name: &str) -> (r: bool)
        ensures
            r == self@.contains(name@),
    {
        let owned: String = name.to_owned();
        let n: usize = self.exports.len();
        let mut i: usize = 0;
        while i < n
            invariant
                n == self.exports.len(),
                i <= n,
                owned@ == name@,
                forall|j: int| 0 <= j < i ==> self@[j] != name@,
            decreases n - i,
        {
            if self.exports[i] == owned {
                proof {
                    assert(self@[i as int] == name@);
                }
                return true;
            }
            i += 1;
        }
        false
    }

    /// How many symbols the record exports.
    pub fn export_count(&self) -> (n: usize)
        ensures
            n == self@.len(),
    {
        self.exports.len()
    }
}

} // verus!
