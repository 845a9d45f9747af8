//! The fixed standard-library demo: its source, its module and theorem,
//! the two imports it may use, and the checks on the certificates that
//! are loaded for them.
use vstd::prelude::*;

use crate::text::{concat3, push_str, str_eq};

verus! {

/// The source of the standard-library demo.
pub const STANDARD_DEMO_SOURCE: &'static str =
    "import Std.Nat.Basic\nimport Std.Logic.Eq\n\ntheorem nat_self_eq (n : Nat) : Eq.{1} Nat n n := by\n  intro n\n  exact @Eq.refl.{1} Nat n";

/// The module of the standard-library demo.
pub const STANDARD_DEMO_MODULE: &'static str = "StdDemo";

/// The theorem of the standard-library demo.
pub const STANDARD_DEMO_THEOREM: &'static str = "StdDemo.nat_self_eq";

/// The first fixed import of the standard-library demo.
pub const STD_NAT_BASIC: &'static str = "Std.Nat.Basic";

/// The second fixed import of the standard-library demo.
pub const STD_LOGIC_EQ: &'static str = "Std.Logic.Eq";

/// The modules that the standard-library demo may import.
pub open spec fn is_standard_demo_import(name: Seq<char>) -> bool {
    name == STD_NAT_BASIC@ || name == STD_LOGIC_EQ@
}

/// The fixed imports of the standard-library demo, in load order.
pub fn standard_demo_imports() -> (imports: Vec<&'static str>)
    ensures
        imports@.len() == 2,
        imports@[0]@ == STD_NAT_BASIC@,
        imports@[1]@ == STD_LOGIC_EQ@,
{
    let mut imports = Vec::new();
    imports.push(STD_NAT_BASIC);
    imports.push(STD_LOGIC_EQ);
    imports
}

/// Whether `name` is one of the fixed imports of the standard-library demo.
pub fn is_standard_demo_import_name(name: &str) -> (b: bool)
    ensures
        b == is_standard_demo_import(name@),
{
    let imports = standard_demo_imports();
    let mut i: usize = 0;
    while i < imports.len()
        invariant
            i <= imports.len(),
            imports@.len() == 2,
            imports@[0]@ == STD_NAT_BASIC@,
            imports@[1]@ == STD_LOGIC_EQ@,
            forall|k: int| 0 <= k < i ==> (#[trigger] imports@[k])@ != name@,
        decreases imports.len() - i,
    {
        if str_eq(name, imports[i]) {
            return true;
        }
        i += 1;
    }
    false
}

/// A failure to load the standard-library demo's certificates.
#[derive(Debug, Clone, PartialEq, Eq)]
pub struct StdDemoLoadError {
    message: String,
}

impl StdDemoLoadError {
    /// The message shown to the user.
    pub closed spec fn message_view(&self) -> Seq<char> {
        self.message@
    }

    fn new(message: String) -> (e: Self)
        ensures
            e.message_view() == message@,
    {
        StdDemoLoadError { message }
    }

    /// The message shown to the user.
    pub fn user_message(&self) -> (s: &str)
        ensures
            s@ == self.message_view(),
    {
        self.message.as_str()
    }

    /// The error as displayed: its message.
    pub fn to_message(&self) -> (s: String)
        ensures
            s@ == self.message_view(),
    {
        self.message.clone()
    }
}

/// The error for a fixture certificate of `expected_module` that failed
/// verification; `error` is the verifier's error as displayed for debugging.
pub fn fixture_verification_error(expected_module: &str, error: &str) -> (e: StdDemoLoadError)
    ensures
        e.message_view() == "standard demo fixture "@ + expected_module@
            + " failed certificate verification: "@ + error@,
{
    let mut message = concat3(
        "standard demo fixture ",
        expected_module,
        " failed certificate verification: ",
    );
    push_str(&mut message, error);
    StdDemoLoadError::new(message)
}

/// The check that a verified fixture certificate is the module it was
/// loaded for: `same_module` tells whether the certificate's module is
/// `expected_module`, and `loaded_module` is its dotted name.
pub fn check_fixture_module(expected_module: &str, loaded_module: &str, same_module: bool) -> (r:
    Result<(), StdDemoLoadError>)
    ensures
        r is Ok <==> same_module,
        r matches Err(e) ==> e.message_view() == "standard demo fixture expected "@
            + expected_module@ + " but loaded "@ + loaded_module@ + "."@,
{
    if same_module {
        Ok(())
    } else {
        let mut message = concat3(
            "standard demo fixture expected ",
            expected_module,
            " but loaded ",
        );
        push_str(&mut message, loaded_module);
        push_str(&mut message, ".");
        Err(StdDemoLoadError::new(message))
    }
}

} // verus!
