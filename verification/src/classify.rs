//! Classification of a remote object by the interfaces it advertises.
//!
//! A question object is one of exactly two shapes: generic, or generic with
//! a password extension. The password shape is chosen exactly when the
//! object's advertised interface set names the password-capable interface.

use vstd::prelude::*;

verus! {

/// The name of the password-capable interface, as a sequence of characters.
pub open spec fn password_interface_chars() -> Seq<char> {
    "org.opensuse.Agama1.Questions.WithPassword"@
}

/// The name of the password-capable interface, as an owned string.
pub fn password_interface() -> (r: String)
    ensures
        r@ == password_interface_chars(),
{
    "org.opensuse.Agama1.Questions.WithPassword".to_owned()
}

/// The two shapes a question object can take.
#[derive(Clone, Copy, PartialEq, Eq, Structural, Debug)]
pub enum Variant {
    Generic,
    GenericWithPassword,
}

/// Whether an advertised interface set names the password-capable interface.
pub open spec fn has_password_interface(interfaces: Seq<String>) -> bool {
    exists|i: int| 0 <= i < interfaces.len() && interfaces[i]@ == password_interface_chars()
}

/// The shape that an object with the given advertised interfaces takes.
pub open spec fn spec_classify(interfaces: Seq<String>) -> Variant {
    if has_password_interface(interfaces) {
        Variant::GenericWithPassword
    } else {
        Variant::Generic
    }
}

/// Law: classification is total over the two shapes and is decided by the
/// password-capable interface alone — every interface set yields the
/// password shape exactly when it names that interface, and the generic
/// shape otherwise. Together with the projection contracts, which attach an
/// extension exactly for the password shape, every listed object carries an
/// extension exactly when it advertises the password-capable interface.
pub proof fn lemma_classification_totality(interfaces: Seq<String>)
    ensures
        spec_classify(interfaces) is GenericWithPassword <==> has_password_interface(interfaces),
        spec_classify(interfaces) is Generic <==> !has_password_interface(interfaces),
{
}

/// Decides which shape an object takes from its advertised interface set:
/// `GenericWithPassword` exactly when the password-capable interface is
/// present, `Generic` otherwise.
pub fn classify(interfaces: &Vec<String>) -> (v: Variant)
    ensures
        v == spec_classify(interfaces@),
{
    let password_name = password_interface();
    let mut k: usize = 0;
    while k < interfaces.len()
        invariant
            0 <= k <= interfaces@.len(),
            password_name@ == password_interface_chars(),
            forall|i: int| 0 <= i < k ==> interfaces@[i]@ != password_interface_chars(),
        decreases interfaces@.len() - k,
    {
        if interfaces[k] == password_name {
            return Variant::GenericWithPassword;
        }
        k += 1;
    }
    Variant::Generic
}

} // verus!
