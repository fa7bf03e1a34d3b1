use vstd::prelude::*;

verus! {

/// Which capture device to bind.
#[derive(Clone, Copy, Debug, PartialEq, Eq, Structural)]
pub enum DeviceChoice {
    /// The system default output device.
    SystemDefault,
    /// The enumerated device at this index.
    Listed(usize),
    /// No enumerated device matches the wanted names.
    NotFound,
}

/// Whether `name` is one of `names`.
pub open spec fn listed(names: Seq<String>, name: Seq<char>) -> bool {
    exists|k: int| 0 <= k < names.len() && #[trigger] names[k]@ == name
}

/// Whether the wanted names ask for the system default device.
pub open spec fn wants_default(wanted: Option<Vec<String>>) -> bool {
    match wanted {
        None => true,
        Some(names) => listed(names@, "default"@),
    }
}

/// Picks the device to bind from the wanted names and the names of the
/// enumerated devices, in enumeration order: the system default when no
/// names are given or `"default"` is among them, else the first device whose
/// name is wanted.
pub fn choose_device(wanted: &Option<Vec<String>>, available: &Vec<String>) -> (r: DeviceChoice)
    ensures
        wants_default(*wanted) <==> r == DeviceChoice::SystemDefault,
        r matches DeviceChoice::Listed(j) ==> j < available@.len() && listed(
            wanted->0@,
            available@[j as int]@,
        ) && forall|i: int| 0 <= i < j ==> !listed(wanted->0@, #[trigger] available@[i]@),
        r == DeviceChoice::NotFound <==> (!wants_default(*wanted) && forall|i: int|
            0 <= i < available@.len() ==> !listed(wanted->0@, #[trigger] available@[i]@)),
{
    match wanted {
        None => DeviceChoice::SystemDefault,
        Some(names) => {
            let default_name = "default".to_owned();
            if contains_name(names, &default_name) {
                return DeviceChoice::SystemDefault;
            }
            let mut j: usize = 0;
            while j < available.len()
                invariant
                    wanted is Some,
                    wanted->0@ == names@,
                    j <= available@.len(),
                    !listed(names@, "default"@),
                    forall|i: int| 0 <= i < j ==> !listed(names@, #[trigger] available@[i]@),
                decreases available@.len() - j,
            {
                if contains_name(names, &available[j]) {
                    return DeviceChoice::Listed(j);
                }
                j = j + 1;
            }
            DeviceChoice::NotFound
        },
    }
}

/// Whether `name` is among `names`.
fn contains_name(names: &Vec<String>, name: &String) -> (r: bool)
    ensures
        r == listed(names@, name@),
{
    let mut k: usize = 0;
    while k < names.len()
        invariant
            k <= names@.len(),
            forall|i: int| 0 <= i < k ==> #[trigger] names@[i]@ != name@,
        decreases names@.len() - k,
    {
        if names[k] == *name {
            return true;
        }
        k = k + 1;
    }
    false
}

} // verus!
