//! Extension properties preserved by JSON-backed models.

use vstd::prelude::*;

verus! {

#[verifier::external_type_specification]
#[verifier::external_body]
#[verifier::reject_recursive_types(K)]
#[verifier::reject_recursive_types(V)]
pub struct ExJsonMap<K, V>(serde_json::Map<K, V>);

#[verifier::external_type_specification]
#[verifier::external_body]
pub struct ExJsonValue(serde_json::Value);

/// The names of the properties a JSON object holds.
pub uninterp spec fn property_names(map: serde_json::Map<String, serde_json::Value>) -> Set<Seq<char>>;

/// `serde_json::Map::contains_key`: whether the object holds a property of that name.
#[verifier::external_body]
fn holds_property(map: &serde_json::Map<String, serde_json::Value>, name: &str) -> (present: bool)
    ensures
        present == property_names(*map).contains(name@),
{
    map.contains_key(name)
}

/// Additional JSON properties preserved for round-tripping.
#[derive(Debug)]
pub struct ExtraProperties(pub serde_json::Map<String, serde_json::Value>);

/// An extension property duplicates a modeled property.
#[derive(Clone, Debug, Eq, PartialEq)]
pub struct Error {
    /// The model containing the extension map.
    pub model: &'static str,
    /// The duplicated property name.
    pub property: String,
}

impl Error {
    /// The description of the duplication.
    pub fn to_string(&self) -> (text: String)
        ensures
            text@ == "extension property `"@ + self.property@ + "` duplicates a modeled property of "@
                + self.model@,
    {
        let mut text = String::from_str("extension property `");
        text.append(self.property.as_str());
        text.append("` duplicates a modeled property of ");
        text.append(self.model);
        text
    }
}

impl ExtraProperties {
    /// The properties a JSON object holds.
    pub closed spec fn names(self) -> Set<Seq<char>> {
        property_names(self.0)
    }

    /// Check that none of the extension keys duplicate a modeled property: the first of
    /// `reserved`, in order, that is an extension key is reported.
    pub fn validate(&self, model: &'static str, reserved: &[&str]) -> (checked: Result<(), Error>)
        ensures
            match checked {
                Ok(()) => forall|i: int| 0 <= i < reserved@.len() ==> !self.names().contains(#[trigger] reserved@[i]@),
                Err(error) => exists|i: int| {
                    &&& 0 <= i < reserved@.len()
                    &&& self.names().contains(#[trigger] reserved@[i]@)
                    &&& forall|j: int| 0 <= j < i ==> !self.names().contains(#[trigger] reserved@[j]@)
                    &&& error.property@ == reserved@[i]@
                    &&& error.model@ == model@
                },
            },
    {
        let mut i: usize = 0;
        while i < reserved.len()
            invariant
                i <= reserved@.len(),
                forall|j: int| 0 <= j < i ==> !self.names().contains(#[trigger] reserved@[j]@),
            decreases reserved@.len() - i,
        {
            if holds_property(&self.0, reserved[i]) {
                return Err(Error { model, property: reserved[i].to_owned() });
            }
            i = i + 1;
        }
        Ok(())
    }
}

} // verus!
