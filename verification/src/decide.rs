//! The payload that asks which feature flags are on for a user.

use vstd::prelude::*;

use crate::body::{json_string, json_string_text};
use crate::errors::Error;
use crate::types::APIResult;

verus! {

/// The payload of a decide request: the user to decide for.
#[derive(Debug, PartialEq, Eq)]
pub struct Decide {
    pub distinct_id: String,
}

/// The JSON text of the payload for the user `distinct_id`: an object with the
/// one field `distinct_id`.
pub open spec fn decide_text(distinct_id: Seq<char>) -> Seq<char> {
    "{\"distinct_id\":"@ + json_string_text(distinct_id) + seq!['}']
}

impl Decide {
    /// The payload for the user `distinct_id`.
    pub fn new(distinct_id: &str) -> (decide: Self)
        ensures
            decide.distinct_id@ == distinct_id@,
    {
        Self { distinct_id: distinct_id.to_owned() }
    }

    /// The payload as JSON text.
    pub fn to_json(&self) -> (text: APIResult<String>)
        ensures
            text matches Ok(t) && t@ == decide_text(self.distinct_id@),
    {
        match json_string(self.distinct_id.as_str()) {
            Some(id) => {
                let mut text = String::from_str("{\"distinct_id\":");
                text.append(id.as_str());
                text.append("}");
                proof {
                    reveal_strlit("}");
                    assert(text@ =~= decide_text(self.distinct_id@));
                }
                Ok(text)
            },
            None => Err(Error::Serialization("the user's id is not a JSON string".to_owned())),
        }
    }
}

} // verus!
