use vstd::prelude::*;

verus! {

/// Parameters for inserting a new audit event.
pub struct InsertEventParams<'a> {
    pub id: &'a str,
    pub event_type: &'a str,
    pub actor_id: Option<&'a str>,
    pub target_type: Option<&'a str>,
    pub target_id: Option<&'a str>,
    pub metadata: Option<&'a str>,
    pub ip_address: Option<&'a str>,
}

} // verus!
