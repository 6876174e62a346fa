use vstd::prelude::*;

verus! {

/// Reply of the topology identity command. Every field is optional, since
/// servers of each kind omit different ones.
#[derive(Clone, Debug, Default)]
pub struct IsMasterCommandResponse {
    pub is_master: Option<bool>,
    pub hosts: Option<Vec<String>>,
    pub passives: Option<Vec<String>>,
    pub arbiters: Option<Vec<String>>,
    pub msg: Option<String>,
    pub me: Option<String>,
    pub set_version: Option<i32>,
    pub set_name: Option<String>,
    pub hidden: Option<bool>,
    pub secondary: Option<bool>,
    pub arbiter_only: Option<bool>,
    pub is_replica_set: Option<bool>,
    pub logical_session_timeout_minutes: Option<i64>,
    pub min_wire_version: Option<i32>,
    pub max_wire_version: Option<i32>,
    /// Tag pairs; their order carries no meaning.
    pub tags: Option<Vec<(String, String)>>,
    /// Election id as 24 hexadecimal digits.
    pub election_id: Option<String>,
    pub primary: Option<String>,
}

/// The message tag by which a routing-layer server names itself.
pub open spec fn router_tag() -> Seq<char> {
    seq!['i', 's', 'd', 'b', 'g', 'r', 'i', 'd']
}

/// The reply comes from a routing layer.
pub open spec fn reply_is_router(r: IsMasterCommandResponse) -> bool {
    r.msg matches Some(m) && m@ == router_tag()
}

impl IsMasterCommandResponse {
    pub fn from_router(&self) -> (r: bool)
        ensures
            r == reply_is_router(*self),
    {
        match &self.msg {
            Some(m) => {
                let tag = String::from_str("isdbgrid");
                proof {
                    reveal_strlit("isdbgrid");
                    assert(tag@ =~= router_tag());
                }
                *m == tag
            },
            None => false,
        }
    }
}

} // verus!
