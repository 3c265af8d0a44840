use vstd::prelude::*;
use crate::state::Addr;

verus! {

/// Payload of `instantiate`: the starting counter value. Any representable
/// signed value is accepted, negative ones included.
#[derive(Clone, Copy, Debug, PartialEq, Eq, Structural)]
pub struct InstantiateMsg {
    pub count: i32,
}

/// The commands `execute` routes: anyone may increment; only the recorded
/// owner may reset, to an arbitrary value.
#[derive(Clone, Copy, Debug, PartialEq, Eq, Structural)]
pub enum ExecuteMsg {
    Increment {},
    Reset { count: i32 },
}

/// The questions `query` answers.
#[derive(Clone, Copy, Debug, PartialEq, Eq, Structural)]
pub enum QueryMsg {
    GetCount {},
}

/// Answer to [`QueryMsg::GetCount`]: the current counter value.
#[derive(Clone, Copy, Debug, PartialEq, Eq, Structural)]
pub struct CountResponse {
    pub count: i32,
}

/// Metadata of one invocation: the authenticated identity making the call.
pub struct MessageInfo {
    pub sender: Addr,
}

} // verus!
