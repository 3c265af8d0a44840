use vstd::prelude::*;
use crate::decimal::{decimal_repr, i32_to_decimal};
use crate::error::ContractError;
use crate::msg::{CountResponse, ExecuteMsg, InstantiateMsg, MessageInfo, QueryMsg};
use crate::response::Response;
use crate::state::{State, StateView, Store};

verus! {

/// The attributes of an acknowledgment, in their mathematical form.
pub type Attrs = Seq<(Seq<char>, Seq<char>)>;

/// What one mutating operation does, stated abstractly: the record it leaves
/// behind, and the acknowledgment or error it hands back.
pub ghost struct Step {
    pub state: Option<StateView>,
    pub reply: Result<Attrs, ContractError>,
}

/// The count after one increment. The counter deliberately wraps at the far
/// end of the range, so that incrementing is total: the alternative policies
/// (saturating, or failing) would either silently pin the counter or add an
/// error the interface does not have.
pub open spec fn wrapping_increment(c: i32) -> i32 {
    if c == i32::MAX {
        i32::MIN
    } else {
        (c + 1) as i32
    }
}

/// What `instantiate` does: create the record, unless one already exists.
pub open spec fn spec_instantiate(pre: Option<StateView>, count: i32, sender: Seq<char>) -> Step {
    match pre {
        Some(_) => Step { state: pre, reply: Err(ContractError::AlreadyInitialized) },
        None => Step {
            state: Some(StateView { count, owner: sender }),
            reply: Ok(
                seq![
                    ("method"@, "instantiate"@),
                    ("owner"@, sender),
                    ("count"@, decimal_repr(count as int)),
                ],
            ),
        },
    }
}

/// What an increment does: add one to the count of the existing record,
/// keeping its owner; any caller may do this.
pub open spec fn spec_increment(pre: Option<StateView>) -> Step {
    match pre {
        None => Step { state: None, reply: Err(ContractError::NotInitialized) },
        Some(s) => Step {
            state: Some(StateView { count: wrapping_increment(s.count), owner: s.owner }),
            reply: Ok(seq![("method"@, "try_increment"@)]),
        },
    }
}

/// What a reset does: overwrite the count if the caller is the owner, and
/// otherwise leave the record untouched and report `Unauthorized`.
pub open spec fn spec_reset(pre: Option<StateView>, sender: Seq<char>, count: i32) -> Step {
    match pre {
        None => Step { state: None, reply: Err(ContractError::NotInitialized) },
        Some(s) => if sender == s.owner {
            Step {
                state: Some(StateView { count, owner: s.owner }),
                reply: Ok(seq![("method"@, "reset"@)]),
            }
        } else {
            Step { state: pre, reply: Err(ContractError::Unauthorized) }
        },
    }
}

/// What `execute` does: route the command to the increment or reset step.
pub open spec fn spec_execute(pre: Option<StateView>, sender: Seq<char>, msg: ExecuteMsg) -> Step {
    match msg {
        ExecuteMsg::Increment {} => spec_increment(pre),
        ExecuteMsg::Reset { count } => spec_reset(pre, sender, count),
    }
}

/// What `query` answers: the current count, or `NotInitialized` when no
/// record exists yet.
pub open spec fn spec_query(pre: Option<StateView>, msg: QueryMsg) -> Result<CountResponse, ContractError> {
    match msg {
        QueryMsg::GetCount {} => match pre {
            None => Err(ContractError::NotInitialized),
            Some(s) => Ok(CountResponse { count: s.count }),
        },
    }
}

/// Whether an executable result carries exactly the reply a step prescribes.
pub open spec fn reply_matches(r: Result<Response, ContractError>, reply: Result<Attrs, ContractError>) -> bool {
    match (r, reply) {
        (Ok(resp), Ok(attrs)) => resp@ == attrs,
        (Err(e), Err(f)) => e == f,
        _ => false,
    }
}

/// Creates the record `{count: msg.count, owner: info.sender}`, failing with
/// `AlreadyInitialized` (and changing nothing) when a record already exists.
pub fn instantiate(store: &mut Store, info: MessageInfo, msg: InstantiateMsg) -> (r: Result<
    Response,
    ContractError,
>)
    ensures
        final(store)@ == spec_instantiate(old(store)@, msg.count, info.sender@).state,
        reply_matches(r, spec_instantiate(old(store)@, msg.count, info.sender@).reply),
{
    if let Some(_) = store.load() {
        return Err(ContractError::AlreadyInitialized);
    }
    let state = State { count: msg.count, owner: info.sender.clone() };
    store.save(state);
    let resp = Response::new()
        .add_attribute("method", "instantiate".to_owned())
        .add_attribute("owner", info.sender.into_string())
        .add_attribute("count", i32_to_decimal(msg.count));
    proof {
        assert(resp@ =~= spec_instantiate(old(store)@, msg.count, info.sender@).reply->Ok_0);
    }
    Ok(resp)
}

/// Routes a command: anyone may increment; resets go through the owner check.
pub fn execute(store: &mut Store, info: MessageInfo, msg: ExecuteMsg) -> (r: Result<
    Response,
    ContractError,
>)
    ensures
        final(store)@ == spec_execute(old(store)@, info.sender@, msg).state,
        reply_matches(r, spec_execute(old(store)@, info.sender@, msg).reply),
{
    match msg {
        ExecuteMsg::Increment {} => try_increment(store),
        ExecuteMsg::Reset { count } => try_reset(store, info, count),
    }
}

/// Adds one to the count (wrapping at the end of the range), for any caller.
pub fn try_increment(store: &mut Store) -> (r: Result<Response, ContractError>)
    ensures
        final(store)@ == spec_increment(old(store)@).state,
        reply_matches(r, spec_increment(old(store)@).reply),
{
    let state = match store.load() {
        None => return Err(ContractError::NotInitialized),
        Some(s) => s,
    };
    let next = if state.count == i32::MAX {
        i32::MIN
    } else {
        state.count + 1
    };
    store.save(State { count: next, owner: state.owner });
    let resp = Response::new().add_attribute("method", "try_increment".to_owned());
    proof {
        assert(resp@ =~= spec_increment(old(store)@).reply->Ok_0);
    }
    Ok(resp)
}

/// Overwrites the count with `count` when the caller is the recorded owner;
/// any other caller gets `Unauthorized` and the record stays as it was.
pub fn try_reset(store: &mut Store, info: MessageInfo, count: i32) -> (r: Result<
    Response,
    ContractError,
>)
    ensures
        final(store)@ == spec_reset(old(store)@, info.sender@, count).state,
        reply_matches(r, spec_reset(old(store)@, info.sender@, count).reply),
{
    let state = match store.load() {
        None => return Err(ContractError::NotInitialized),
        Some(s) => s,
    };
    if info.sender != state.owner {
        return Err(ContractError::Unauthorized);
    }
    store.save(State { count, owner: state.owner });
    let resp = Response::new().add_attribute("method", "reset".to_owned());
    proof {
        assert(resp@ =~= spec_reset(old(store)@, info.sender@, count).reply->Ok_0);
    }
    Ok(resp)
}

/// Answers a query from the current record; needs no authorization and has
/// no side effect on the store.
pub fn query(store: &Store, msg: QueryMsg) -> (r: Result<CountResponse, ContractError>)
    ensures
        r == spec_query(store@, msg),
{
    match msg {
        QueryMsg::GetCount {} => query_count(store),
    }
}

fn query_count(store: &Store) -> (r: Result<CountResponse, ContractError>)
    ensures
        r == spec_query(store@, QueryMsg::GetCount {}),
{
    let state = match store.load() {
        None => return Err(ContractError::NotInitialized),
        Some(s) => s,
    };
    Ok(CountResponse { count: state.count })
}

/// Initializing an empty store with count `n` succeeds, and a query then
/// reads back exactly `n`, whatever the creating identity was.
pub proof fn lemma_initialize_then_read(n: i32, sender: Seq<char>)
    ensures
        spec_instantiate(None, n, sender).reply is Ok,
        spec_query(spec_instantiate(None, n, sender).state, QueryMsg::GetCount {})
            == Ok::<CountResponse, ContractError>(CountResponse { count: n }),
{
}

/// On an initialized record with count below the top of the range, one
/// increment succeeds and a query then reads back the old count plus one.
/// (At `i32::MAX` itself the count wraps to `i32::MIN` instead.)
pub proof fn lemma_increment_then_read(s: StateView)
    requires
        s.count < i32::MAX,
    ensures
        spec_increment(Some(s)).reply is Ok,
        spec_query(spec_increment(Some(s)).state, QueryMsg::GetCount {})
            == Ok::<CountResponse, ContractError>(CountResponse { count: (s.count + 1) as i32 }),
{
}

/// A reset by the owner succeeds and sets the count to exactly the requested
/// value — also when it equals the current count, and also when it is
/// negative — while the owner stays the same.
pub proof fn lemma_reset_by_owner(s: StateView, m: i32)
    ensures
        spec_reset(Some(s), s.owner, m).reply is Ok,
        spec_reset(Some(s), s.owner, m).state == Some(StateView { count: m, owner: s.owner }),
        spec_query(spec_reset(Some(s), s.owner, m).state, QueryMsg::GetCount {})
            == Ok::<CountResponse, ContractError>(CountResponse { count: m }),
{
}

/// A reset by anyone other than the owner fails with `Unauthorized` and
/// leaves the record exactly as it was.
pub proof fn lemma_reset_by_non_owner(s: StateView, sender: Seq<char>, m: i32)
    requires
        sender != s.owner,
    ensures
        spec_reset(Some(s), sender, m).reply
            == Err::<Attrs, ContractError>(ContractError::Unauthorized),
        spec_reset(Some(s), sender, m).state == Some(s),
{
}

/// Before initialization, incrementing, resetting and reading all fail with
/// `NotInitialized`, and none of them creates a record.
pub proof fn lemma_uninitialized_fails(sender: Seq<char>, m: i32)
    ensures
        spec_increment(None).reply == Err::<Attrs, ContractError>(ContractError::NotInitialized),
        spec_increment(None).state is None,
        spec_reset(None, sender, m).reply
            == Err::<Attrs, ContractError>(ContractError::NotInitialized),
        spec_reset(None, sender, m).state is None,
        spec_query(None, QueryMsg::GetCount {})
            == Err::<CountResponse, ContractError>(ContractError::NotInitialized),
{
}

/// A second initialization fails with `AlreadyInitialized` and alters
/// neither the count nor the owner of the existing record.
pub proof fn lemma_reinitialize_fails(s: StateView, n: i32, sender: Seq<char>)
    ensures
        spec_instantiate(Some(s), n, sender).reply
            == Err::<Attrs, ContractError>(ContractError::AlreadyInitialized),
        spec_instantiate(Some(s), n, sender).state == Some(s),
{
}

/// No operation ever changes the owner of an existing record: whatever step
/// runs against a record owned by `s.owner`, the record afterwards (if one
/// exists) is still owned by `s.owner`.
pub proof fn lemma_owner_never_changes(s: StateView, sender: Seq<char>, n: i32, msg: ExecuteMsg)
    ensures
        spec_instantiate(Some(s), n, sender).state matches Some(t) && t.owner == s.owner,
        spec_execute(Some(s), sender, msg).state matches Some(t) && t.owner == s.owner,
{
}

} // verus!
