use vstd::prelude::*;

verus! {

/// A caller identity in its string form, as the host's authentication layer
/// reports it. The library treats it as an opaque label: identities are only
/// recorded, compared and echoed back, never parsed or validated here.
pub struct Addr(String);

impl View for Addr {
    type V = Seq<char>;

    closed spec fn view(&self) -> Seq<char> {
        self.0@
    }
}

impl Addr {
    /// Wraps an identity string without any validation.
    pub fn new(s: String) -> (a: Addr)
        ensures
            a@ == s@,
    {
        Addr(s)
    }

    pub fn as_str(&self) -> (s: &str)
        ensures
            s@ == self@,
    {
        self.0.as_str()
    }

    pub fn into_string(self) -> (s: String)
        ensures
            s@ == self@,
    {
        self.0
    }
}

impl Clone for Addr {
    fn clone(&self) -> (a: Addr)
        ensures
            a == *self,
    {
        Addr(self.0.clone())
    }
}

impl PartialEq for Addr {
    fn eq(&self, other: &Addr) -> (r: bool) {
        self.0 == other.0
    }
}

impl vstd::std_specs::cmp::PartialEqSpecImpl for Addr {
    open spec fn obeys_eq_spec() -> bool {
        true
    }

    open spec fn eq_spec(&self, other: &Addr) -> bool {
        self@ == other@
    }
}

/// The sole persisted record: the counter value and the identity allowed to
/// reset it. The owner is fixed when the record is created and no operation
/// changes it afterwards.
pub struct State {
    pub count: i32,
    pub owner: Addr,
}

/// The mathematical value of a [`State`]: the count together with the owner
/// identity as a character sequence.
pub ghost struct StateView {
    pub count: i32,
    pub owner: Seq<char>,
}

impl View for State {
    type V = StateView;

    open spec fn view(&self) -> StateView {
        StateView { count: self.count, owner: self.owner@ }
    }
}

impl Clone for State {
    fn clone(&self) -> (s: State)
        ensures
            s == *self,
    {
        State { count: self.count, owner: self.owner.clone() }
    }
}

/// The key-value store the operations run against, reduced to what they read
/// of it: the record kept at the one well-known key, or nothing at all.
///
/// Callers inject a store into every operation; durability and encoding of
/// the record are the persistence layer's business, not this type's.
pub struct Store {
    record: Option<State>,
}

impl View for Store {
    type V = Option<StateView>;

    closed spec fn view(&self) -> Option<StateView> {
        match self.record {
            Some(s) => Some(s@),
            None => None,
        }
    }
}

impl Store {
    /// An empty store: no record has been written yet.
    pub fn new() -> (s: Store)
        ensures
            s@ is None,
    {
        Store { record: None }
    }

    /// Reads the record, if one was saved.
    pub fn load(&self) -> (r: Option<State>)
        ensures
            match r {
                Some(s) => self@ == Some(s@),
                None => self@ is None,
            },
    {
        match &self.record {
            Some(s) => Some(s.clone()),
            None => None,
        }
    }

    /// Writes the record, replacing whatever was there.
    pub fn save(&mut self, state: State)
        ensures
            final(self)@ == Some(state@),
    {
        self.record = Some(state);
    }
}

} // verus!
