//! Conversation turns and their roles.
use vstd::prelude::*;

verus! {

/// Who a conversation turn is attributed to.
#[derive(Clone, Copy, Debug, PartialEq, Eq, Structural)]
pub enum Role {
    System,
    User,
    Assistant,
    Tool,
}

/// The lower-case name of a role, as it appears on the wire.
pub open spec fn role_label(r: Role) -> Seq<char> {
    match r {
        Role::System => "system"@,
        Role::User => "user"@,
        Role::Assistant => "assistant"@,
        Role::Tool => "tool"@,
    }
}

impl Role {
    /// The lower-case name of this role.
    pub fn label(&self) -> (r: String)
        ensures
            r@ == role_label(*self),
    {
        match self {
            Role::System => "system".to_owned(),
            Role::User => "user".to_owned(),
            Role::Assistant => "assistant".to_owned(),
            Role::Tool => "tool".to_owned(),
        }
    }
}

/// One conversation turn: an opaque unique identity, a role and its text.
#[derive(Debug)]
pub struct Message {
    pub id: u128,
    pub role: Role,
    pub content: String,
}

/// What a turn says, leaving out its identity.
pub open spec fn turn_of(m: Message) -> (Role, Seq<char>) {
    (m.role, m.content@)
}

/// What a sequence of turns says, leaving out their identities.
pub open spec fn turns_of(ms: Seq<Message>) -> Seq<(Role, Seq<char>)> {
    ms.map_values(|m: Message| turn_of(m))
}

/// Relies on `uuid::Uuid::new_v4`: a random version-4 identity, read as its
/// 128-bit value. Nothing is promised of the value.
#[verifier::external_body]
fn fresh_id() -> u128 {
    uuid::Uuid::new_v4().as_u128()
}

impl Message {
    /// A new turn with a freshly generated identity.
    pub fn new(role: Role, content: String) -> (r: Message)
        ensures
            r.role == role,
            r.content@ == content@,
    {
        Message { id: fresh_id(), role, content }
    }

    /// A copy of this turn, identity included.
    pub fn duplicate(&self) -> (r: Message)
        ensures
            r.id == self.id,
            r.role == self.role,
            r.content@ == self.content@,
    {
        Message { id: self.id, role: self.role, content: self.content.clone() }
    }
}

/// A copy of every turn of `ms`, in order.
pub fn copy_messages(ms: &Vec<Message>) -> (r: Vec<Message>)
    ensures
        turns_of(r@) == turns_of(ms@),
        r@.len() == ms@.len(),
{
    let mut out: Vec<Message> = Vec::new();
    let mut i: usize = 0;
    while i < ms.len()
        invariant
            i <= ms@.len(),
            out@.len() == i,
            forall|j: int| 0 <= j < i ==> #[trigger] turn_of(out@[j]) == turn_of(ms@[j]),
        decreases ms@.len() - i,
    {
        out.push(ms[i].duplicate());
        i = i + 1;
    }
    assert(turns_of(out@) =~= turns_of(ms@));
    out
}

} // verus!
