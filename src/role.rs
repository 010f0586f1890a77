//! The role command: finds a role of the guild by its exact name and gives it
//! to the member who asked.
use vstd::prelude::*;
use crate::pipeline::{CommandResult, FailureKind};
use serenity::model::id::UserId;
use serenity::utils::MessageBuilder;

verus! {

/// A role of a guild, as read from the cache.
pub struct Role {
    pub id: u64,
    pub name: String,
}

/// Whether `i` is the first position of `roles` whose name is exactly `name`.
pub open spec fn is_first_named(roles: Seq<Role>, name: Seq<char>, i: int) -> bool {
    &&& 0 <= i < roles.len()
    &&& roles[i].name@ == name
    &&& forall|j: int| 0 <= j < i ==> #[trigger] roles[j].name@ != name
}

/// The digit character for `d < 10`.
pub open spec fn digit(d: nat) -> char {
    (48 + d) as char
}

/// Decimal representation of `n`, without leading zeros.
pub open spec fn decimal(n: nat) -> Seq<char>
    decreases n,
{
    if n < 10 {
        seq![digit(n)]
    } else {
        decimal(n / 10).push(digit(n % 10))
    }
}

/// The text that mentions the user with id `id`.
pub open spec fn mention(id: u64) -> Seq<char> {
    "<@"@ + decimal(id as nat) + ">"@
}

/// Reply when the role was given.
pub open spec fn confirmation_message(user_id: u64) -> Seq<char> {
    "Here you go, "@ + mention(user_id) + "!"@
}

/// Reply when no role has the requested name.
pub open spec fn not_found_message(name: Seq<char>) -> Seq<char> {
    "Couldn't find role named '"@ + name + "'"@
}

/// Relies on serenity's `MessageBuilder::user`, which writes the user's
/// mention `<@id>` with the id in decimal, and `MessageBuilder::build`.
#[verifier::external_body]
fn mention_user(id: u64) -> (r: String)
    ensures
        r@ == mention(id),
{
    MessageBuilder::new().user(UserId(id)).build()
}

/// Id of the first role whose name is exactly `name`; the comparison is case-sensitive.
pub fn find_role_by_name(roles: &Vec<Role>, name: &str) -> (r: Option<u64>)
    ensures
        match r {
            Some(id) => exists|i: int| is_first_named(roles@, name@, i) && roles@[i].id == id,
            None => forall|i: int| 0 <= i < roles@.len() ==> #[trigger] roles@[i].name@ != name@,
        },
{
    let wanted = String::from_str(name);
    let mut i: usize = 0;
    while i < roles.len()
        invariant
            i <= roles@.len(),
            wanted@ == name@,
            forall|j: int| 0 <= j < i ==> #[trigger] roles@[j].name@ != name@,
        decreases roles@.len() - i,
    {
        if roles[i].name == wanted {
            assert(is_first_named(roles@, name@, i as int));
            return Some(roles[i].id);
        }
        i = i + 1;
    }
    None
}

/// The reply that confirms a role was given to the user `user_id`.
pub fn confirmation_text(user_id: u64) -> (r: String)
    ensures
        r@ == confirmation_message(user_id),
{
    let mut r = String::from_str("Here you go, ");
    let m = mention_user(user_id);
    r.append(m.as_str());
    r.append("!");
    r
}

/// The reply that says no role is named `name`.
pub fn not_found_text(name: &str) -> (r: String)
    ensures
        r@ == not_found_message(name@),
{
    let mut r = String::from_str("Couldn't find role named '");
    r.append(name);
    r.append("'");
    r
}

/// What the role command asks its caller to do next.
pub enum RoleAction {
    /// Look the invoking member up in the guild.
    ResolveMember { role_id: u64 },
    /// Give the role to the member.
    AddRole { role_id: u64 },
    /// Send this reply to the channel of the message.
    Say { text: String },
    /// Stop, with this result.
    Finish(CommandResult),
}

/// First step: `guild_roles` are the roles of the message's guild, or `None`
/// when the guild is not in the cache; `args` is the requested role name.
pub fn role_begin(guild_roles: Option<&Vec<Role>>, args: &str) -> (r: RoleAction)
    ensures
        guild_roles is None ==> r == RoleAction::Finish(
            CommandResult::Failure(FailureKind::GuildNotCached),
        ),
        guild_roles is Some ==> {
            let roles = guild_roles.unwrap()@;
            match r {
                RoleAction::ResolveMember { role_id } => exists|i: int|
                    is_first_named(roles, args@, i) && roles[i].id == role_id,
                RoleAction::Say { text } => text@ == not_found_message(args@) && forall|i: int|
                    0 <= i < roles.len() ==> #[trigger] roles[i].name@ != args@,
                _ => false,
            }
        },
{
    match guild_roles {
        None => RoleAction::Finish(CommandResult::Failure(FailureKind::GuildNotCached)),
        Some(roles) => match find_role_by_name(roles, args) {
            Some(id) => RoleAction::ResolveMember { role_id: id },
            None => RoleAction::Say { text: not_found_text(args) },
        },
    }
}

/// After the member lookup: give the role, or fail when the member could not be resolved.
pub fn role_after_member(role_id: u64, resolved: bool) -> (r: RoleAction)
    ensures
        resolved ==> r == (RoleAction::AddRole { role_id }),
        !resolved ==> r == RoleAction::Finish(CommandResult::Failure(FailureKind::MemberUnresolved)),
{
    if resolved {
        RoleAction::AddRole { role_id }
    } else {
        RoleAction::Finish(CommandResult::Failure(FailureKind::MemberUnresolved))
    }
}

/// After the role was requested for `user_id`: confirm, or fail when the platform refused.
pub fn role_after_add(user_id: u64, added: bool) -> (r: RoleAction)
    ensures
        added ==> (r matches RoleAction::Say { text } && text@ == confirmation_message(user_id)),
        !added ==> r == RoleAction::Finish(CommandResult::Failure(FailureKind::RoleNotAdded)),
{
    if added {
        RoleAction::Say { text: confirmation_text(user_id) }
    } else {
        RoleAction::Finish(CommandResult::Failure(FailureKind::RoleNotAdded))
    }
}

/// After the reply was sent, or failed to be.
pub fn role_after_say(sent: bool) -> (r: CommandResult)
    ensures
        sent ==> r == CommandResult::Success,
        !sent ==> r == CommandResult::Failure(FailureKind::ReplyNotSent),
{
    if sent {
        CommandResult::Success
    } else {
        CommandResult::Failure(FailureKind::ReplyNotSent)
    }
}

} // verus!
