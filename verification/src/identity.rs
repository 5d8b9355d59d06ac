//! The owner of a task: the user and the bot that a container runs for, as
//! the task's environment carries them.

use crate::notification::{EnvEntry, StopDetail};
use crate::text::text_eq;
use vstd::prelude::*;

verus! {

/// Names under which the environment carries the user.
pub const USER_ID_UPPER: &'static str = "USER_ID";

pub const USER_ID_LOWER: &'static str = "user_id";

/// Names under which the environment carries the bot.
pub const BOT_ID_UPPER: &'static str = "BOT_ID";

pub const BOT_ID_LOWER: &'static str = "bot_id";

/// The two halves of an owner's identity.
#[derive(Clone, Copy, PartialEq, Eq, Debug)]
pub enum IdentityField {
    UserId,
    BotId,
}

/// The user and the bot that a task runs for. Both are mandatory.
#[derive(Debug)]
pub struct OwnerIdentity {
    pub user_id: String,
    pub bot_id: String,
}

/// An owner's identity as plain text.
pub struct OwnerIdentityView {
    pub user_id: Seq<char>,
    pub bot_id: Seq<char>,
}

impl View for OwnerIdentity {
    type V = OwnerIdentityView;

    open spec fn view(&self) -> OwnerIdentityView {
        OwnerIdentityView { user_id: self.user_id@, bot_id: self.bot_id@ }
    }
}

impl Clone for OwnerIdentity {
    fn clone(&self) -> (copy: Self)
        ensures
            copy@ == self@,
    {
        OwnerIdentity { user_id: self.user_id.clone(), bot_id: self.bot_id.clone() }
    }
}

/// `name` is one of the accepted names of `field`.
pub open spec fn names_field(name: Seq<char>, field: IdentityField) -> bool {
    match field {
        IdentityField::UserId => name == USER_ID_UPPER@ || name == USER_ID_LOWER@,
        IdentityField::BotId => name == BOT_ID_UPPER@ || name == BOT_ID_LOWER@,
    }
}

/// The value of the last entry of `env` that is named as `field`: where a
/// name occurs more than once, the last one wins.
pub open spec fn last_value(env: Seq<EnvEntry>, field: IdentityField) -> Option<Seq<char>>
    decreases env.len(),
{
    if env.len() == 0 {
        None
    } else if names_field(env.last().key(), field) {
        Some(env.last().text())
    } else {
        last_value(env.drop_last(), field)
    }
}

/// The identity that a task's overrides carry: both halves, or nothing.
pub open spec fn identity_of(detail: StopDetail) -> Option<OwnerIdentityView> {
    let env = detail.first_override_env();
    match (last_value(env, IdentityField::UserId), last_value(env, IdentityField::BotId)) {
        (Some(user_id), Some(bot_id)) => Some(OwnerIdentityView { user_id, bot_id }),
        _ => None,
    }
}

/// `last_value` finds an entry exactly when some entry bears the name, and
/// then it is the one after which no entry bears it.
pub proof fn lemma_last_value_is_last_match(env: Seq<EnvEntry>, field: IdentityField)
    ensures
        last_value(env, field) is None <==> forall|i: int|
            0 <= i < env.len() ==> !names_field(#[trigger] env[i].key(), field),
        last_value(env, field) matches Some(v) ==> exists|i: int|
            {
                &&& 0 <= i < env.len()
                &&& names_field(#[trigger] env[i].key(), field)
                &&& v == env[i].text()
                &&& forall|j: int| i < j < env.len() ==> !names_field(#[trigger] env[j].key(), field)
            },
    decreases env.len(),
{
    if env.len() == 0 {
    } else if names_field(env.last().key(), field) {
        let i = env.len() - 1;
        assert(names_field(env[i].key(), field));
    } else {
        let front = env.drop_last();
        lemma_last_value_is_last_match(front, field);
        assert forall|i: int| 0 <= i < front.len() implies front[i] == env[i] by {}
        if last_value(front, field) is None {
            assert forall|i: int| 0 <= i < env.len() implies !names_field(
                #[trigger] env[i].key(),
                field,
            ) by {
                if i < front.len() {
                    assert(front[i] == env[i]);
                }
            }
        } else {
            let v = last_value(front, field)->0;
            let i = choose|i: int|
                {
                    &&& 0 <= i < front.len()
                    &&& names_field(#[trigger] front[i].key(), field)
                    &&& v == front[i].text()
                    &&& forall|j: int|
                        i < j < front.len() ==> !names_field(#[trigger] front[j].key(), field)
                };
            assert(front[i] == env[i]);
            assert(names_field(env[i].key(), field));
            assert forall|j: int| i < j < env.len() implies !names_field(
                #[trigger] env[j].key(),
                field,
            ) by {
                if j < front.len() {
                    assert(front[j] == env[j]);
                }
            }
        }
    }
}

/// Whether `name` is one of the accepted names of `field`.
pub fn is_field_name(name: &str, field: IdentityField) -> (yes: bool)
    ensures
        yes == names_field(name@, field),
{
    match field {
        IdentityField::UserId => text_eq(name, USER_ID_UPPER) || text_eq(name, USER_ID_LOWER),
        IdentityField::BotId => text_eq(name, BOT_ID_UPPER) || text_eq(name, BOT_ID_LOWER),
    }
}

/// The value that `env` carries for `field`, the last one where there are
/// several.
pub fn find_field(env: &Vec<EnvEntry>, field: IdentityField) -> (found: Option<String>)
    ensures
        match found {
            Some(v) => last_value(env@, field) == Some(v@),
            None => last_value(env@, field) is None,
        },
{
    let mut found: Option<String> = None;
    let mut i: usize = 0;
    while i < env.len()
        invariant
            i <= env.len(),
            match found {
                Some(v) => last_value(env@.take(i as int), field) == Some(v@),
                None => last_value(env@.take(i as int), field) is None,
            },
        decreases env.len() - i,
    {
        let entry = &env[i];
        assert(env@.take(i + 1).drop_last() == env@.take(i as int));
        assert(env@.take(i + 1).last() == env@[i as int]);
        let named = match &entry.name {
            Some(name) => is_field_name(name.as_str(), field),
            None => {
                proof {
                    reveal_strlit("");
                }
                assert(""@ =~= Seq::<char>::empty());
                is_field_name("", field)
            },
        };
        if named {
            found = match &entry.value {
                Some(v) => Some(v.clone()),
                None => Some(String::new()),
            };
        }
        i += 1;
    }
    assert(env@.take(env.len() as int) == env@);
    found
}

/// The owner that the task's first container override names, where it names
/// both the user and the bot.
pub fn extract_identity(detail: &StopDetail) -> (owner: Option<OwnerIdentity>)
    ensures
        match owner {
            Some(id) => identity_of(*detail) == Some(id@),
            None => identity_of(*detail) is None,
        },
{
    let overrides = match &detail.overrides {
        Some(o) => o,
        None => { return None; },
    };
    let list = match &overrides.container_overrides {
        Some(l) => l,
        None => { return None; },
    };
    if list.len() == 0 {
        return None;
    }
    let env = match &list[0].environment {
        Some(e) => e,
        None => { return None; },
    };
    let user_id = find_field(env, IdentityField::UserId);
    let bot_id = find_field(env, IdentityField::BotId);
    match (user_id, bot_id) {
        (Some(user_id), Some(bot_id)) => Some(OwnerIdentity { user_id, bot_id }),
        _ => None,
    }
}

} // verus!
