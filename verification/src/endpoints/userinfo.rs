//! `GET /userinfo`: the profile of the user an access token was issued to,
//! limited to what its scope grants.
use crate::json::{json_opt_string, push_opt_string, push_string};
use crate::model::AccessToken;
use crate::outside::encoding::json_string;
use crate::outside::ids::{parse, parse_uuid};
use crate::redirect::opt_view;
use crate::scope::scope_has;
use crate::text::has_word;
use crate::time::UtcTime;
use vstd::prelude::*;

verus! {

/// The id of the access token a bearer token names: it must be 32 bytes long
/// and a UUID (so its simple form); anything else is refused.
pub fn bearer_token_id(bearer: &str) -> (r: Option<u128>)
    ensures
        r == (if bearer.len() != 32 {
            None
        } else {
            parse_uuid(bearer@)
        }),
{
    if bearer.len() != 32 {
        return None;
    }
    parse(bearer)
}

/// The answer to a userinfo request.
#[derive(Debug)]
pub enum UserinfoOutcome {
    /// No such token: `403`.
    Forbidden,
    /// The token has expired: it is to be dropped from the store, and the
    /// answer is `403`.
    Expired,
    /// The profile, as JSON.
    Info { body: String },
}

/// The profile JSON: the subject and picture always, the name only with the
/// `profile` scope, the email only with the `email` scope.
pub open spec fn userinfo_body(t: AccessToken) -> Seq<char> {
    "{\"sub\":"@ + json_string(t.user_id@) + ",\"picture\":"@ + json_opt_string(opt_view(t.picture))
        + (if has_word(t.scope@, "profile"@) {
        ",\"name\":"@ + json_string(t.name@)
    } else {
        seq![]
    }) + (if has_word(t.scope@, "email"@) {
        ",\"email\":"@ + json_string(t.email@)
    } else {
        seq![]
    }) + "}"@
}

/// Answers a userinfo request, given the access token stored under the
/// bearer's id (if any) and the time now. A token whose expiry is before now
/// is refused and to be dropped.
pub fn get(stored: Option<&AccessToken>, now: UtcTime) -> (r: UserinfoOutcome)
    ensures
        match stored {
            None => r is Forbidden,
            Some(t) => if t.exp.earlier(now) {
                r is Expired
            } else {
                r matches UserinfoOutcome::Info { body } && body@ == userinfo_body(*t)
            },
        },
{
    let t = match stored {
        Some(t) => t,
        None => return UserinfoOutcome::Forbidden,
    };
    if t.exp.is_before(&now) {
        return UserinfoOutcome::Expired;
    }
    let scope_profile = scope_has(t.scope.as_str(), "profile");
    let scope_email = scope_has(t.scope.as_str(), "email");
    let mut body = String::from_str("{\"sub\":");
    push_string(&mut body, t.user_id.as_str());
    body.append(",\"picture\":");
    push_opt_string(&mut body, &t.picture);
    let ghost before_name = body@;
    if scope_profile {
        body.append(",\"name\":");
        push_string(&mut body, t.name.as_str());
    }
    let ghost before_email = body@;
    if scope_email {
        body.append(",\"email\":");
        push_string(&mut body, t.email.as_str());
    }
    body.append("}");
    proof {
        let name_part = if has_word(t.scope@, "profile"@) {
            ",\"name\":"@ + json_string(t.name@)
        } else {
            seq![]
        };
        let email_part = if has_word(t.scope@, "email"@) {
            ",\"email\":"@ + json_string(t.email@)
        } else {
            seq![]
        };
        assert(before_email =~= before_name + name_part);
        assert(body@ =~= before_name + name_part + email_part + "}"@);
    }
    UserinfoOutcome::Info { body }
}

} // verus!
