//! Registration: the reply to the start command and the entry in the
//! recipient store.

use vstd::prelude::*;
use crate::capability::{answered, stored_by, Database, Platform};
use crate::config::Configuration;
use crate::recipient::{Outbound, OutboundView, User, UserView};
use crate::template::{fill_all, format_template, texts};

verus! {

/// What a recipient is told on registration: the configured template filled
/// with the recipient's name and identity.
pub open spec fn start_text(cfg: &Configuration, user: UserView) -> Seq<char> {
    fill_all(cfg.start_fmt@, seq![user.username, user.id])
}

/// The reply to the start command of `user`.
pub fn start_reply(user: &User, cfg: &Configuration) -> (reply: Outbound)
    ensures
        reply.to == *user,
        reply@ == (OutboundView { to: user@, text: start_text(cfg, user@) }),
{
    let mut args: Vec<String> = Vec::new();
    args.push(user.username.clone());
    args.push(user.id.clone());
    assert(texts(args@) == seq![user@.username, user@.id]);
    Outbound { to: user.clone(), text: format_template(cfg.start_fmt.as_str(), &args) }
}

/// What became of a registration.
#[derive(Debug)]
pub struct Registration {
    /// The reply that was handed to the transport.
    pub reply: Outbound,
    /// Whether the transport took the reply.
    pub replied: bool,
    /// Whether the store took the recipient.
    pub stored: bool,
}

/// `done` is a possible end of the registration of `user` with the
/// transport `platform` and the store `db`: the reply is the start reply of
/// `user`, `replied` is what remains of an answer of the transport to it,
/// and `stored` of an answer of the store when asked to store `user`. The
/// store counts only once the reply is out: without the reply nothing is
/// stored.
pub open spec fn registered<P: Platform, D: Database>(
    platform: &P,
    db: &D,
    user: User,
    cfg: &Configuration,
    done: Registration,
) -> bool {
    &&& done.reply.to == user
    &&& done.reply.text@ == start_text(cfg, user@)
    &&& answered(platform, done.reply.to, done.reply.text@, done.replied)
    &&& done.replied ==> stored_by(db, user, done.stored)
    &&& !done.replied ==> !done.stored
}

/// Registers `user`: sends the reply, then stores the recipient. The store
/// is asked only once the reply is out, and at most once.
pub fn handle_start<P: Platform, D: Database>(
    platform: &P,
    db: &D,
    user: User,
    cfg: &Configuration,
) -> (done: Registration)
    ensures
        done.reply@ == (OutboundView { to: user@, text: start_text(cfg, user@) }),
        done.stored ==> done.replied,
        registered(platform, db, user, cfg, done),
{
    let reply = start_reply(&user, cfg);
    let replied = platform.send_message(&reply.to, reply.text.as_str()).is_ok();
    assert(answered(platform, reply.to, reply.text@, replied));
    let stored = if replied {
        let kept = db.create_user(user).is_ok();
        assert(stored_by(db, user, kept));
        kept
    } else {
        false
    };
    Registration { reply, replied, stored }
}

} // verus!
