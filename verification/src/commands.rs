//! The bot's commands and what an inbound message leads to.

use vstd::prelude::*;
use crate::capability::{answered, Database, Platform};
use crate::config::Configuration;
use crate::recipient::{Outbound, OutboundView, User};
use crate::router::{unknown_command_reply, unknown_command_text, CommandRouter};
use crate::start::{handle_start, registered, start_text, Registration};
use crate::text::{append_signed, signed_decimal};

verus! {

/// What a command does.
#[derive(Debug, Clone, Copy, PartialEq, Eq, Structural)]
pub enum Command {
    /// Registers the sender.
    Start,
}

/// The token of the registration command.
pub open spec fn start_token() -> Seq<char> {
    "/start"@
}

/// Binds every command of the bot: `/start` registers the sender.
pub fn bind_all_commands(router: &mut CommandRouter<Command>)
    requires
        old(router).consistent(),
    ensures
        final(router).consistent(),
        final(router).bindings() == old(router).bindings().insert(start_token(), Command::Start),
{
    router.bind("/start", Command::Start);
}

/// What an inbound message led to.
#[derive(Debug)]
pub enum Handled {
    /// The text was the registration command.
    Registered(Registration),
    /// The text was no bound command; `reply` is what was handed to the
    /// transport, `replied` whether the transport took it.
    Unknown { reply: Outbound, replied: bool },
}

/// Handles the message `text` of `user`: a bound command runs its handler,
/// anything else is answered with the reply for unknown commands. The text
/// must be the command's token exactly.
pub fn handle_message<P: Platform, D: Database>(
    router: &CommandRouter<Command>,
    platform: &P,
    db: &D,
    user: User,
    text: &str,
    cfg: &Configuration,
) -> (handled: Handled)
    requires
        router.consistent(),
    ensures
        handled is Registered <==> router.bindings().contains_key(text@),
        handled matches Handled::Registered(done) ==> done.reply@ == (OutboundView {
            to: user@,
            text: start_text(cfg, user@),
        }) && (done.stored ==> done.replied),
        handled matches Handled::Unknown { reply, .. } ==> reply@ == (OutboundView {
            to: user@,
            text: unknown_command_text(),
        }),
        handled matches Handled::Registered(done) ==> registered(platform, db, user, cfg, done),
        handled matches Handled::Unknown { reply, replied } ==> reply.to == user && answered(
            platform,
            reply.to,
            reply.text@,
            replied,
        ),
{
    match router.dispatch(text) {
        Some(Command::Start) => Handled::Registered(handle_start(platform, db, user, cfg)),
        None => {
            let reply = Outbound { to: user, text: unknown_command_reply().to_owned() };
            let replied = platform.send_message(&reply.to, reply.text.as_str()).is_ok();
            assert(answered(platform, reply.to, reply.text@, replied));
            Handled::Unknown { reply, replied }
        },
    }
}

/// The name under which a sender without a user name is registered: `user`
/// and the sender's first name, or `user` again where it has none.
pub open spec fn unnamed_sender(first_name: Option<Seq<char>>) -> Seq<char> {
    "user "@ + match first_name {
        Some(name) => name,
        None => "user"@,
    }
}

/// The text of an optional string slice.
pub open spec fn str_view(s: Option<&str>) -> Option<Seq<char>> {
    match s {
        Some(s) => Some(s@),
        None => None,
    }
}

/// The recipient that stands for the sender of a message: its identity is
/// the decimal numeral of the chat's number, its name the chat's user name
/// or, without one, the name of an unnamed sender.
pub fn sender_of(chat_id: i64, username: Option<&str>, first_name: Option<&str>) -> (user: User)
    ensures
        user@.id == signed_decimal(chat_id as int),
        user@.username == match username {
            Some(name) => name@,
            None => unnamed_sender(str_view(first_name)),
        },
{
    let mut id = String::new();
    append_signed(&mut id, chat_id);
    let name = match username {
        Some(name) => name.to_owned(),
        None => {
            let mut name = "user ".to_owned();
            match first_name {
                Some(first) => name.append(first),
                None => name.append("user"),
            }
            name
        },
    };
    User { id, username: name }
}

/// The text of a message; the empty text for a message without any.
pub fn text_of<'a>(text: Option<&'a str>) -> (out: &'a str)
    ensures
        out@ == match text {
            Some(t) => t@,
            None => Seq::<char>::empty(),
        },
{
    match text {
        Some(t) => t,
        None => {
            proof {
                reveal_strlit("");
            }
            assert(""@ =~= Seq::<char>::empty());
            ""
        },
    }
}

} // verus!
