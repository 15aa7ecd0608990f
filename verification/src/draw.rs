//! The prize draw: one recipient other than the administrator is chosen at
//! random and the result is announced to the winner, the administrator and
//! the channel.

use vstd::prelude::*;
use crate::capability::{answered, listed, Database, Failure, Platform};
use crate::config::Configuration;
use crate::recipient::{Outbound, OutboundView, User, UserView};
use crate::template::{fill_all, format_template, texts};

verus! {

/// How many indices a draw examines before it gives up.
pub const REDRAW_LIMIT: u32 = 10_000_000;

/// Why a draw ended without a result.
#[derive(Debug, Clone, Copy, PartialEq, Eq, Structural)]
pub enum DrawError {
    /// The recipient store could not list its recipients.
    StoreUnavailable,
    /// There is no recipient at all.
    EmptyPool,
    /// Every recipient is the administrator.
    NoEligibleRecipients,
    /// `REDRAW_LIMIT` indices were drawn and each one fell on the
    /// administrator.
    RedrawLimit,
    /// One of the three announcements was not delivered.
    DeliveryFailed,
}

/// The recipient at `i` may win: it exists and is not the administrator.
pub open spec fn eligible(users: Seq<User>, admin: Seq<char>, i: int) -> bool {
    0 <= i < users.len() && users[i]@.id != admin
}

/// Some recipient may win.
pub open spec fn has_eligible(users: Seq<User>, admin: Seq<char>) -> bool {
    exists|i: int| eligible(users, admin, i)
}

/// Some recipient carries the administrator's identity.
pub open spec fn has_admin(users: Seq<User>, admin: Seq<char>) -> bool {
    exists|i: int| 0 <= i < users.len() && users[i]@.id == admin
}

/// Every recipient carries the administrator's identity.
pub open spec fn all_admin(users: Seq<User>, admin: Seq<char>) -> bool {
    forall|i: int| 0 <= i < users.len() ==> users[i]@.id == admin
}

/// The administrator as an addressee.
pub open spec fn admin_view(cfg: &Configuration) -> UserView {
    UserView { id: cfg.admin@, username: "admin"@ }
}

/// The channel as an addressee of a draw's result.
pub open spec fn channel_view(cfg: &Configuration) -> UserView {
    UserView { id: cfg.channel@, username: "channel"@ }
}

/// What the winner is told.
pub open spec fn win_text(cfg: &Configuration, winner: UserView) -> Seq<char> {
    fill_all(cfg.draw_win_fmt@, seq![winner.username])
}

/// What the administrator and the channel are told.
pub open spec fn result_text(cfg: &Configuration, winner: UserView) -> Seq<char> {
    fill_all(cfg.draw_admin_fmt@, seq![winner.username])
}

/// `sent` is the announcement of `winner`: the winner's message, then the
/// result to the administrator, then the result to the channel.
pub open spec fn announces(sent: Seq<Outbound>, winner: UserView, cfg: &Configuration) -> bool {
    &&& sent.len() == 3
    &&& sent[0]@ == (OutboundView { to: winner, text: win_text(cfg, winner) })
    &&& sent[1]@ == (OutboundView { to: admin_view(cfg), text: result_text(cfg, winner) })
    &&& sent[2]@ == (OutboundView { to: channel_view(cfg), text: result_text(cfg, winner) })
}

/// Calls `rand::random_range` on `0..n`, which samples the thread's random
/// number generator for a value of that range and panics on an empty range.
/// Nothing is claimed of the value but that it lies in the range.
#[verifier::external_body]
fn random_index(n: usize) -> (i: usize)
    requires
        n > 0,
    ensures
        i < n,
{
    rand::random_range(0..n)
}

/// Whether the recipient at `index` may win.
pub fn accepts(users: &Vec<User>, admin: &String, index: usize) -> (ok: bool)
    ensures
        ok == eligible(users@, admin@, index as int),
{
    index < users.len() && !users[index].has_id(admin)
}

/// Whether some recipient may win.
pub fn any_eligible(users: &Vec<User>, admin: &String) -> (found: bool)
    ensures
        found == has_eligible(users@, admin@),
        found == !all_admin(users@, admin@),
{
    let mut i: usize = 0;
    while i < users.len()
        invariant
            i <= users.len(),
            forall|j: int| 0 <= j < i ==> users@[j]@.id == admin@,
        decreases users.len() - i,
    {
        if accepts(users, admin, i) {
            assert(eligible(users@, admin@, i as int));
            return true;
        }
        i += 1;
    }
    false
}

/// `outcome` is a possible end of the choice of a winner among `users` with
/// at most `limit` indices drawn: an eligible recipient, or the error that
/// says why there is none. A pool without recipients and a pool of
/// administrators each have one possible end. With an eligible recipient in
/// the pool, any of them may win, and only the limit can fail the choice:
/// where no index may be drawn, or where an index can fall on the
/// administrator. A pool without the administrator has a winner as soon as
/// one index may be drawn.
pub open spec fn selected(
    users: Seq<User>,
    admin: Seq<char>,
    limit: u32,
    outcome: Result<usize, DrawError>,
) -> bool {
    match outcome {
        Ok(i) => eligible(users, admin, i as int) && limit > 0,
        Err(DrawError::EmptyPool) => users.len() == 0,
        Err(DrawError::NoEligibleRecipients) => users.len() > 0 && all_admin(users, admin),
        Err(DrawError::RedrawLimit) => has_eligible(users, admin) && (limit == 0 || has_admin(
            users,
            admin,
        )),
        Err(_) => false,
    }
}

/// Chooses the winner by drawing indices at random until one falls on a
/// recipient other than the administrator, or until `limit` indices were
/// drawn in vain.
///
/// A pool without recipients and a pool of administrators are told apart
/// before the first index is drawn.
pub fn select_winner_within(users: &Vec<User>, admin: &String, limit: u32) -> (outcome: Result<
    usize,
    DrawError,
>)
    ensures
        selected(users@, admin@, limit, outcome),
{
    if users.len() == 0 {
        return Err(DrawError::EmptyPool);
    }
    if !any_eligible(users, admin) {
        return Err(DrawError::NoEligibleRecipients);
    }
    let mut drawn: u32 = 0;
    while drawn < limit
        invariant
            users.len() > 0,
            has_eligible(users@, admin@),
            drawn <= limit,
            drawn > 0 ==> has_admin(users@, admin@),
        decreases limit - drawn,
    {
        let index = random_index(users.len());
        if accepts(users, admin, index) {
            return Ok(index);
        }
        assert(users@[index as int]@.id == admin@);
        drawn += 1;
    }
    Err(DrawError::RedrawLimit)
}

/// Chooses the winner with at most `REDRAW_LIMIT` indices drawn. With an
/// eligible recipient in the pool the choice fails only if that many
/// indices in a row fall on the administrator; without the administrator in
/// the pool it does not fail.
pub fn select_winner(users: &Vec<User>, admin: &String) -> (outcome: Result<usize, DrawError>)
    ensures
        selected(users@, admin@, REDRAW_LIMIT, outcome),
{
    select_winner_within(users, admin, REDRAW_LIMIT)
}

/// The three messages that announce `winner`.
pub fn draw_messages(winner: &User, cfg: &Configuration) -> (sent: Vec<Outbound>)
    ensures
        announces(sent@, winner@, cfg),
{
    let mut args: Vec<String> = Vec::new();
    args.push(winner.username.clone());
    assert(texts(args@) == seq![winner@.username]);
    let won = format_template(cfg.draw_win_fmt.as_str(), &args);
    let result = format_template(cfg.draw_admin_fmt.as_str(), &args);
    let admin = User { id: cfg.admin.clone(), username: "admin".to_owned() };
    let channel = User { id: cfg.channel.clone(), username: "channel".to_owned() };
    let mut sent: Vec<Outbound> = Vec::new();
    sent.push(Outbound { to: winner.clone(), text: won });
    sent.push(Outbound { to: admin, text: result.clone() });
    sent.push(Outbound { to: channel, text: result });
    sent
}

/// The end of a draw, given for each announcement whether it was delivered:
/// the draw stands only if every one was.
pub fn settle(delivered: &Vec<bool>) -> (outcome: Result<(), DrawError>)
    ensures
        outcome is Ok <==> forall|i: int| 0 <= i < delivered@.len() ==> delivered@[i],
        outcome is Err ==> outcome == Err::<(), DrawError>(DrawError::DeliveryFailed),
        outcome is Err ==> exists|i: int| 0 <= i < delivered@.len() && !delivered@[i],
{
    let mut i: usize = 0;
    while i < delivered.len()
        invariant
            i <= delivered.len(),
            forall|j: int| 0 <= j < i ==> delivered@[j],
        decreases delivered.len() - i,
    {
        if !delivered[i] {
            return Err(DrawError::DeliveryFailed);
        }
        i += 1;
    }
    Ok(())
}

/// A winner and the messages that announce it.
#[derive(Debug)]
pub struct DrawPlan {
    /// The recipients among whom the winner was drawn.
    pub pool: Vec<User>,
    /// Position of the winner in `pool`.
    pub winner: usize,
    /// The announcements, in the order in which they are sent.
    pub messages: Vec<Outbound>,
}

impl DrawPlan {
    /// The plan names a winner other than the administrator and holds the
    /// announcement of that winner.
    pub open spec fn valid(&self, cfg: &Configuration) -> bool {
        &&& eligible(self.pool@, cfg.admin@, self.winner as int)
        &&& announces(self.messages@, self.pool@[self.winner as int]@, cfg)
    }
}

/// `outcome` is a possible plan for the answer `listing` of the recipient
/// store: without an answer there is no draw; with one, the winner is chosen
/// among the listed recipients and announced.
pub open spec fn planned(
    listing: Result<Vec<User>, Failure>,
    cfg: &Configuration,
    outcome: Result<DrawPlan, DrawError>,
) -> bool {
    match listing {
        Err(_) => outcome matches Err(e) && e == DrawError::StoreUnavailable,
        Ok(users) => match outcome {
            Ok(plan) => plan.pool == users && plan.valid(cfg),
            Err(e) => selected(users@, cfg.admin@, REDRAW_LIMIT, Err(e)),
        },
    }
}

/// Plans a draw from the answer of the recipient store.
pub fn plan_draw(listing: Result<Vec<User>, Failure>, cfg: &Configuration) -> (outcome: Result<
    DrawPlan,
    DrawError,
>)
    ensures
        planned(listing, cfg, outcome),
{
    let pool = match listing {
        Ok(users) => users,
        Err(_) => {
            return Err(DrawError::StoreUnavailable);
        },
    };
    let winner = match select_winner(&pool, &cfg.admin) {
        Ok(index) => index,
        Err(e) => {
            return Err(e);
        },
    };
    let messages = draw_messages(&pool[winner], cfg);
    Ok(DrawPlan { pool, winner, messages })
}

/// `outcome` is a possible end of a draw with the store `db` and the
/// transport `platform`.
///
/// A plan that was carried out is valid, its pool is an answer of the
/// store, and the transport's answer to each of its messages is that it took
/// it. A failed delivery means that the transport's answer to a message of
/// a valid plan for an answer of the store is a refusal. Every other error
/// is the one that `plan_draw` gives for an answer of the store.
pub open spec fn drew<D: Database, P: Platform>(
    db: &D,
    platform: &P,
    cfg: &Configuration,
    outcome: Result<DrawPlan, DrawError>,
) -> bool {
    match outcome {
        Ok(plan) => {
            &&& plan.valid(cfg)
            &&& listed(db, Ok(plan.pool))
            &&& forall|i: int|
                0 <= i < plan.messages@.len() ==> #[trigger] answered(
                    platform,
                    plan.messages@[i].to,
                    plan.messages@[i].text@,
                    true,
                )
        },
        Err(DrawError::DeliveryFailed) => exists|plan: DrawPlan, i: int|
            {
                &&& plan.valid(cfg)
                &&& listed(db, Ok(plan.pool))
                &&& 0 <= i < plan.messages@.len()
                &&& #[trigger] answered(
                    platform,
                    plan.messages@[i].to,
                    plan.messages@[i].text@,
                    false,
                )
            },
        Err(e) => exists|listing: Result<Vec<User>, Failure>|
            #[trigger] listed(db, listing) && planned(listing, cfg, Err(e)),
    }
}

/// Runs one draw: lists the recipients, chooses the winner and sends the
/// three announcements. Each announcement is attempted whatever became of
/// the ones before it.
///
/// The store and the transport decide whether the run succeeds. It succeeds
/// only with a valid plan for what the store listed and with every
/// announcement taken by the transport; it fails only on an answer that
/// fails it: a listing that `plan_draw` refuses, or a refused announcement.
pub fn draw<D: Database, P: Platform>(db: &D, platform: &P, cfg: &Configuration) -> (outcome:
    Result<DrawPlan, DrawError>)
    ensures
        outcome matches Ok(plan) ==> plan.valid(cfg),
        drew(db, platform, cfg, outcome),
{
    let listing = db.get_users();
    let ghost answer = listing;
    let plan = match plan_draw(listing, cfg) {
        Ok(plan) => plan,
        Err(e) => {
            assert(listed(db, answer) && planned(answer, cfg, Err::<DrawPlan, DrawError>(e)));
            return Err(e);
        },
    };
    assert(answer == Ok::<Vec<User>, Failure>(plan.pool));
    let mut delivered: Vec<bool> = Vec::new();
    let mut i: usize = 0;
    while i < plan.messages.len()
        invariant
            i <= plan.messages.len(),
            delivered@.len() == i,
            forall|j: int|
                0 <= j < i ==> #[trigger] answered(
                    platform,
                    plan.messages@[j].to,
                    plan.messages@[j].text@,
                    delivered@[j],
                ),
        decreases plan.messages.len() - i,
    {
        let done = platform.send_message(&plan.messages[i].to, plan.messages[i].text.as_str());
        let taken = done.is_ok();
        assert(answered(
            platform,
            plan.messages@[i as int].to,
            plan.messages@[i as int].text@,
            taken,
        ));
        delivered.push(taken);
        i += 1;
    }
    match settle(&delivered) {
        Ok(()) => {
            assert forall|k: int| 0 <= k < plan.messages@.len() implies #[trigger] answered(
                platform,
                plan.messages@[k].to,
                plan.messages@[k].text@,
                true,
            ) by {
                assert(delivered@[k]);
                assert(answered(
                    platform,
                    plan.messages@[k].to,
                    plan.messages@[k].text@,
                    delivered@[k],
                ));
            }
            Ok(plan)
        },
        Err(e) => {
            proof {
                let k = choose|k: int| 0 <= k < delivered@.len() && !delivered@[k];
                assert(answered(
                    platform,
                    plan.messages@[k].to,
                    plan.messages@[k].text@,
                    delivered@[k],
                ));
                assert(answered(platform, plan.messages@[k].to, plan.messages@[k].text@, false));
            }
            Err(e)
        },
    }
}

/// Whatever way the choice of a winner ends, the winner is not the
/// administrator.
pub proof fn lemma_winner_is_never_admin(
    users: Seq<User>,
    admin: Seq<char>,
    limit: u32,
    outcome: Result<usize, DrawError>,
)
    requires
        selected(users, admin, limit, outcome),
        outcome is Ok,
    ensures
        0 <= outcome->Ok_0 < users.len(),
        users[outcome->Ok_0 as int]@.id != admin,
{
}

/// Among recipients none of whom is the administrator, the choice of a
/// winner ends with a winner as soon as one index may be drawn.
pub proof fn lemma_pool_without_admin_has_a_winner(
    users: Seq<User>,
    admin: Seq<char>,
    limit: u32,
    outcome: Result<usize, DrawError>,
)
    requires
        selected(users, admin, limit, outcome),
        users.len() > 0,
        !has_admin(users, admin),
        limit > 0,
    ensures
        outcome is Ok,
        0 <= outcome->Ok_0 < users.len(),
{
    match outcome {
        Err(DrawError::NoEligibleRecipients) => {
            assert(users[0]@.id == admin);
        },
        _ => {},
    }
}

/// With a store that only lists pools without the administrator and a
/// transport that refuses nothing, a draw ends with a plan that was carried
/// out: a winner among the listed recipients and its three messages, each
/// taken by the transport.
pub proof fn lemma_draw_among_eligible_succeeds<D: Database, P: Platform>(
    db: &D,
    platform: &P,
    cfg: &Configuration,
    outcome: Result<DrawPlan, DrawError>,
)
    requires
        drew(db, platform, cfg, outcome),
        forall|answer: Result<Vec<User>, Failure>| #[trigger]
            listed(db, answer) ==> answer is Ok && answer->Ok_0@.len() > 0 && !has_admin(
                answer->Ok_0@,
                cfg.admin@,
            ),
        forall|to: User, text: Seq<char>| !#[trigger] answered(platform, to, text, false),
    ensures
        outcome matches Ok(plan) && plan.valid(cfg) && plan.messages@.len() == 3 && listed(
            db,
            Ok(plan.pool),
        ),
{
    match outcome {
        Ok(plan) => {},
        Err(DrawError::DeliveryFailed) => {},
        Err(e) => {
            let listing = choose|listing: Result<Vec<User>, Failure>|
                #[trigger] listed(db, listing) && planned(listing, cfg, Err(e));
            let users = listing->Ok_0;
            lemma_pool_without_admin_has_a_winner(
                users@,
                cfg.admin@,
                REDRAW_LIMIT,
                Err::<usize, DrawError>(e),
            );
        },
    }
}

/// Among administrators alone the choice of a winner has one end: the error
/// that says that nobody is eligible. No winner is named, and it is not the
/// limit that fails the choice, however large or small it is.
pub proof fn lemma_admin_only_pool_has_no_winner(
    users: Seq<User>,
    admin: Seq<char>,
    limit: u32,
    outcome: Result<usize, DrawError>,
)
    requires
        selected(users, admin, limit, outcome),
        users.len() > 0,
        all_admin(users, admin),
    ensures
        outcome == Err::<usize, DrawError>(DrawError::NoEligibleRecipients),
{
    match outcome {
        Ok(i) => {
            assert(users[i as int]@.id == admin);
        },
        Err(DrawError::RedrawLimit) => {
            let i = choose|i: int| eligible(users, admin, i);
            assert(users[i]@.id == admin);
        },
        Err(_) => {},
    }
}

/// Without recipients the choice of a winner has one end: the error that
/// says that the pool is empty.
pub proof fn lemma_empty_pool_is_told_apart(
    users: Seq<User>,
    admin: Seq<char>,
    limit: u32,
    outcome: Result<usize, DrawError>,
)
    requires
        selected(users, admin, limit, outcome),
        users.len() == 0,
    ensures
        outcome == Err::<usize, DrawError>(DrawError::EmptyPool),
{
    match outcome {
        Err(DrawError::RedrawLimit) => {
            let i = choose|i: int| eligible(users, admin, i);
            assert(0 <= i < users.len());
        },
        _ => {},
    }
}

} // verus!
