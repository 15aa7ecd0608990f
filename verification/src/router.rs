//! The command router: exact command tokens bound to handlers.

use vstd::prelude::*;

verus! {

/// The reply to a message that is no bound command.
pub open spec fn unknown_command_text() -> Seq<char> {
    "Неизвестная команда"@
}

/// The reply to a message that is no bound command.
pub fn unknown_command_reply() -> (text: &'static str)
    ensures
        text@ == unknown_command_text(),
{
    "Неизвестная команда"
}

/// Bindings from command tokens to handlers of type `H`. A token is bound
/// to at most one handler. The tokens and their handlers are kept side by
/// side in two vectors, searched in order; `bindings` is the map that they
/// stand for.
pub struct CommandRouter<H> {
    commands: Vec<String>,
    handlers: Vec<H>,
}

impl<H> CommandRouter<H> {
    /// Position of the binding of `token`, where it has one.
    spec fn position(&self, token: Seq<char>) -> int {
        choose|i: int| 0 <= i < self.commands@.len() && self.commands@[i]@ == token
    }

    /// `token` is bound.
    spec fn bound(&self, token: Seq<char>) -> bool {
        exists|i: int| 0 <= i < self.commands@.len() && self.commands@[i]@ == token
    }

    /// The bindings are consistent: each command has its handler and no
    /// command is bound twice. Every router that this module hands out is.
    pub closed spec fn consistent(&self) -> bool {
        &&& self.commands@.len() == self.handlers@.len()
        &&& forall|i: int, j: int|
            0 <= i < j < self.commands@.len() ==> self.commands@[i]@ != self.commands@[j]@
    }

    /// The bindings as a map from tokens to handlers.
    pub closed spec fn bindings(&self) -> Map<Seq<char>, H> {
        Map::new(
            |token: Seq<char>| self.bound(token),
            |token: Seq<char>| self.handlers@[self.position(token)],
        )
    }

    /// A router without bindings.
    pub fn new() -> (router: Self)
        ensures
            router.consistent(),
            router.bindings() == Map::<Seq<char>, H>::empty(),
    {
        let router = CommandRouter { commands: Vec::new(), handlers: Vec::new() };
        assert(router.bindings() =~= Map::<Seq<char>, H>::empty());
        router
    }

    /// Where `token` is bound, if it is.
    fn find(&self, token: &String) -> (found: Option<usize>)
        ensures
            match found {
                Some(i) => i < self.commands@.len() && self.commands@[i as int]@ == token@,
                None => !self.bound(token@),
            },
    {
        let mut i: usize = 0;
        while i < self.commands.len()
            invariant
                i <= self.commands.len(),
                forall|j: int| 0 <= j < i ==> self.commands@[j]@ != token@,
            decreases self.commands.len() - i,
        {
            if self.commands[i] == *token {
                return Some(i);
            }
            i += 1;
        }
        None
    }

    /// Binds `command` to `handler`. A handler bound to `command` before is
    /// replaced; every other binding stays.
    pub fn bind(&mut self, command: &str, handler: H)
        requires
            old(self).consistent(),
        ensures
            final(self).consistent(),
            final(self).bindings() == old(self).bindings().insert(command@, handler),
    {
        let token = command.to_owned();
        match self.find(&token) {
            Some(i) => {
                self.handlers.set(i, handler);
                proof {
                    let before = *old(self);
                    let after = *self;
                    assert forall|t: Seq<char>| after.bound(t) == before.bound(t) by {}
                    assert(after.position(command@) == i) by {
                        let p = after.position(command@);
                        assert(after.commands@[p]@ == command@);
                    }
                    assert forall|t: Seq<char>| before.bound(t) && t != command@ implies after.position(
                        t,
                    ) != i by {
                        let p = after.position(t);
                        assert(after.commands@[p]@ == t);
                    }
                    assert(after.bindings() =~= before.bindings().insert(command@, handler));
                }
            },
            None => {
                self.commands.push(token);
                self.handlers.push(handler);
                proof {
                    let before = *old(self);
                    let after = *self;
                    let n = before.commands@.len() as int;
                    assert(after.commands@[n]@ == command@);
                    assert forall|t: Seq<char>|
                        after.bound(t) == (before.bound(t) || t == command@) by {
                        if before.bound(t) {
                            let p = before.position(t);
                            assert(after.commands@[p]@ == t);
                        }
                    }
                    assert(after.position(command@) == n) by {
                        let p = after.position(command@);
                        assert(after.commands@[p]@ == command@);
                        if p < n {
                            assert(before.commands@[p]@ == command@);
                        }
                    }
                    assert forall|t: Seq<char>| before.bound(t) implies after.position(t)
                        == before.position(t) by {
                        let p = before.position(t);
                        let q = after.position(t);
                        assert(after.commands@[p]@ == t);
                        assert(after.commands@[q]@ == t);
                    }
                    assert(after.bindings() =~= before.bindings().insert(command@, handler));
                }
            },
        }
    }

    /// The handler bound to exactly `text`, if there is one.
    pub fn dispatch(&self, text: &str) -> (handler: Option<&H>)
        requires
            self.consistent(),
        ensures
            match handler {
                Some(h) => self.bindings().contains_key(text@) && *h == self.bindings()[text@],
                None => !self.bindings().contains_key(text@),
            },
    {
        let token = text.to_owned();
        match self.find(&token) {
            Some(i) => {
                proof {
                    let p = self.position(text@);
                    assert(self.commands@[p]@ == text@);
                }
                Some(&self.handlers[i])
            },
            None => None,
        }
    }
}

} // verus!
