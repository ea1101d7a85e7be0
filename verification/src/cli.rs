//! Serial command line: the commands it knows, what it answers, and when the
//! periodic state printout is due.
use vstd::prelude::*;

verus! {

/// Commands of the base group.
#[derive(Debug, Clone, Copy, PartialEq, Eq)]
pub enum Base<'a> {
    /// Hello World
    Hello { name: Option<&'a str> },
    /// Exit cli
    Exit,
}

/// The text the command line writes back for a command.
pub open spec fn spec_reply(cmd: Base) -> Seq<char> {
    match cmd {
        Base::Hello { name } => "Hello, "@ + match name {
            Some(n) => n@,
            None => "World"@,
        },
        Base::Exit => "Exit"@,
    }
}

impl<'a> Base<'a> {
    /// The text the command line writes back: a greeting of the given name
    /// (or of "World") for `hello`, "Exit" for `exit`.
    pub fn reply(&self) -> (r: String)
        ensures
            r@ == spec_reply(*self),
    {
        match self {
            Base::Hello { name } => {
                let mut r = "Hello, ".to_owned();
                match name {
                    Some(n) => r.append(n),
                    None => r.append("World"),
                }
                r
            },
            Base::Exit => "Exit".to_owned(),
        }
    }
}

/// Time between two printouts of the flight state, in the units of the
/// clock that [`print_due`] is given.
pub const PRINT_INTERVAL: u32 = 10_000;

/// Whether the state printout is due at time `now`, given when it last ran.
pub open spec fn spec_print_due(last_print: Option<u32>, now: u32) -> bool {
    match last_print {
        Some(last) => now - last >= PRINT_INTERVAL,
        None => true,
    }
}

/// Whether the state printout is due at time `now`: at least
/// [`PRINT_INTERVAL`] after the last one, or when none has run.
pub fn print_due(last_print: Option<u32>, now: u32) -> (r: bool)
    requires
        last_print matches Some(last) ==> last <= now,
    ensures
        r == spec_print_due(last_print, now),
{
    match last_print {
        Some(last) => now - last >= PRINT_INTERVAL,
        None => true,
    }
}

/// Law: with no printout yet, one is due at once; after a printout at
/// `last`, the next is due exactly when at least 10 000 ticks have passed,
/// and once due it stays due as the clock goes on.
pub proof fn lemma_print_schedule(last: u32, now: u32, later: u32)
    requires
        last <= now,
        now <= later,
    ensures
        spec_print_due(None, now),
        spec_print_due(Some(last), now) <==> now >= last + 10_000,
        spec_print_due(Some(last), now) ==> spec_print_due(Some(last), later),
{
}

} // verus!
