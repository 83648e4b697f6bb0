//! Whether Rocket League was started the way RLBot needs it.

use vstd::prelude::*;
use crate::text::{decimal, push_decimal, str_eq, views};

verus! {

/// Rocket League runs, but not with the arguments RLBot needs; the port it should use.
#[derive(Debug, Clone, Copy, PartialEq, Eq, Structural)]
pub struct RLNoBotError(pub u16);

/// The argument that gives Rocket League the RLBot port.
pub open spec fn port_arg(port: u16) -> Seq<char> {
    "RLBot_ControllerURL=127.0.0.1:"@ + decimal(port as nat)
}

fn port_arg_text(port: u16) -> (r: String)
    ensures
        r@ == port_arg(port),
{
    let mut r = "RLBot_ControllerURL=127.0.0.1:".to_owned();
    push_decimal(&mut r, port as u64);
    r
}

impl RLNoBotError {
    /// What the GUI tells the user.
    pub open spec fn message_text(self) -> Seq<char> {
        "Please close Rocket League and let RLBot open it for you. Do not start Rocket League yourself. (Rocket League is not running with '-rlbot' and/or on port "@
            + decimal(self.0 as nat) + " (with '"@ + port_arg(self.0) + "'))"@
    }

    /// What the GUI tells the user.
    pub fn message(&self) -> (r: String)
        ensures
            r@ == self.message_text(),
    {
        let mut r = "Please close Rocket League and let RLBot open it for you. Do not start Rocket League yourself. (Rocket League is not running with '-rlbot' and/or on port ".to_owned();
        push_decimal(&mut r, self.0 as u64);
        r.append(" (with '");
        let arg = port_arg_text(self.0);
        r.append(arg.as_str());
        r.append("'))");
        r
    }
}

/// Some argument after the program's name equals `a`.
pub open spec fn has_arg(args: Seq<Seq<char>>, a: Seq<char>) -> bool {
    exists|i: int| 1 <= i < args.len() && #[trigger] args[i] == a
}

/// Whether Rocket League runs ready for RLBot on `port`, given the arguments of
/// the Rocket League process found (`None` when none runs): it must have been
/// started with `-rlbot` and the RLBot port argument.
pub fn is_rocket_league_running(process_args: Option<&Vec<String>>, port: u16) -> (r: Result<bool, RLNoBotError>)
    ensures
        match process_args {
            None => r == Ok::<bool, RLNoBotError>(false),
            Some(args) => if has_arg(views(args@), "-rlbot"@) && has_arg(views(args@), port_arg(port)) {
                r == Ok::<bool, RLNoBotError>(true)
            } else {
                r == Err::<bool, RLNoBotError>(RLNoBotError(port))
            },
        },
{
    let args = match process_args {
        Some(a) => a,
        None => {
            return Ok(false);
        },
    };
    let wanted = port_arg_text(port);
    proof {
        reveal_strlit("-rlbot");
        reveal_strlit("RLBot_ControllerURL=127.0.0.1:");
        assert("-rlbot"@[0] == '-');
        assert(("RLBot_ControllerURL=127.0.0.1:"@ + decimal(port as nat))[0] == 'R');
        assert("-rlbot"@ != wanted@);
    }
    let mut has_rlbot_arg = false;
    let mut has_port_arg = false;
    let mut i: usize = 1;
    while i < args.len()
        invariant
            1 <= i,
            i <= args@.len() || args@.len() == 0,
            has_rlbot_arg == exists|j: int| 1 <= j < i && j < args@.len() && #[trigger] args@[j]@ == "-rlbot"@,
            has_port_arg == exists|j: int| 1 <= j < i && j < args@.len() && #[trigger] args@[j]@ == wanted@,
            "-rlbot"@ != wanted@,
        decreases args.len() - i,
    {
        if str_eq(args[i].as_str(), "-rlbot") {
            has_rlbot_arg = true;
        } else if str_eq(args[i].as_str(), wanted.as_str()) {
            has_port_arg = true;
        }
        i = i + 1;
    }
    proof {
        assert(has_rlbot_arg == has_arg(views(args@), "-rlbot"@)) by {
            if has_arg(views(args@), "-rlbot"@) {
                let j = choose|j: int| 1 <= j < views(args@).len() && #[trigger] views(args@)[j] == "-rlbot"@;
                assert(args@[j]@ == "-rlbot"@);
            }
            if has_rlbot_arg {
                let j = choose|j: int| 1 <= j < i && j < args@.len() && #[trigger] args@[j]@ == "-rlbot"@;
                assert(views(args@)[j] == "-rlbot"@);
            }
        }
        assert(has_port_arg == has_arg(views(args@), port_arg(port))) by {
            if has_arg(views(args@), port_arg(port)) {
                let j = choose|j: int| 1 <= j < views(args@).len() && #[trigger] views(args@)[j] == port_arg(port);
                assert(args@[j]@ == wanted@);
            }
            if has_port_arg {
                let j = choose|j: int| 1 <= j < i && j < args@.len() && #[trigger] args@[j]@ == wanted@;
                assert(views(args@)[j] == wanted@);
            }
        }
    }
    if has_port_arg && has_rlbot_arg {
        return Ok(true);
    }
    Err(RLNoBotError(port))
}

} // verus!
