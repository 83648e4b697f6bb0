//! Talking to the match handler, the python process that starts matches: the
//! commands it is sent, how they are packed, and what is done when the handler is
//! down or a write to it fails. Starting the process and writing to it is left to
//! the caller.

use vstd::prelude::*;
use crate::bot_config_bundle::{base64_standard, encode_base64, value_or_empty};
use crate::commands::MatchHandlerError;
use crate::settings::LauncherConfig;
use crate::text::{decimal, decimal_string, opt_view, views};
use std::io::Write;
use vstd::string::StringSliceAdditionalSpecFns;

verus! {

/// The parts of a command joined by ` | `.
pub open spec fn bar_joined(parts: Seq<Seq<char>>) -> Seq<char>
    decreases parts.len(),
{
    if parts.len() == 0 {
        Seq::empty()
    } else if parts.len() == 1 {
        parts[0]
    } else {
        bar_joined(parts.drop_last()) + " | "@ + parts.last()
    }
}

/// The parts of a command joined by ` | `.
pub fn join_with_bars(parts: &Vec<String>) -> (r: String)
    ensures
        r@ == bar_joined(views(parts@)),
{
    let mut r = String::new();
    let mut i: usize = 0;
    while i < parts.len()
        invariant
            i <= parts@.len(),
            r@ == bar_joined(views(parts@).subrange(0, i as int)),
        decreases parts.len() - i,
    {
        let ghost prefix = views(parts@).subrange(0, i as int);
        let ghost next = views(parts@).subrange(0, i + 1);
        assert(next.drop_last() =~= prefix);
        assert(next.last() == parts@[i as int]@);
        if i > 0 {
            r.append(" | ");
        } else {
            assert(next =~= seq![parts@[i as int]@]);
        }
        r.append(parts[i].as_str());
        i = i + 1;
    }
    assert(views(parts@).subrange(0, parts@.len() as int) =~= views(parts@));
    r
}

/// The text of the start-match command: its parts joined by ` | `, then ` | `.
pub fn start_match_text(parts: &Vec<String>) -> (r: String)
    ensures
        r@ == bar_joined(views(parts@)) + " | "@,
{
    let mut r = join_with_bars(parts);
    r.append(" | ");
    r
}

/// How a boolean is written in a command.
pub open spec fn bool_text(b: bool) -> Seq<char> {
    if b {
        "true"@
    } else {
        "false"@
    }
}

/// The parts of the command that starts a match: the bots and the match settings
/// as JSON, then the launcher settings.
pub fn start_match_args(bots_json: String, match_json: String, launcher: &LauncherConfig) -> (r: Vec<String>)
    ensures
        views(r@) == seq![
            "start_match"@,
            bots_json@,
            match_json@,
            launcher.preferred_launcher@,
            bool_text(launcher.use_login_tricks),
            value_or_empty(opt_view(launcher.rocket_league_exe_path)),
        ],
{
    let mut r: Vec<String> = Vec::new();
    r.push("start_match".to_owned());
    r.push(bots_json);
    r.push(match_json);
    r.push(launcher.preferred_launcher.clone());
    r.push(if launcher.use_login_tricks { "true".to_owned() } else { "false".to_owned() });
    r.push(
        match &launcher.rocket_league_exe_path {
            Some(p) => p.clone(),
            None => String::new(),
        },
    );
    proof {
        assert(views(r@) =~= seq![
            "start_match"@,
            bots_json@,
            match_json@,
            launcher.preferred_launcher@,
            bool_text(launcher.use_login_tricks),
            value_or_empty(opt_view(launcher.rocket_league_exe_path)),
        ]);
    }
    r
}

/// What `flate2`'s gzip encoder at its best compression makes of some bytes,
/// written into a `Vec`: the gzip stream, or `None` where it reports an error.
pub uninterp spec fn gzip_result(bytes: Seq<u8>) -> Option<Seq<u8>>;

/// `flate2::write::GzEncoder` at `Compression::best()`, into a `Vec`: the gzip
/// stream of the bytes, or the error the encoder reported. Like every `Vec`, the
/// stream holds at most `isize::MAX` bytes.
#[verifier::external_body]
fn gzip(bytes: &[u8]) -> (r: Result<Vec<u8>, std::io::Error>)
    ensures
        match r {
            Ok(v) => gzip_result(bytes@) == Some(v@) && v@.len() <= isize::MAX,
            Err(_) => gzip_result(bytes@) is None,
        },
{
    let mut e = flate2::write::GzEncoder::new(Vec::new(), flate2::Compression::best());
    e.write_all(bytes)?;
    e.finish()
}

/// A gzip stream written in base64 for the match handler, or the encoder's error
/// passed on.
pub fn encode_gzipped(gzipped: Result<Vec<u8>, std::io::Error>) -> (r: Result<String, MatchHandlerError>)
    requires
        gzipped matches Ok(v) ==> (v@.len() / 3) * 4 + 4 <= usize::MAX,
    ensures
        match gzipped {
            Ok(v) => r matches Ok(t) && t@ == base64_standard(v@),
            Err(e) => r matches Err(MatchHandlerError::Io(e2)) && e2 == e,
        },
{
    match gzipped {
        Ok(packed) => Ok(encode_base64(packed.as_slice())),
        Err(e) => Err(MatchHandlerError::Io(e)),
    }
}

/// A command packed for the match handler: its UTF-8 bytes gzipped, then written
/// in base64; an error of the encoder is passed on.
pub fn gzip_encode(s: &str) -> (r: Result<String, MatchHandlerError>)
    ensures
        match gzip_result(s.spec_bytes()) {
            Some(z) => r matches Ok(t) && t@ == base64_standard(z),
            None => r matches Err(MatchHandlerError::Io(_)),
        },
{
    let gzipped = gzip(s.as_bytes());
    if let Ok(packed) = &gzipped {
        assert((packed@.len() / 3) * 4 + 4 <= usize::MAX) by (nonlinear_arith)
            requires
                packed@.len() <= isize::MAX,
                isize::MAX * 2 + 1 == usize::MAX,
        ;
    }
    encode_gzipped(gzipped)
}

/// What is done next to send one command to the match handler.
#[derive(Debug, PartialEq, Eq, Structural)]
pub enum HandlerAction {
    /// Start the handler, its output piped into the GUI's console or not.
    Start { use_pipe: bool },
    /// Write the command to the handler's standard input.
    Write,
    /// The handler is down and may not be started: the command is dropped.
    GiveUp,
    /// Writing failed and the handler may not be started again: an error.
    Fail,
    /// The command was written.
    Done,
}

/// Sending one command to the match handler. The handler may be started when it
/// is down (`may_start` holds whether its output is piped); it is started at most
/// once per command, so a handler already running is restarted once when writing
/// to it fails, and a write to a handler just started that fails is an error.
#[derive(Debug)]
pub struct HandlerSend {
    pub running: bool,
    pub may_start: Option<bool>,
    pub write_failed: bool,
    pub written: bool,
}

/// What is done next in a send.
pub open spec fn action_of(s: HandlerSend) -> HandlerAction {
    if s.written {
        HandlerAction::Done
    } else if !s.running {
        match s.may_start {
            Some(p) => HandlerAction::Start { use_pipe: p },
            None => if s.write_failed {
                HandlerAction::Fail
            } else {
                HandlerAction::GiveUp
            },
        }
    } else {
        HandlerAction::Write
    }
}

impl HandlerSend {
    /// A send to a handler that is running or not, which may start it or not.
    pub fn new(running: bool, may_start: Option<bool>) -> (r: Self)
        ensures
            r.running == running,
            r.may_start == may_start,
            !r.write_failed && !r.written,
    {
        HandlerSend { running, may_start, write_failed: false, written: false }
    }

    /// What is done next.
    pub fn next_action(&self) -> (r: HandlerAction)
        ensures
            r == action_of(*self),
    {
        if self.written {
            HandlerAction::Done
        } else if !self.running {
            match self.may_start {
                Some(p) => HandlerAction::Start { use_pipe: p },
                None => if self.write_failed {
                    HandlerAction::Fail
                } else {
                    HandlerAction::GiveUp
                },
            }
        } else {
            HandlerAction::Write
        }
    }

    /// The handler was started: it runs, and may not be started again for this
    /// command.
    pub fn started(&mut self)
        requires
            action_of(*old(self)) is Start,
        ensures
            final(self).running,
            final(self).may_start is None,
            final(self).write_failed == old(self).write_failed,
            final(self).written == old(self).written,
    {
        self.running = true;
        self.may_start = None;
    }

    /// The outcome of writing the command: written, or the handler is taken as
    /// down. Returns whether it is started again.
    pub fn wrote(&mut self, ok: bool) -> (restart: bool)
        requires
            action_of(*old(self)) is Write,
        ensures
            ok ==> final(self).written && final(self).running,
            !ok ==> !final(self).written && !final(self).running && final(self).write_failed,
            final(self).may_start == old(self).may_start,
            restart == (!ok && old(self).may_start is Some),
    {
        if ok {
            self.written = true;
            false
        } else {
            self.running = false;
            self.write_failed = true;
            self.may_start.is_some()
        }
    }
}

/// A send that may start the handler writes the command at most twice: once to a
/// running handler and, when that fails, once to the handler started again, after
/// which a failed write is an error.
pub proof fn lemma_send_restarts_once(use_pipe: bool)
    ensures
        ({
            let s0 = HandlerSend { running: true, may_start: Some(use_pipe), write_failed: false, written: false };
            let s1 = HandlerSend { running: false, write_failed: true, ..s0 };
            let s2 = HandlerSend { running: true, may_start: None, ..s1 };
            let s3 = HandlerSend { running: false, write_failed: true, ..s2 };
            &&& action_of(s0) == HandlerAction::Write
            &&& action_of(s1) == (HandlerAction::Start { use_pipe })
            &&& action_of(s2) == HandlerAction::Write
            &&& action_of(s3) == HandlerAction::Fail
        }),
{
}

/// What is cleared before a match starts, given whether an RLBot process was
/// found and whether Rocket League runs with RLBot's arguments: the running bots
/// when RLBot was found, and RLBot itself when Rocket League is not running.
pub fn pre_match_cleanup(rlbot_found: bool, rocket_league_running: bool) -> (r: (bool, bool))
    ensures
        r == (rlbot_found, rlbot_found && !rocket_league_running),
{
    (rlbot_found, rlbot_found && !rocket_league_running)
}

/// What the console says of Rocket League before a match starts.
pub fn rocket_league_state_text(running: bool) -> (r: &'static str)
    ensures
        running ==> r@ == "Rocket League is already running with RLBot args!"@,
        !running ==> r@ == "Rocket League is not running yet..."@,
{
    if running {
        "Rocket League is already running with RLBot args!"
    } else {
        "Rocket League is not running yet..."
    }
}

/// The JSON texts a challenge is launched with, in the order the match handler
/// reads them.
pub struct ChallengeJson {
    pub city_color: String,
    pub team_color: String,
    pub upgrades: String,
    pub players: String,
    pub match_settings: String,
    pub challenge: String,
    pub save_state: String,
}

/// The parts of the command that launches a story challenge: its id, the JSON
/// texts, then the launcher settings.
pub fn launch_challenge_args(challenge_id: String, json: ChallengeJson, launcher: &LauncherConfig) -> (r: Vec<String>)
    ensures
        views(r@) == seq![
            "launch_challenge"@,
            challenge_id@,
            json.city_color@,
            json.team_color@,
            json.upgrades@,
            json.players@,
            json.match_settings@,
            json.challenge@,
            json.save_state@,
            launcher.preferred_launcher@,
            bool_text(launcher.use_login_tricks),
            value_or_empty(opt_view(launcher.rocket_league_exe_path)),
        ],
{
    let ghost j = json;
    let mut r: Vec<String> = Vec::new();
    r.push("launch_challenge".to_owned());
    r.push(challenge_id);
    r.push(json.city_color);
    r.push(json.team_color);
    r.push(json.upgrades);
    r.push(json.players);
    r.push(json.match_settings);
    r.push(json.challenge);
    r.push(json.save_state);
    r.push(launcher.preferred_launcher.clone());
    r.push(if launcher.use_login_tricks { "true".to_owned() } else { "false".to_owned() });
    r.push(
        match &launcher.rocket_league_exe_path {
            Some(p) => p.clone(),
            None => String::new(),
        },
    );
    proof {
        assert(views(r@) =~= seq![
            "launch_challenge"@,
            challenge_id@,
            j.city_color@,
            j.team_color@,
            j.upgrades@,
            j.players@,
            j.match_settings@,
            j.challenge@,
            j.save_state@,
            launcher.preferred_launcher@,
            bool_text(launcher.use_login_tricks),
            value_or_empty(opt_view(launcher.rocket_league_exe_path)),
        ]);
    }
    r
}

/// The parts of the command that shows a car in the game: its looks as JSON, its
/// team, what is shown and on which map, then the launcher settings.
pub fn spawn_car_args(looks_json: String, team: u8, showcase_type: String, map: String, launcher: &LauncherConfig) -> (r: Vec<String>)
    ensures
        views(r@) == seq![
            "spawn_car_for_viewing"@,
            looks_json@,
            decimal(team as nat),
            showcase_type@,
            map@,
            launcher.preferred_launcher@,
            bool_text(launcher.use_login_tricks),
            value_or_empty(opt_view(launcher.rocket_league_exe_path)),
        ],
{
    let ghost (l, s, m) = (looks_json@, showcase_type@, map@);
    let mut r: Vec<String> = Vec::new();
    r.push("spawn_car_for_viewing".to_owned());
    r.push(looks_json);
    r.push(decimal_string(team as u64));
    r.push(showcase_type);
    r.push(map);
    r.push(launcher.preferred_launcher.clone());
    r.push(if launcher.use_login_tricks { "true".to_owned() } else { "false".to_owned() });
    r.push(
        match &launcher.rocket_league_exe_path {
            Some(p) => p.clone(),
            None => String::new(),
        },
    );
    proof {
        assert(views(r@) =~= seq![
            "spawn_car_for_viewing"@,
            l,
            decimal(team as nat),
            s,
            m,
            launcher.preferred_launcher@,
            bool_text(launcher.use_login_tricks),
            value_or_empty(opt_view(launcher.rocket_league_exe_path)),
        ]);
    }
    r
}

} // verus!
