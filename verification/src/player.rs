//! Handing a stream to a video player outside the service: which players
//! are tried, in what order, and what is said when none of them starts.

use crate::types::texts;
use vstd::prelude::*;
use vstd::string::StringExecFns;

verus! {

/// A program to launch, with its arguments.
#[derive(Debug, Clone, PartialEq, Eq)]
pub struct PlayerCommand {
    pub program: String,
    pub args: Vec<String>,
}

/// `PlayerCommand` as a mathematical value.
pub struct PlayerCommandView {
    pub program: Seq<char>,
    pub args: Seq<Seq<char>>,
}

impl View for PlayerCommand {
    type V = PlayerCommandView;

    open spec fn view(&self) -> PlayerCommandView {
        PlayerCommandView { program: self.program@, args: texts(self.args@) }
    }
}

/// The players that are tried for the stream `url` under the window title
/// `title`, in the order in which they are tried: mpv, then IINA, then VLC.
pub open spec fn player_commands(url: Seq<char>, title: Seq<char>) -> Seq<PlayerCommandView> {
    seq![
        PlayerCommandView {
            program: "mpv"@,
            args: seq![
                "--title"@,
                title,
                "--force-window=immediate"@,
                "--keep-open=no"@,
                "--no-terminal"@,
                url,
            ],
        },
        PlayerCommandView { program: "iina"@, args: seq!["--no-stdin"@, url] },
        PlayerCommandView {
            program: "/Applications/VLC.app/Contents/MacOS/VLC"@,
            args: seq!["--no-video-title-show"@, url],
        },
    ]
}

/// What is said when no player starts; `cause` is why the first one did
/// not.
pub open spec fn no_player_message(cause: Seq<char>) -> Seq<char> {
    "No compatible video player found. Please install mpv, IINA, or VLC. Error: "@ + cause
}

/// The views of a vector of commands, in order.
pub open spec fn command_views(commands: Seq<PlayerCommand>) -> Seq<PlayerCommandView> {
    Seq::new(commands.len(), |i: int| commands[i]@)
}

/// Builds the commands of the players that are tried for `url`.
pub fn build_player_commands(url: &str, title: &str) -> (commands: Vec<PlayerCommand>)
    ensures
        command_views(commands@) == player_commands(url@, title@),
{
    let mut mpv_args: Vec<String> = Vec::new();
    mpv_args.push("--title".to_owned());
    mpv_args.push(title.to_owned());
    mpv_args.push("--force-window=immediate".to_owned());
    mpv_args.push("--keep-open=no".to_owned());
    mpv_args.push("--no-terminal".to_owned());
    mpv_args.push(url.to_owned());
    let mut iina_args: Vec<String> = Vec::new();
    iina_args.push("--no-stdin".to_owned());
    iina_args.push(url.to_owned());
    let mut vlc_args: Vec<String> = Vec::new();
    vlc_args.push("--no-video-title-show".to_owned());
    vlc_args.push(url.to_owned());
    let mpv = PlayerCommand { program: "mpv".to_owned(), args: mpv_args };
    let iina = PlayerCommand { program: "iina".to_owned(), args: iina_args };
    let vlc = PlayerCommand {
        program: "/Applications/VLC.app/Contents/MacOS/VLC".to_owned(),
        args: vlc_args,
    };
    proof {
        let expected = player_commands(url@, title@);
        assert(mpv@.args =~= expected[0].args);
        assert(iina@.args =~= expected[1].args);
        assert(vlc@.args =~= expected[2].args);
    }
    let mut commands: Vec<PlayerCommand> = Vec::new();
    commands.push(mpv);
    commands.push(iina);
    commands.push(vlc);
    assert(command_views(commands@) =~= player_commands(url@, title@));
    commands
}

/// Says that no player started, and why the first one did not.
pub fn no_player_error(cause: &str) -> (message: String)
    ensures
        message@ == no_player_message(cause@),
{
    "No compatible video player found. Please install mpv, IINA, or VLC. Error: ".to_owned().concat(
        cause,
    )
}

/// Whether `command` is the player that is tried at place `k`, counted
/// from zero, for `url` and `title`.
pub open spec fn is_candidate(
    command: PlayerCommand,
    url: Seq<char>,
    title: Seq<char>,
    k: int,
) -> bool {
    0 <= k < 3 && command@ == player_commands(url, title)[k]
}

/// Whether `launch` may fail to start the player at place `k`.
pub open spec fn did_not_start<F: Fn(&PlayerCommand) -> Result<(), String>>(
    launch: F,
    url: Seq<char>,
    title: Seq<char>,
    k: int,
) -> bool {
    exists|command: PlayerCommand, cause: String|
        #![trigger call_ensures(launch, (&command,), Err::<(), String>(cause))]
        is_candidate(command, url, title, k) && call_ensures(
            launch,
            (&command,),
            Err::<(), String>(cause),
        )
}

/// Plays `url` with the first player that starts. The players are tried in
/// order with `launch`, which starts one program and says how that went.
/// The result is `Ok` as soon as one of them started, after all before it
/// did not, and no further one is tried; if none did, it is the message
/// that names the cause for which the first one did not.
pub fn play_with<F: Fn(&PlayerCommand) -> Result<(), String>>(url: &str, title: &str, launch: F) -> (result:
    Result<(), String>)
    requires
        forall|command: &PlayerCommand| call_requires(launch, (command,)),
    ensures
        match result {
            Ok(_) => exists|command: PlayerCommand, k: int|
                #![trigger is_candidate(command, url@, title@, k)]
                {
                    &&& is_candidate(command, url@, title@, k)
                    &&& call_ensures(launch, (&command,), Ok::<(), String>(()))
                    &&& forall|j: int| 0 <= j < k ==> did_not_start(launch, url@, title@, j)
                },
            Err(message) => {
                &&& exists|command: PlayerCommand, cause: String|
                    #![trigger call_ensures(launch, (&command,), Err::<(), String>(cause))]
                    {
                        &&& is_candidate(command, url@, title@, 0)
                        &&& call_ensures(launch, (&command,), Err::<(), String>(cause))
                        &&& message@ == no_player_message(cause@)
                    }
                &&& forall|j: int| 0 <= j < 3 ==> did_not_start(launch, url@, title@, j)
            },
        },
{
    let commands = build_player_commands(url, title);
    proof {
        assert(command_views(commands@).len() == 3);
        assert(forall|k: int|
            0 <= k < 3 ==> commands@[k]@ == #[trigger] command_views(commands@)[k]);
        assert(is_candidate(commands@[0], url@, title@, 0));
        assert(is_candidate(commands@[1], url@, title@, 1));
        assert(is_candidate(commands@[2], url@, title@, 2));
    }
    match launch(&commands[0]) {
        Ok(started) => Ok(started),
        Err(first_cause) => {
            assert(did_not_start(launch, url@, title@, 0));
            match launch(&commands[1]) {
                Ok(started) => Ok(started),
                Err(second_cause) => {
                    assert(did_not_start(launch, url@, title@, 1)) by {
                        assert(call_ensures(
                            launch,
                            (&commands@[1],),
                            Err::<(), String>(second_cause),
                        ));
                    }
                    match launch(&commands[2]) {
                        Ok(started) => Ok(started),
                        Err(third_cause) => {
                            assert(did_not_start(launch, url@, title@, 2)) by {
                                assert(call_ensures(
                                    launch,
                                    (&commands@[2],),
                                    Err::<(), String>(third_cause),
                                ));
                            }
                            Err(no_player_error(first_cause.as_str()))
                        },
                    }
                },
            }
        },
    }
}

} // verus!
