use std::cell::RefCell;
use watchtv::player::{build_player_commands, no_player_error, play_with, PlayerCommand};

#[test]
fn players_are_mpv_iina_vlc() {
    assert_eq!(
        build_player_commands("http://s/1", "One"),
        vec![
            PlayerCommand {
                program: "mpv".to_string(),
                args: vec![
                    "--title".to_string(),
                    "One".to_string(),
                    "--force-window=immediate".to_string(),
                    "--keep-open=no".to_string(),
                    "--no-terminal".to_string(),
                    "http://s/1".to_string(),
                ],
            },
            PlayerCommand {
                program: "iina".to_string(),
                args: vec!["--no-stdin".to_string(), "http://s/1".to_string()],
            },
            PlayerCommand {
                program: "/Applications/VLC.app/Contents/MacOS/VLC".to_string(),
                args: vec!["--no-video-title-show".to_string(), "http://s/1".to_string()],
            },
        ]
    );
}

#[test]
fn no_player_error_names_the_cause() {
    assert_eq!(
        no_player_error("not found"),
        "No compatible video player found. Please install mpv, IINA, or VLC. Error: not found"
    );
}

#[test]
fn first_player_that_starts_ends_the_search() {
    let tried = RefCell::new(Vec::new());
    let result = play_with("http://s/1", "One", |command| {
        tried.borrow_mut().push(command.program.clone());
        Ok(())
    });
    assert_eq!(result, Ok(()));
    assert_eq!(tried.into_inner(), vec!["mpv"]);
}

#[test]
fn later_players_are_tried_after_a_failure() {
    let tried = RefCell::new(Vec::new());
    let result = play_with("http://s/1", "One", |command| {
        tried.borrow_mut().push(command.program.clone());
        if command.program == "iina" {
            Ok(())
        } else {
            Err(format!("{} missing", command.program))
        }
    });
    assert_eq!(result, Ok(()));
    assert_eq!(tried.into_inner(), vec!["mpv", "iina"]);
}

#[test]
fn last_player_may_start() {
    let result = play_with("http://s/1", "One", |command| {
        if command.program.ends_with("VLC") {
            Ok(())
        } else {
            Err("missing".to_string())
        }
    });
    assert_eq!(result, Ok(()));
}

#[test]
fn error_names_the_cause_of_the_first_failure() {
    let tried = RefCell::new(Vec::new());
    let result = play_with("http://s/1", "One", |command| {
        tried.borrow_mut().push(command.program.clone());
        Err(format!("{} missing", command.program))
    });
    assert_eq!(
        result,
        Err("No compatible video player found. Please install mpv, IINA, or VLC. Error: mpv missing"
            .to_string())
    );
    assert_eq!(
        tried.into_inner(),
        vec!["mpv", "iina", "/Applications/VLC.app/Contents/MacOS/VLC"]
    );
}
