use adachi_cube::commands::ask_content;
use adachi_cube::commands::ask_outcome;
use adachi_cube::commands::ask_reply;
use adachi_cube::commands::invite_message;
use adachi_cube::commands::invite_url;
use adachi_cube::commands::judgement_filename;
use adachi_cube::commands::sanitize_question;
use adachi_cube::commands::TransportError;

#[test]
fn sanitize_keeps_plain_question_and_adds_question_mark() {
    assert_eq!(sanitize_question("Is cake a lie"), "Is cake a lie?");
}

#[test]
fn sanitize_keeps_existing_question_mark() {
    assert_eq!(sanitize_question("Is cake a lie?"), "Is cake a lie?");
}

#[test]
fn sanitize_strips_backticks_and_mentions() {
    assert_eq!(sanitize_question("`rm @everyone"), "rm everyone?");
}

#[test]
fn sanitize_empty_question_is_a_bare_question_mark() {
    assert_eq!(sanitize_question(""), "?");
}

#[test]
fn sanitize_output_never_holds_banned_characters() {
    let inputs = ["`rm @everyone", "a`b@c?", "@@@", "``?``", "hello"];
    for input in inputs {
        let out = sanitize_question(input);
        assert!(!out.contains('`'), "backtick in {out:?}");
        assert!(!out.contains('@'), "at-sign in {out:?}");
        assert!(out.ends_with('?'), "no question mark in {out:?}");
    }
}

#[test]
fn filename_takes_extension_from_path() {
    assert_eq!(judgement_filename("pools/yes/a.mp4"), "judgement.mp4");
    assert_eq!(judgement_filename("clip.webm"), "judgement.webm");
}

#[test]
fn filename_defaults_to_mp4_without_extension() {
    assert_eq!(judgement_filename("pools/yes/clip"), "judgement.mp4");
    assert_eq!(judgement_filename("pools/y.es/clip"), "judgement.mp4");
    assert_eq!(judgement_filename("pools/yes/.hidden"), "judgement.mp4");
}

#[test]
fn ask_with_question_quotes_the_sanitized_echo() {
    let reply = ask_reply(&Some(String::from("Is cake a lie")), "pools/yes/a.mp4");
    assert_eq!(reply.content, "The Adachi cube has spoken: `Is cake a lie?`");
    assert_eq!(reply.filename, "judgement.mp4");
}

#[test]
fn ask_without_question_uses_the_fixed_line() {
    let reply = ask_reply(&None, "pools/no/b.mp4");
    assert_eq!(reply.content, "The Adachi cube has spoken.");
    assert_eq!(reply.filename, "judgement.mp4");
}

#[test]
fn ask_with_adversarial_question_is_sanitized_in_the_echo() {
    let content = ask_content(&Some(String::from("`rm @everyone")));
    assert_eq!(content, "The Adachi cube has spoken: `rm everyone?`");
    let body = &content["The Adachi cube has spoken: `".len()..content.len() - 1];
    assert!(!body.contains('`'));
    assert!(!body.contains('@'));
}

#[test]
fn failed_telemetry_after_sent_reply_keeps_the_command_successful() {
    let failed = TransportError { message: String::from("connection reset") };
    let outcome = ask_outcome(Ok(()), Some(Err(failed)));
    assert!(outcome.is_ok());
}

#[test]
fn failed_reply_is_the_command_outcome() {
    let failed = TransportError { message: String::from("connection reset") };
    let outcome = ask_outcome(Err(failed), None);
    assert_eq!(outcome.unwrap_err().message, "connection reset");
}

#[test]
fn invite_reply_holds_the_authorization_and_support_links() {
    assert_eq!(
        invite_url(80351110224678912),
        "https://discord.com/api/oauth2/authorize?client_id=80351110224678912&permissions=2048&scope=bot"
    );
    assert_eq!(
        invite_message(80351110224678912),
        "Invite Adachi Cube to your server: https://discord.com/api/oauth2/authorize?client_id=80351110224678912&permissions=2048&scope=bot\nJoin the support server: https://discord.gg/K2MDHBZr9j"
    );
}
