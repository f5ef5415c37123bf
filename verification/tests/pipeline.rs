use readsecret::method::{
    decrypt_finish, decrypt_start, gpg_command, CommandSpec, DecryptError, DecryptMethod,
    DecryptStep, RunOutcome,
};
use readsecret::source::{
    env_payload, file_payload, resolve_step, EnvOutcome, FileOutcome, ResolveAction, ResolveError,
    SecretType,
};
use readsecret::text::strip_last_char;

#[test]
fn literal_resolves_to_itself() {
    let action = resolve_step(SecretType::Literal("El Psy Kongaroo".to_string()));
    match action {
        ResolveAction::UsePayload(v) => assert_eq!(v, "El Psy Kongaroo"),
        _ => panic!("a literal source needs no lookup or read"),
    }
}

#[test]
fn env_source_asks_for_its_variable() {
    let action = resolve_step(SecretType::Env("SOME_VAR".to_string()));
    match action {
        ResolveAction::LookupEnv(name) => assert_eq!(name, "SOME_VAR"),
        _ => panic!("an environment source needs its variable looked up"),
    }
}

#[test]
fn file_source_asks_for_its_path() {
    let action = resolve_step(SecretType::File("tests/pass_0".to_string()));
    match action {
        ResolveAction::ReadFile(path) => assert_eq!(path, "tests/pass_0"),
        _ => panic!("a file source needs its file read"),
    }
}

#[test]
fn env_value_passes_through_exactly() {
    let r = env_payload(EnvOutcome::Value("0.1.0".to_string()));
    assert_eq!(r, Ok("0.1.0".to_string()));
}

#[test]
fn unset_env_fails_not_found() {
    let r = env_payload(EnvOutcome::Unset);
    assert_eq!(r, Err(ResolveError::NotFound));
}

#[test]
fn non_text_env_fails_invalid_encoding() {
    let r = env_payload(EnvOutcome::NotText);
    assert_eq!(r, Err(ResolveError::InvalidEncoding));
}

#[test]
fn file_contents_pass_through_exactly() {
    let r = file_payload(FileOutcome::Data("El Psy Kongaroo".as_bytes().to_vec()));
    assert_eq!(r, Ok("El Psy Kongaroo".to_string()));
}

#[test]
fn file_contents_are_not_trimmed() {
    let r = file_payload(FileOutcome::Data("  spaced \n".as_bytes().to_vec()));
    assert_eq!(r, Ok("  spaced \n".to_string()));
}

#[test]
fn missing_file_fails_not_found() {
    let r = file_payload(FileOutcome::NotFound);
    assert_eq!(r, Err(ResolveError::NotFound));
}

#[test]
fn unreadable_file_fails_permission_denied() {
    let r = file_payload(FileOutcome::PermissionDenied);
    assert_eq!(r, Err(ResolveError::PermissionDenied));
}

#[test]
fn other_read_failure_fails_io_error() {
    let r = file_payload(FileOutcome::OtherFailure);
    assert_eq!(r, Err(ResolveError::IOError));
}

#[test]
fn non_text_file_fails_invalid_encoding() {
    let r = file_payload(FileOutcome::Data(vec![0xc3, 0x28]));
    assert_eq!(r, Err(ResolveError::InvalidEncoding));
}

#[test]
fn identity_decrypt_returns_payload() {
    let step = decrypt_start("El Psy Kongaroo".to_string(), DecryptMethod::Identity);
    match step {
        DecryptStep::Finished(text) => assert_eq!(text, "El Psy Kongaroo"),
        DecryptStep::Run(_) => panic!("the identity method runs no command"),
    }
}

#[test]
fn gpg_method_runs_the_builtin_command() {
    let step = decrypt_start("ciphertext".to_string(), DecryptMethod::GPG);
    match step {
        DecryptStep::Run(req) => {
            assert_eq!(req.command.program, "gpg");
            assert_eq!(req.command.args, vec!["--no-tty", "-q", "-d", "-a"]);
            assert_eq!(req.payload, "ciphertext");
            assert!(req.strip_trailing);
        },
        DecryptStep::Finished(_) => panic!("the gpg method must run a command"),
    }
}

#[test]
fn gpg_command_shape() {
    let c = gpg_command();
    assert_eq!(c.program, "gpg");
    assert_eq!(c.args, vec!["--no-tty", "-q", "-d", "-a"]);
}

#[test]
fn custom_method_runs_the_callers_command() {
    let command = CommandSpec {
        program: "wc".to_string(),
        args: vec!["-c".to_string()],
    };
    let step = decrypt_start("El Psy Kongaroo".to_string(), DecryptMethod::Custom(command));
    match step {
        DecryptStep::Run(req) => {
            assert_eq!(req.command.program, "wc");
            assert_eq!(req.command.args, vec!["-c"]);
            assert_eq!(req.payload, "El Psy Kongaroo");
            assert!(!req.strip_trailing);
        },
        DecryptStep::Finished(_) => panic!("a custom method must run its command"),
    }
}

#[test]
fn byte_count_output_returned_verbatim() {
    // a byte-count command fed "El Psy Kongaroo" writes "15\n"
    let r = decrypt_finish(false, RunOutcome::Output("15\n".as_bytes().to_vec()));
    assert_eq!(r, Ok("15\n".to_string()));
}

#[test]
fn copying_command_round_trips() {
    let r = decrypt_finish(false, RunOutcome::Output("El Psy Kongaroo".as_bytes().to_vec()));
    assert_eq!(r, Ok("El Psy Kongaroo".to_string()));
}

#[test]
fn gpg_output_loses_trailing_newline() {
    let r = decrypt_finish(true, RunOutcome::Output("El Psy Kongaroo\n".as_bytes().to_vec()));
    assert_eq!(r, Ok("El Psy Kongaroo".to_string()));
}

#[test]
fn gpg_output_loses_final_character_even_without_newline() {
    let r = decrypt_finish(true, RunOutcome::Output("ab".as_bytes().to_vec()));
    assert_eq!(r, Ok("a".to_string()));
}

#[test]
fn gpg_empty_output_stays_empty() {
    let r = decrypt_finish(true, RunOutcome::Output(Vec::new()));
    assert_eq!(r, Ok(String::new()));
}

#[test]
fn spawn_failure_is_reported() {
    let r = decrypt_finish(false, RunOutcome::SpawnFailed);
    assert_eq!(r, Err(DecryptError::SpawnFailed));
}

#[test]
fn pipe_failure_is_reported_as_io_error() {
    let r = decrypt_finish(true, RunOutcome::PipeFailed);
    assert_eq!(r, Err(DecryptError::IOError));
}

#[test]
fn non_text_output_fails_invalid_encoding() {
    let r = decrypt_finish(false, RunOutcome::Output(vec![0xff, 0xfe]));
    assert_eq!(r, Err(DecryptError::InvalidEncoding));
}

#[test]
fn strip_last_char_drops_one_character() {
    assert_eq!(strip_last_char("15\n"), "15");
    assert_eq!(strip_last_char("x"), "");
    assert_eq!(strip_last_char(""), "");
}
