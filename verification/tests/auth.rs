use cce_lock::auth::{
    check, conversation_status, converse, preflight, service_files, AuthEvent, ConvData, Message,
    Readiness, Transaction, Verdict, PAM_SERVICE,
};
use cce_lock::pam::{PamReturnCode, PROMPT_ECHO_OFF, PROMPT_ECHO_ON};

fn run(codes: &[PamReturnCode]) -> Transaction {
    let mut tx = Transaction::Starting;
    for rc in codes {
        tx = check(tx, *rc);
    }
    tx
}

fn every_code() -> Vec<(PamReturnCode, &'static str)> {
    vec![
        (PamReturnCode::SUCCESS, "SUCCESS"),
        (PamReturnCode::OPEN_ERR, "OPEN_ERR"),
        (PamReturnCode::SYMBOL_ERR, "SYMBOL_ERR"),
        (PamReturnCode::SERVICE_ERR, "SERVICE_ERR"),
        (PamReturnCode::SYSTEM_ERR, "SYSTEM_ERR"),
        (PamReturnCode::BUF_ERR, "BUF_ERR"),
        (PamReturnCode::PERM_DENIED, "PERM_DENIED"),
        (PamReturnCode::AUTH_ERR, "AUTH_ERR"),
        (PamReturnCode::CRED_INSUFFICIENT, "CRED_INSUFFICIENT"),
        (PamReturnCode::AUTHINFO_UNAVAIL, "AUTHINFO_UNAVAIL"),
        (PamReturnCode::USER_UNKNOWN, "USER_UNKNOWN"),
        (PamReturnCode::MAXTRIES, "MAXTRIES"),
        (PamReturnCode::NEW_AUTHTOK_REQD, "NEW_AUTHTOK_REQD"),
        (PamReturnCode::ACCT_EXPIRED, "ACCT_EXPIRED"),
        (PamReturnCode::SESSION_ERR, "SESSION_ERR"),
        (PamReturnCode::CRED_UNAVAIL, "CRED_UNAVAIL"),
        (PamReturnCode::CRED_EXPIRED, "CRED_EXPIRED"),
        (PamReturnCode::CRED_ERR, "CRED_ERR"),
        (PamReturnCode::NO_MODULE_DATA, "NO_MODULE_DATA"),
        (PamReturnCode::CONV_ERR, "CONV_ERR"),
        (PamReturnCode::AUTHTOK_ERR, "AUTHTOK_ERR"),
        (PamReturnCode::AUTHTOK_RECOVERY_ERR, "AUTHTOK_RECOVERY_ERR"),
        (PamReturnCode::AUTHTOK_LOCK_BUSY, "AUTHTOK_LOCK_BUSY"),
        (PamReturnCode::AUTHTOK_DISABLE_AGING, "AUTHTOK_DISABLE_AGING"),
        (PamReturnCode::TRY_AGAIN, "TRY_AGAIN"),
        (PamReturnCode::IGNORE, "IGNORE"),
        (PamReturnCode::ABORT, "ABORT"),
        (PamReturnCode::AUTHTOK_EXPIRED, "AUTHTOK_EXPIRED"),
        (PamReturnCode::MODULE_UNKNOWN, "MODULE_UNKNOWN"),
        (PamReturnCode::BAD_ITEM, "BAD_ITEM"),
        (PamReturnCode::CONV_AGAIN, "CONV_AGAIN"),
        (PamReturnCode::INCOMPLETE, "INCOMPLETE"),
    ]
}

/// The one gate. If this ever admits a non-SUCCESS pair, the lock opens on a failed credential
/// check.
#[test]
fn only_success_on_both_calls_unlocks() {
    let ok = PamReturnCode::SUCCESS;
    let bad = PamReturnCode::AUTH_ERR;
    let other = PamReturnCode::ABORT;

    assert!(Verdict { authenticate: ok, acct_mgmt: ok }.is_success());
    assert!(!Verdict { authenticate: bad, acct_mgmt: ok }.is_success());
    assert!(!Verdict { authenticate: ok, acct_mgmt: bad }.is_success());
    assert!(!Verdict { authenticate: other, acct_mgmt: other }.is_success());
}

#[test]
fn a_wrong_password_says_so_without_leaking_the_stack() {
    let v = Verdict {
        authenticate: PamReturnCode::AUTH_ERR,
        acct_mgmt: PamReturnCode::AUTH_ERR,
    };
    assert_eq!(v.message(), "Incorrect password");
}

#[test]
fn other_failures_name_the_code() {
    let v = Verdict { authenticate: PamReturnCode::MAXTRIES, acct_mgmt: PamReturnCode::MAXTRIES };
    assert_eq!(v.message(), "Authentication failed (MAXTRIES)");
    let v = Verdict {
        authenticate: PamReturnCode::SUCCESS,
        acct_mgmt: PamReturnCode::ACCT_EXPIRED,
    };
    assert_eq!(v.message(), "Account unavailable (ACCT_EXPIRED)");
}

#[test]
fn codes_are_reported_by_their_names() {
    for (code, name) in every_code() {
        assert_eq!(code.name(), name);
        assert_eq!(format!("{:?}", code), name);
    }
}

#[test]
fn a_verdict_is_reported_as_an_event() {
    for (authenticate, _) in every_code() {
        for (acct_mgmt, _) in every_code() {
            let v = Verdict { authenticate, acct_mgmt };
            match v.event() {
                AuthEvent::Success => assert!(v.is_success()),
                AuthEvent::Failure { msg } => {
                    assert!(!v.is_success());
                    assert_eq!(msg, v.message());
                }
                AuthEvent::Info { .. } => panic!("a verdict is no information"),
            }
        }
    }
}

#[test]
fn a_check_succeeds_on_three_successes_only() {
    for (start, _) in every_code() {
        for (authenticate, _) in every_code() {
            for (acct_mgmt, _) in every_code() {
                let all = start == PamReturnCode::SUCCESS
                    && authenticate == PamReturnCode::SUCCESS
                    && acct_mgmt == PamReturnCode::SUCCESS;
                match run(&[start, authenticate, acct_mgmt]) {
                    Transaction::Done { verdict, .. } => assert_eq!(verdict.is_success(), all),
                    _ => panic!("undecided"),
                }
            }
        }
    }
}

#[test]
fn a_stack_that_will_not_start_vouches_for_no_one() {
    let rc = PamReturnCode::SERVICE_ERR;
    let tx = run(&[rc]);
    assert_eq!(
        tx,
        Transaction::Done { verdict: Verdict { authenticate: rc, acct_mgmt: rc }, end: None }
    );
    assert_eq!(tx.last(), None);
}

#[test]
fn the_handle_is_closed_with_the_last_code() {
    let ok = PamReturnCode::SUCCESS;
    assert_eq!(Transaction::Starting.last(), None);
    assert_eq!(run(&[ok]), Transaction::Authenticating);
    assert_eq!(run(&[ok]).last(), Some(ok));
    assert_eq!(run(&[ok, ok]), Transaction::Managing { authenticate: ok });
    assert_eq!(run(&[ok, PamReturnCode::AUTH_ERR]).last(), Some(PamReturnCode::AUTH_ERR));
    assert_eq!(run(&[ok, ok, PamReturnCode::ACCT_EXPIRED]).last(), Some(PamReturnCode::ACCT_EXPIRED));
}

#[test]
fn a_decided_check_stays_decided() {
    let ok = PamReturnCode::SUCCESS;
    let rejected = run(&[ok, PamReturnCode::AUTH_ERR]);
    assert_eq!(check(rejected, ok), rejected);
    assert_eq!(check(check(rejected, ok), ok), rejected);
}

#[test]
fn the_service_file_has_two_places() {
    assert_eq!(PAM_SERVICE, "cce-lock");
    assert_eq!(service_files(), vec!["/etc/pam.d/cce-lock", "/usr/lib/pam.d/cce-lock"]);
}

#[test]
fn preflight_refuses_without_a_service_file() {
    let said = "PAM service file /etc/pam.d/cce-lock is not installed — every password would be \
                rejected by the `other` fallback. Run: ccebuild install-system";
    assert_eq!(preflight(&vec![false, false], None), Err(said.to_string()));
    assert_eq!(preflight(&vec![], None), Err(said.to_string()));
    assert_eq!(
        preflight(&vec![false, false], Some(PamReturnCode::SUCCESS)),
        Err(said.to_string())
    );
}

#[test]
fn preflight_wants_the_stack_started() {
    assert_eq!(preflight(&vec![true, false], None), Ok(Readiness::TryStart));
    assert_eq!(preflight(&vec![false, true], None), Ok(Readiness::TryStart));
    assert_eq!(
        preflight(&vec![false, true], Some(PamReturnCode::SUCCESS)),
        Ok(Readiness::Ready)
    );
    assert_eq!(
        preflight(&vec![true, true], Some(PamReturnCode::ABORT)),
        Err(
            "PAM service \"cce-lock\" unavailable (ABORT) — is /etc/pam.d/cce-lock installed? \
             Run: ccebuild install-system"
                .to_string()
        )
    );
}

fn data(username: &str, password: &str) -> ConvData {
    ConvData { username: username.to_string(), password: password.to_string() }
}

fn message(style: i32, text: Option<&str>) -> Message {
    Message { style, text: text.map(|t| t.to_string()) }
}

#[test]
fn the_conversation_answers_each_message() {
    let messages = vec![
        message(PROMPT_ECHO_OFF, Some("Password: ")),
        message(PROMPT_ECHO_ON, Some("login: ")),
        message(3, Some("failed")),
        message(4, Some("wait")),
        message(4, None),
        message(99, Some("odd")),
    ];
    let responses = converse(&data("ada", "secret"), &messages);
    let replies: Vec<Option<&str>> = responses.iter().map(|r| r.reply.as_deref()).collect();
    let infos: Vec<Option<&str>> = responses.iter().map(|r| r.info.as_deref()).collect();
    assert_eq!(replies, vec![Some("secret"), Some("ada"), None, None, None, None]);
    assert_eq!(infos, vec![None, None, Some("failed"), Some("wait"), None, Some("odd")]);
}

#[test]
fn a_nul_in_the_password_yields_an_empty_answer() {
    let messages = vec![message(PROMPT_ECHO_OFF, None), message(PROMPT_ECHO_ON, None)];
    let responses = converse(&data("a\0b", "pass\0word"), &messages);
    assert_eq!(responses[0].reply.as_deref(), Some(""));
    assert_eq!(responses[1].reply.as_deref(), Some(""));
}

#[test]
fn a_conversation_has_a_status() {
    assert_eq!(conversation_status(true, 1, true), PamReturnCode::SUCCESS);
    assert_eq!(conversation_status(false, 1, true), PamReturnCode::CONV_ERR);
    assert_eq!(conversation_status(true, 0, true), PamReturnCode::CONV_ERR);
    assert_eq!(conversation_status(true, -3, false), PamReturnCode::CONV_ERR);
    assert_eq!(conversation_status(true, 2, false), PamReturnCode::BUF_ERR);
}
