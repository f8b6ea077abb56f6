//! Credential checking: what each PAM call leads to, and what the user is told.
//!
//! The check is the smallest one that can answer "is this the person who owns this session":
//! authenticate, then account management, and nothing else. No session is opened, since the
//! session being guarded already exists.

use vstd::prelude::*;

use crate::pam;
use crate::pam::PamReturnCode;
use crate::text;

verus! {

/// The PAM service that is asked.
///
/// A constant, never an environment variable or an argument: a locker whose PAM stack can be
/// chosen by its caller can be pointed at a permissive service.
pub const PAM_SERVICE: &'static str = "cce-lock";

/// What a credential check reports back to the screen.
pub enum AuthEvent {
    /// The credentials were accepted. The only value that may unlock.
    Success,
    /// They were rejected, or the check failed. The message is for the user.
    Failure { msg: String },
    /// The stack said something while it ran.
    Info { msg: String },
}

/// The codes of the two calls on which a check is decided.
#[derive(Clone, Copy, Debug, PartialEq, Eq, Structural)]
pub struct Verdict {
    pub authenticate: PamReturnCode,
    pub acct_mgmt: PamReturnCode,
}

impl Verdict {
    /// Whether both calls returned `SUCCESS`.
    pub open spec fn spec_is_success(self) -> bool {
        self.authenticate == PamReturnCode::SUCCESS && self.acct_mgmt == PamReturnCode::SUCCESS
    }

    /// What the user is told.
    pub open spec fn spec_message(self) -> Seq<char> {
        if self.authenticate == PamReturnCode::AUTH_ERR {
            "Incorrect password"@
        } else if self.authenticate != PamReturnCode::SUCCESS {
            "Authentication failed ("@ + self.authenticate.spec_name() + ")"@
        } else {
            "Account unavailable ("@ + self.acct_mgmt.spec_name() + ")"@
        }
    }

    /// Whether an event is the one that tells this outcome: `Success` exactly when both calls
    /// succeeded, else a failure with the message.
    pub open spec fn told_by(self, event: AuthEvent) -> bool {
        if self.spec_is_success() {
            event == AuthEvent::Success
        } else {
            event matches AuthEvent::Failure { msg } && msg@ == self.spec_message()
        }
    }

    /// True only when both calls returned `SUCCESS`.
    ///
    /// The single place an unlock can be authorized. Every other outcome is a failure, because a
    /// locker that opens on anything it does not understand is not a lock.
    pub fn is_success(&self) -> (b: bool)
        ensures
            b == self.spec_is_success(),
    {
        self.authenticate == PamReturnCode::SUCCESS && self.acct_mgmt == PamReturnCode::SUCCESS
    }

    /// What to show the user. A wrong password gets one plain sentence that says nothing of the
    /// stack.
    pub fn message(&self) -> (msg: String)
        ensures
            msg@ == self.spec_message(),
    {
        if self.authenticate == PamReturnCode::AUTH_ERR {
            "Incorrect password".to_owned()
        } else if self.authenticate != PamReturnCode::SUCCESS {
            "Authentication failed (".to_owned().concat(self.authenticate.name()).concat(")")
        } else {
            "Account unavailable (".to_owned().concat(self.acct_mgmt.name()).concat(")")
        }
    }

    /// The event that tells the outcome: `Success` exactly when both calls succeeded, else a
    /// failure with the message.
    pub fn event(&self) -> (event: AuthEvent)
        ensures
            self.told_by(event),
    {
        if self.is_success() {
            AuthEvent::Success
        } else {
            AuthEvent::Failure { msg: self.message() }
        }
    }
}

/// An outcome is a success exactly when both calls returned `SUCCESS`; any other code in either
/// place makes it a failure, and the event that tells it is then no `Success`.
pub proof fn only_two_successes_succeed(v: Verdict, event: AuthEvent)
    requires
        v.told_by(event),
    ensures
        v.spec_is_success() <==> v.authenticate == PamReturnCode::SUCCESS && v.acct_mgmt
            == PamReturnCode::SUCCESS,
        event is Success <==> v.authenticate == PamReturnCode::SUCCESS && v.acct_mgmt
            == PamReturnCode::SUCCESS,
        !(event is Success) ==> (event matches AuthEvent::Failure { msg } && msg@
            == v.spec_message()),
{
}

/// A wrong password is answered with the same sentence whatever else is known of the account, and
/// every other failure names the code of the call that failed.
pub proof fn message_tells_what_failed(v: Verdict, acct_mgmt: PamReturnCode)
    ensures
        v.authenticate == PamReturnCode::AUTH_ERR ==> v.spec_message() == "Incorrect password"@
            && (Verdict { acct_mgmt, ..v }).spec_message() == v.spec_message(),
        v.authenticate != PamReturnCode::AUTH_ERR && v.authenticate != PamReturnCode::SUCCESS
            ==> v.spec_message() == "Authentication failed ("@ + v.authenticate.spec_name() + ")"@,
        v.authenticate == PamReturnCode::SUCCESS ==> v.spec_message() == "Account unavailable ("@
            + v.acct_mgmt.spec_name() + ")"@,
{
}

/// How far a credential check has come, which is also the PAM call that it waits for.
#[derive(Clone, Copy, Debug, PartialEq, Eq, Structural)]
pub enum Transaction {
    /// Waits for `pam_start`.
    Starting,
    /// Waits for `pam_authenticate`.
    Authenticating,
    /// Waits for `pam_acct_mgmt`.
    Managing { authenticate: PamReturnCode },
    /// Decided. `end` is the status to close the handle with, if one was ever opened.
    Done { verdict: Verdict, end: Option<PamReturnCode> },
}

impl Transaction {
    /// The status with which the handle is closed, `None` while there is no handle.
    pub open spec fn spec_last(self) -> Option<PamReturnCode> {
        match self {
            Transaction::Starting => None,
            Transaction::Authenticating => Some(PamReturnCode::SUCCESS),
            Transaction::Managing { authenticate } => Some(authenticate),
            Transaction::Done { verdict, end } => end,
        }
    }

    /// The status with which the handle is to be closed if the transaction is dropped now: the
    /// code of the last call made on it. `None` while there is no handle.
    pub fn last(&self) -> (status: Option<PamReturnCode>)
        ensures
            status == self.spec_last(),
    {
        match self {
            Transaction::Starting => None,
            Transaction::Authenticating => Some(PamReturnCode::SUCCESS),
            Transaction::Managing { authenticate } => Some(*authenticate),
            Transaction::Done { verdict: _, end } => *end,
        }
    }
}

/// Where a check stands once the call it waited for has returned `rc`.
///
/// A stack that will not start cannot vouch for anyone, so its code stands for both calls; so does
/// that of a failed authentication.
pub open spec fn check_step(tx: Transaction, rc: PamReturnCode) -> Transaction {
    match tx {
        Transaction::Starting => if rc == PamReturnCode::SUCCESS {
            Transaction::Authenticating
        } else {
            Transaction::Done { verdict: Verdict { authenticate: rc, acct_mgmt: rc }, end: None }
        },
        Transaction::Authenticating => if rc == PamReturnCode::SUCCESS {
            Transaction::Managing { authenticate: rc }
        } else {
            Transaction::Done { verdict: Verdict { authenticate: rc, acct_mgmt: rc }, end: Some(rc) }
        },
        Transaction::Managing { authenticate } => Transaction::Done {
            verdict: Verdict { authenticate, acct_mgmt: rc },
            end: Some(rc),
        },
        Transaction::Done { verdict, end } => tx,
    }
}

/// Carries a check on by the code of the call it waited for. A decided check stays decided.
pub fn check(tx: Transaction, rc: PamReturnCode) -> (next: Transaction)
    ensures
        next == check_step(tx, rc),
{
    match tx {
        Transaction::Starting => {
            if rc == PamReturnCode::SUCCESS {
                Transaction::Authenticating
            } else {
                Transaction::Done { verdict: Verdict { authenticate: rc, acct_mgmt: rc }, end: None }
            }
        },
        Transaction::Authenticating => {
            if rc == PamReturnCode::SUCCESS {
                Transaction::Managing { authenticate: rc }
            } else {
                Transaction::Done {
                    verdict: Verdict { authenticate: rc, acct_mgmt: rc },
                    end: Some(rc),
                }
            }
        },
        Transaction::Managing { authenticate } => {
            Transaction::Done { verdict: Verdict { authenticate, acct_mgmt: rc }, end: Some(rc) }
        },
        Transaction::Done { verdict, end } => Transaction::Done { verdict, end },
    }
}

/// Where a check stands after the calls that returned `codes`, in order.
pub open spec fn check_run(codes: Seq<PamReturnCode>) -> Transaction
    decreases codes.len(),
{
    if codes.len() == 0 {
        Transaction::Starting
    } else {
        check_step(check_run(codes.drop_last()), codes.last())
    }
}

/// A check ends in success exactly when the first three calls, `pam_start`, `pam_authenticate`
/// and `pam_acct_mgmt`, all returned `SUCCESS`, whatever else is reported to it.
pub proof fn success_needs_every_call(codes: Seq<PamReturnCode>)
    ensures
        (check_run(codes) matches Transaction::Done { verdict, end } && verdict.spec_is_success())
            <==> (codes.len() >= 3 && codes[0] == PamReturnCode::SUCCESS && codes[1]
            == PamReturnCode::SUCCESS && codes[2] == PamReturnCode::SUCCESS),
    decreases codes.len(),
{
    if codes.len() > 3 {
        success_needs_every_call(codes.drop_last());
        check_is_over_after_three_calls(codes.drop_last());
    } else {
        reveal_with_fuel(check_run, 4);
    }
}

/// A check makes at most three calls: once three codes are in, it is decided, and it stays so.
pub proof fn check_is_over_after_three_calls(codes: Seq<PamReturnCode>)
    requires
        codes.len() >= 3,
    ensures
        check_run(codes) is Done,
        check_run(codes) == check_run(codes.take(3)),
    decreases codes.len(),
{
    if codes.len() > 3 {
        check_is_over_after_three_calls(codes.drop_last());
        assert(codes.drop_last().take(3) =~= codes.take(3));
    } else {
        assert(codes.take(3) =~= codes);
        reveal_with_fuel(check_run, 4);
    }
}

/// A check goes on as long as every call succeeds, and the first call that fails decides it: its
/// code is the one that is told, in both places unless authentication had succeeded.
pub proof fn first_failure_is_told(codes: Seq<PamReturnCode>)
    ensures
        codes.len() == 0 ==> check_run(codes) == Transaction::Starting,
        codes.len() >= 1 && codes[0] != PamReturnCode::SUCCESS ==> (check_run(
            codes,
        ) matches Transaction::Done { verdict, end } && verdict.authenticate == codes[0]
            && verdict.acct_mgmt == codes[0]),
        codes.len() == 1 && codes[0] == PamReturnCode::SUCCESS ==> check_run(codes)
            == Transaction::Authenticating,
        codes.len() >= 2 && codes[0] == PamReturnCode::SUCCESS && codes[1]
            != PamReturnCode::SUCCESS ==> (check_run(codes) matches Transaction::Done {
            verdict,
            end,
        } && verdict.authenticate == codes[1] && verdict.acct_mgmt == codes[1]),
        codes.len() == 2 && codes[0] == PamReturnCode::SUCCESS && codes[1]
            == PamReturnCode::SUCCESS ==> check_run(codes) is Managing,
        codes.len() >= 3 && codes[0] == PamReturnCode::SUCCESS && codes[1]
            == PamReturnCode::SUCCESS ==> (check_run(codes) matches Transaction::Done {
            verdict,
            end,
        } && verdict.authenticate == PamReturnCode::SUCCESS && verdict.acct_mgmt == codes[2]),
    decreases codes.len(),
{
    if codes.len() > 3 {
        first_failure_is_told(codes.drop_last());
    } else {
        reveal_with_fuel(check_run, 4);
    }
}

/// A check that is decided takes no further call: it stays as it is, verdict and closing status,
/// whatever comes.
pub proof fn decided_is_decided(tx: Transaction, rc: PamReturnCode)
    requires
        tx is Done,
    ensures
        check_step(tx, rc) == tx,
        check_step(tx, rc).spec_last() == tx->end,
{
}

/// Every call counts, wherever a check stands: a call that fails ends the check as a failure, the
/// last call ends it in any case, and what an earlier call returned is not forgotten. A check that
/// is dropped closes its handle with the code of the last call made on it.
pub proof fn every_call_counts(tx: Transaction, rc: PamReturnCode, authenticate: PamReturnCode)
    ensures
        tx !is Done && rc != PamReturnCode::SUCCESS ==> (check_step(
            tx,
            rc,
        ) matches Transaction::Done { verdict, end } && !verdict.spec_is_success()
            && verdict.acct_mgmt == rc),
        tx is Authenticating && rc != PamReturnCode::SUCCESS ==> check_step(tx, rc).spec_last()
            == Some(rc),
        tx is Starting && rc != PamReturnCode::SUCCESS ==> check_step(tx, rc).spec_last() is None,
        tx == (Transaction::Managing { authenticate }) ==> {
            &&& tx.spec_last() == Some(authenticate)
            &&& (check_step(tx, rc) matches Transaction::Done { verdict, end }
                && verdict.authenticate == authenticate && verdict.acct_mgmt == rc && end == Some(
                rc,
            ))
        },
        tx is Starting ==> tx.spec_last() is None,
        tx is Authenticating ==> tx.spec_last() == Some(PamReturnCode::SUCCESS),
{
}

/// No handle outlives a check: there is one to close exactly when `pam_start` returned `SUCCESS`,
/// and it is closed with the code of the last call that was made.
pub proof fn handle_is_closed_with_the_last_code(codes: Seq<PamReturnCode>)
    requires
        codes.len() > 0,
        check_run(codes.drop_last()) !is Done,
    ensures
        check_run(codes).spec_last() == (if codes[0] == PamReturnCode::SUCCESS {
            Some(codes.last())
        } else {
            None
        }),
{
    if codes.len() > 3 {
        check_is_over_after_three_calls(codes.drop_last());
    }
    reveal_with_fuel(check_run, 4);
}

/// The directories in which a PAM service file may lie.
pub open spec fn service_dirs() -> Seq<Seq<char>> {
    seq!["/etc/pam.d"@, "/usr/lib/pam.d"@]
}

/// The paths at which the service file is looked for, in order.
pub fn service_files() -> (paths: Vec<String>)
    ensures
        paths@.len() == service_dirs().len(),
        forall|i: int|
            0 <= i < paths@.len() ==> (#[trigger] paths@[i])@ == service_dirs()[i] + "/"@
                + PAM_SERVICE@,
{
    let mut paths: Vec<String> = Vec::new();
    paths.push("/etc/pam.d".to_owned().concat("/").concat(PAM_SERVICE));
    paths.push("/usr/lib/pam.d".to_owned().concat("/").concat(PAM_SERVICE));
    paths
}

/// What the preflight asks for.
#[derive(Clone, Copy, Debug, PartialEq, Eq, Structural)]
pub enum Readiness {
    /// The service file is there: try to start the stack, with an empty password.
    TryStart,
    /// The stack has started: the session may be locked.
    Ready,
}

/// Whether a service file was found anywhere.
pub open spec fn any_found(found: Seq<bool>) -> bool {
    exists|i: int| 0 <= i < found.len() && found[i]
}

/// What is said when no service file is installed.
pub open spec fn missing_message() -> Seq<char> {
    "PAM service file /etc/pam.d/"@ + PAM_SERVICE@
        + " is not installed — every password would be rejected by the `other` fallback. Run: ccebuild install-system"@
}

/// What is said when the stack does not start.
pub open spec fn unavailable_message(rc: PamReturnCode) -> Seq<char> {
    "PAM service \""@ + PAM_SERVICE@ + "\" unavailable ("@ + rc.spec_name()
        + ") — is /etc/pam.d/"@ + PAM_SERVICE@ + " installed? Run: ccebuild install-system"@
}

/// What the preflight answers.
pub open spec fn readiness(found: Seq<bool>, start: Option<PamReturnCode>) -> Result<
    Readiness,
    Seq<char>,
> {
    if !any_found(found) {
        Err(missing_message())
    } else {
        match start {
            None => Ok(Readiness::TryStart),
            Some(rc) => if rc == PamReturnCode::SUCCESS {
                Ok(Readiness::Ready)
            } else {
                Err(unavailable_message(rc))
            },
        }
    }
}

/// The session may be locked exactly when a service file lies somewhere and the stack has started;
/// the start is asked for exactly when there is a file and it was not tried; and a stack that did
/// not start is told by its code, between words that are the same for every code.
pub proof fn ready_means_started(found: Seq<bool>, start: Option<PamReturnCode>)
    ensures
        readiness(found, start) == Ok::<Readiness, Seq<char>>(Readiness::Ready) <==> found.contains(
            true,
        ) && start == Some(PamReturnCode::SUCCESS),
        readiness(found, start) == Ok::<Readiness, Seq<char>>(Readiness::TryStart)
            <==> found.contains(true) && start is None,
        !found.contains(true) ==> readiness(found, start) == Err::<Readiness, Seq<char>>(
            "PAM service file /etc/pam.d/"@ + "cce-lock"@
                + " is not installed — every password would be rejected by the `other` fallback. Run: ccebuild install-system"@,
        ),
        found.contains(true) ==> (start matches Some(rc) ==> rc != PamReturnCode::SUCCESS ==> readiness(
            found,
            start,
        ) == Err::<Readiness, Seq<char>>(
            "PAM service \""@ + "cce-lock"@ + "\" unavailable ("@ + rc.spec_name()
                + ") — is /etc/pam.d/"@ + "cce-lock"@
                + " installed? Run: ccebuild install-system"@,
        )),
{
    if any_found(found) {
        let i = choose|i: int| 0 <= i < found.len() && found[i];
        assert(found.contains(true));
    }
    if found.contains(true) {
        let i = choose|i: int| 0 <= i < found.len() && found[i] == true;
        assert(found[i]);
    }
}

/// Where a service file lies does not matter, nor does another place without one.
pub proof fn any_place_will_do(before: Seq<bool>, after: Seq<bool>)
    ensures
        any_found(before + seq![true] + after),
        any_found(before + seq![false] + after) == any_found(before + after),
        !any_found(Seq::empty()),
{
    let with = before + seq![true] + after;
    assert(with[before.len() as int]);
    let s = before + seq![false] + after;
    let t = before + after;
    if any_found(s) {
        let i = choose|i: int| 0 <= i < s.len() && s[i];
        if i < before.len() {
            assert(t[i]);
        } else {
            assert(t[i - 1]);
        }
    }
    if any_found(t) {
        let i = choose|i: int| 0 <= i < t.len() && t[i];
        if i < before.len() {
            assert(s[i]);
        } else {
            assert(s[i + 1]);
        }
    }
}

/// Proves that the PAM stack can be started, before the session is locked.
///
/// `found` says of each path of [`service_files`] whether a regular file lies there, and `start`
/// is the code of starting the stack, `None` as long as that was not tried. Looking for the file
/// is not idle: with none, libpam falls back to the `other` service, which starts and then rejects
/// every password. So without a file the start is never asked for.
pub fn preflight(found: &Vec<bool>, start: Option<PamReturnCode>) -> (r: Result<Readiness, String>)
    ensures
        match r {
            Ok(Readiness::TryStart) => any_found(found@) && start is None,
            Ok(Readiness::Ready) => any_found(found@) && start == Some(PamReturnCode::SUCCESS),
            Err(msg) => if any_found(found@) {
                &&& start matches Some(rc)
                &&& rc != PamReturnCode::SUCCESS
                &&& msg@ == unavailable_message(rc)
            } else {
                msg@ == missing_message()
            },
        },
        match r {
            Ok(ready) => Ok(ready),
            Err(msg) => Err(msg@),
        } == readiness(found@, start),
{
    let mut installed: bool = false;
    for i in 0..found.len()
        invariant
            installed == exists|k: int| 0 <= k < i && found@[k],
    {
        if found[i] {
            installed = true;
        }
    }
    if !installed {
        return Err(
            "PAM service file /etc/pam.d/".to_owned().concat(PAM_SERVICE).concat(
                " is not installed — every password would be rejected by the `other` fallback. Run: ccebuild install-system",
            ),
        );
    }
    match start {
        None => Ok(Readiness::TryStart),
        Some(rc) => {
            if rc == PamReturnCode::SUCCESS {
                Ok(Readiness::Ready)
            } else {
                Err(
                    "PAM service \"".to_owned().concat(PAM_SERVICE).concat("\" unavailable (").concat(
                        rc.name(),
                    ).concat(") — is /etc/pam.d/").concat(PAM_SERVICE).concat(
                        " installed? Run: ccebuild install-system",
                    ),
                )
            }
        },
    }
}

/// Everything the conversation is allowed to see.
pub struct ConvData {
    pub username: String,
    pub password: String,
}

/// A message of the PAM stack. The text is `None` where the stack gave no text at all.
pub struct Message {
    pub style: i32,
    pub text: Option<String>,
}

/// What becomes of one message: at most one of the two is there.
pub struct Response {
    /// What is handed back to the stack.
    pub reply: Option<String>,
    /// What is shown to the user.
    pub info: Option<String>,
}

/// What is handed back for a message of the given style: the password for a prompt that does not
/// echo, the user's name for one that does.
pub open spec fn reply_to(data: ConvData, style: i32) -> Option<Seq<char>> {
    if style == pam::PROMPT_ECHO_OFF {
        Some(text::c_text(data.password@))
    } else if style == pam::PROMPT_ECHO_ON {
        Some(text::c_text(data.username@))
    } else {
        None
    }
}

/// What is shown of a message: its text, unless it is a prompt.
pub open spec fn info_of(message: Message) -> Option<Seq<char>> {
    if message.style == pam::PROMPT_ECHO_OFF || message.style == pam::PROMPT_ECHO_ON {
        None
    } else {
        text::view_of(message.text)
    }
}

/// The password answers prompts that do not echo, and nothing else: no other answer depends on it.
pub proof fn password_answers_silent_prompts_only(data: ConvData, other: ConvData, style: i32)
    requires
        data.username@ == other.username@,
        style != pam::PROMPT_ECHO_OFF,
    ensures
        reply_to(data, style) == reply_to(other, style),
{
}

/// Whether the responses are those of the conversation: one for each message, in order.
pub open spec fn conversed(
    data: ConvData,
    messages: Seq<Message>,
    responses: Seq<Response>,
) -> bool {
    &&& responses.len() == messages.len()
    &&& forall|i: int|
        #![trigger responses[i]]
        0 <= i < messages.len() ==> {
            &&& text::view_of(responses[i].reply) == reply_to(data, messages[i].style)
            &&& text::view_of(responses[i].info) == info_of(messages[i])
        }
}

/// A prompt that does not echo is answered with the password and nothing but the password: every
/// character of it in its place, however long it is. Only a NUL inside it leaves the answer empty.
/// Nothing of such a prompt is shown.
pub proof fn silent_prompt_gets_the_password(
    data: ConvData,
    messages: Seq<Message>,
    responses: Seq<Response>,
    i: int,
)
    requires
        conversed(data, messages, responses),
        0 <= i < messages.len(),
        messages[i].style == 1,
    ensures
        responses[i].reply is Some,
        responses[i].info is None,
        !data.password@.contains('\0') ==> {
            &&& responses[i].reply->0@ == data.password@
            &&& responses[i].reply->0@.len() == data.password@.len()
            &&& forall|k: int|
                0 <= k < data.password@.len() ==> responses[i].reply->0@[k] == data.password@[k]
        },
        data.password@.contains('\0') ==> responses[i].reply->0@.len() == 0,
{
    assert(text::view_of(responses[i].reply) == reply_to(data, messages[i].style));
}

/// A prompt that echoes is answered with the user's name, whole in the same way, and never with
/// the password. Nothing of such a prompt is shown.
pub proof fn echoing_prompt_gets_the_name(
    data: ConvData,
    messages: Seq<Message>,
    responses: Seq<Response>,
    i: int,
)
    requires
        conversed(data, messages, responses),
        0 <= i < messages.len(),
        messages[i].style == 2,
    ensures
        responses[i].reply is Some,
        responses[i].info is None,
        !data.username@.contains('\0') ==> {
            &&& responses[i].reply->0@ == data.username@
            &&& responses[i].reply->0@.len() == data.username@.len()
            &&& forall|k: int|
                0 <= k < data.username@.len() ==> responses[i].reply->0@[k] == data.username@[k]
        },
        data.username@.contains('\0') ==> responses[i].reply->0@.len() == 0,
{
    assert(text::view_of(responses[i].reply) == reply_to(data, messages[i].style));
}

/// A message that is no prompt is not answered, and its whole text is shown, if it has any.
pub proof fn other_messages_are_shown(
    data: ConvData,
    messages: Seq<Message>,
    responses: Seq<Response>,
    i: int,
)
    requires
        conversed(data, messages, responses),
        0 <= i < messages.len(),
        messages[i].style != 1,
        messages[i].style != 2,
    ensures
        responses[i].reply is None,
        responses[i].info is Some <==> messages[i].text is Some,
        messages[i].text is Some ==> responses[i].info->0@ == messages[i].text->0@,
{
    assert(text::view_of(responses[i].reply) == reply_to(data, messages[i].style));
    assert(text::view_of(responses[i].info) == info_of(messages[i]));
}

/// Every message gets its own response, whatever other messages there are: two conversations that
/// have a message in common answer it alike.
pub proof fn messages_are_answered_one_by_one(
    data: ConvData,
    messages: Seq<Message>,
    responses: Seq<Response>,
    others: Seq<Message>,
    replies: Seq<Response>,
    i: int,
    j: int,
)
    requires
        conversed(data, messages, responses),
        conversed(data, others, replies),
        0 <= i < messages.len(),
        0 <= j < others.len(),
        messages[i] == others[j],
    ensures
        responses.len() == messages.len(),
        responses[i].reply is Some <==> replies[j].reply is Some,
        responses[i].reply is Some ==> responses[i].reply->0@ == replies[j].reply->0@,
        responses[i].info is Some <==> replies[j].info is Some,
        responses[i].info is Some ==> responses[i].info->0@ == replies[j].info->0@,
{
    assert(text::view_of(responses[i].reply) == text::view_of(replies[j].reply));
    assert(text::view_of(responses[i].info) == text::view_of(replies[j].info));
}

/// The status of a conversation.
pub open spec fn status_of(has_data: bool, num_msg: i32, allocated: bool) -> PamReturnCode {
    if !has_data || num_msg <= 0 {
        PamReturnCode::CONV_ERR
    } else if !allocated {
        PamReturnCode::BUF_ERR
    } else {
        PamReturnCode::SUCCESS
    }
}

/// A conversation goes on exactly when there is something to answer from, something to answer, and
/// room for the answers, however many there are; and the lack of room is told only where there was
/// something to answer.
pub proof fn conversation_needs_three_things(has_data: bool, num_msg: i32, allocated: bool)
    ensures
        status_of(has_data, num_msg, allocated) == PamReturnCode::SUCCESS <==> has_data && num_msg
            >= 1 && allocated,
        status_of(has_data, num_msg, allocated) == PamReturnCode::BUF_ERR <==> has_data && num_msg
            >= 1 && !allocated,
        status_of(has_data, num_msg, allocated) == PamReturnCode::CONV_ERR <==> !(has_data
            && num_msg >= 1),
{
}

/// The status of a conversation of `num_msg` messages: an error where there is nothing to answer
/// from or nothing to answer, or no room for the answers.
pub fn conversation_status(has_data: bool, num_msg: i32, allocated: bool) -> (status: PamReturnCode)
    ensures
        status == (if !has_data || num_msg <= 0 {
            PamReturnCode::CONV_ERR
        } else if !allocated {
            PamReturnCode::BUF_ERR
        } else {
            PamReturnCode::SUCCESS
        }),
        status == status_of(has_data, num_msg, allocated),
{
    if !has_data || num_msg <= 0 {
        PamReturnCode::CONV_ERR
    } else if !allocated {
        PamReturnCode::BUF_ERR
    } else {
        PamReturnCode::SUCCESS
    }
}

/// The PAM conversation: answers each message in turn.
///
/// Total, since it is called from C: a NUL inside the typed password yields an empty answer, which
/// just fails the attempt.
pub fn converse(data: &ConvData, messages: &Vec<Message>) -> (responses: Vec<Response>)
    ensures
        responses@.len() == messages@.len(),
        forall|i: int|
            #![trigger responses@[i]]
            0 <= i < messages@.len() ==> {
                &&& text::view_of(responses@[i].reply) == reply_to(*data, messages@[i].style)
                &&& text::view_of(responses@[i].info) == info_of(messages@[i])
            },
        conversed(*data, messages@, responses@),
        forall|i: int|
            #![trigger responses@[i]]
            0 <= i < messages@.len() && messages@[i].style == pam::PROMPT_ECHO_OFF
                && !data.password@.contains('\0') ==> (responses@[i].reply matches Some(reply)
                && reply@ == data.password@),
        forall|i: int|
            #![trigger responses@[i]]
            0 <= i < messages@.len() && messages@[i].style == pam::PROMPT_ECHO_ON
                && !data.username@.contains('\0') ==> (responses@[i].reply matches Some(reply)
                && reply@ == data.username@),
{
    let mut responses: Vec<Response> = Vec::new();
    for i in 0..messages.len()
        invariant
            responses@.len() == i,
            forall|j: int|
                #![trigger responses@[j]]
                0 <= j < i ==> {
                    &&& text::view_of(responses@[j].reply) == reply_to(*data, messages@[j].style)
                    &&& text::view_of(responses@[j].info) == info_of(messages@[j])
                },
    {
        let message = &messages[i];
        let response = if message.style == pam::PROMPT_ECHO_OFF {
            Response { reply: Some(text::c_string(data.password.as_str())), info: None }
        } else if message.style == pam::PROMPT_ECHO_ON {
            Response { reply: Some(text::c_string(data.username.as_str())), info: None }
        } else {
            Response { reply: None, info: message.text.clone() }
        };
        responses.push(response);
    }
    responses
}

} // verus!
