//! The decisions of the web site's form endpoints. Each endpoint asks the
//! database questions in turn; the program around the library asks them and
//! hands back the answers, and the functions here decide what to ask next and
//! what to answer the browser.

use vstd::prelude::*;
use vstd::string::*;
use crate::text::{contains, occurs_in, str_eq, parse_i32, parse_i32_spec};
use crate::carnival_web::models::User;
use crate::carnival_web::payloads::RegisterInput;
use crate::carnival_web::password::{verify_password, password_verification};

verus! {

/// An HTTP answer: a status code and a body.
#[derive(Debug)]
pub struct Reply {
    pub status: u16,
    pub body: String,
}

/// The status and body of an answer.
pub open spec fn reply_view(r: Reply) -> (u16, Seq<char>) {
    (r.status, r.body@)
}

fn reply(status: u16, body: &str) -> (r: Reply)
    ensures
        reply_view(r) == (status, body@),
{
    Reply { status, body: String::from_str(body) }
}

/// The body that runs a script: `<script>` + the script + `</script>`.
pub open spec fn script_body(js: Seq<char>) -> Seq<char> {
    "<script>"@ + js + "</script>"@
}

fn script_reply(status: u16, js: &str) -> (r: Reply)
    ensures
        reply_view(r) == (status, script_body(js@)),
{
    let mut body = String::from_str("<script>");
    body.append(js);
    body.append("</script>");
    assert(body@ =~= script_body(js@));
    Reply { status, body }
}

/// What stands in for a redirect script that cannot be read.
pub open spec fn missing_redirect_js() -> Seq<char> {
    "User created. Error redirecting."@
}

/// The database questions of a registration, asked in this order.
#[derive(Clone, Copy, PartialEq, Eq, Structural, Debug)]
pub enum RegisterCheck {
    /// Is the battletag taken?
    BattletagTaken,
    /// Is the username taken?
    UsernameTaken,
    /// Is the email address taken?
    EmailTaken,
    /// Does the bracket key exist?
    BracketKeyExists,
}

/// What a registration does next.
#[derive(Debug)]
pub enum RegisterStep {
    /// Ask the database this question.
    Ask(RegisterCheck),
    /// Create the account (and join the key's bracket, if it names one).
    Create,
    /// Answer the browser.
    Reply(Reply),
}

/// The mathematical meaning of a registration step.
pub enum RegisterStepView {
    Ask(RegisterCheck),
    Create,
    Reply(u16, Seq<char>),
}

impl View for RegisterStep {
    type V = RegisterStepView;

    open spec fn view(&self) -> RegisterStepView {
        match self {
            RegisterStep::Ask(c) => RegisterStepView::Ask(*c),
            RegisterStep::Create => RegisterStepView::Create,
            RegisterStep::Reply(r) => RegisterStepView::Reply(r.status, r.body@),
        }
    }
}

/// The role names one of the three roles: it contains "Tank", "DPS" or
/// "Support".
pub open spec fn names_a_role(role: Seq<char>) -> bool {
    occurs_in(role, "Tank"@) || occurs_in(role, "DPS"@) || occurs_in(role, "Support"@)
}

/// The first step of a registration: the role must name a role and the two
/// passwords must agree; then the battletag is checked.
pub open spec fn register_begin_spec(role: Seq<char>, password: Seq<char>, password_conf: Seq<char>) -> RegisterStepView {
    if !names_a_role(role) {
        RegisterStepView::Reply(400, "Role does not exist"@)
    } else if password != password_conf {
        RegisterStepView::Reply(400, "Passwords do not match"@)
    } else {
        RegisterStepView::Ask(RegisterCheck::BattletagTaken)
    }
}

/// The step after the database answered `check` with `answer`.
pub open spec fn register_answer_spec(check: RegisterCheck, answer: bool) -> RegisterStepView {
    match check {
        RegisterCheck::BattletagTaken => if answer {
            RegisterStepView::Reply(400, "Battletag already exists"@)
        } else {
            RegisterStepView::Ask(RegisterCheck::UsernameTaken)
        },
        RegisterCheck::UsernameTaken => if answer {
            RegisterStepView::Reply(400, "Username already exists"@)
        } else {
            RegisterStepView::Ask(RegisterCheck::EmailTaken)
        },
        RegisterCheck::EmailTaken => if answer {
            RegisterStepView::Reply(400, "Email already exists"@)
        } else {
            RegisterStepView::Ask(RegisterCheck::BracketKeyExists)
        },
        RegisterCheck::BracketKeyExists => if answer {
            RegisterStepView::Create
        } else {
            RegisterStepView::Reply(400, "Bracket key does not exist."@)
        },
    }
}

/// Starts a registration.
pub fn register_begin(post_data: &RegisterInput) -> (r: RegisterStep)
    ensures
        r@ == register_begin_spec(post_data.role@, post_data.password@, post_data.password_conf@),
{
    let role = post_data.role.as_str();
    if !(contains(role, "Tank") || contains(role, "DPS") || contains(role, "Support")) {
        let r = reply(400, "Role does not exist");
        return RegisterStep::Reply(r);
    }
    if !str_eq(post_data.password.as_str(), post_data.password_conf.as_str()) {
        let r = reply(400, "Passwords do not match");
        return RegisterStep::Reply(r);
    }
    RegisterStep::Ask(RegisterCheck::BattletagTaken)
}

/// Goes on with a registration after the database answered a question.
pub fn register_answer(check: RegisterCheck, answer: bool) -> (r: RegisterStep)
    ensures
        r@ == register_answer_spec(check, answer),
{
    match check {
        RegisterCheck::BattletagTaken => if answer {
            RegisterStep::Reply(reply(400, "Battletag already exists"))
        } else {
            RegisterStep::Ask(RegisterCheck::UsernameTaken)
        },
        RegisterCheck::UsernameTaken => if answer {
            RegisterStep::Reply(reply(400, "Username already exists"))
        } else {
            RegisterStep::Ask(RegisterCheck::EmailTaken)
        },
        RegisterCheck::EmailTaken => if answer {
            RegisterStep::Reply(reply(400, "Email already exists"))
        } else {
            RegisterStep::Ask(RegisterCheck::BracketKeyExists)
        },
        RegisterCheck::BracketKeyExists => if answer {
            RegisterStep::Create
        } else {
            RegisterStep::Reply(reply(400, "Bracket key does not exist."))
        },
    }
}

/// The answer to a registration once the account was (or was not) created:
/// 201 with the redirect script (read from its file), or 500.
pub fn register_created(created: bool, redirect_js: Option<String>) -> (r: Reply)
    ensures
        reply_view(r) == (if created {
            (
                201u16,
                script_body(
                    match redirect_js {
                        Some(js) => js@,
                        None => missing_redirect_js(),
                    },
                ),
            )
        } else {
            (500u16, "Error creating user."@)
        }),
{
    if created {
        let js = match redirect_js {
            Some(js) => js,
            None => String::from_str("User created. Error redirecting."),
        };
        script_reply(201, js.as_str())
    } else {
        reply(500, "Error creating user.")
    }
}

/// The step a registration reaches from `step` when the database answers
/// the questions with `answers`, in order.
pub open spec fn register_run(step: RegisterStepView, answers: Seq<bool>) -> RegisterStepView
    decreases answers.len(),
{
    match step {
        RegisterStepView::Ask(check) => if answers.len() == 0 {
            step
        } else {
            register_run(register_answer_spec(check, answers[0]), answers.skip(1))
        },
        _ => step,
    }
}

/// An account is created exactly when the role names a role, the passwords
/// agree, the battletag, username and email address are all free and the
/// bracket key exists, the questions asked in that order.
pub proof fn law_register_creates_only_after_every_check(
    role: Seq<char>,
    password: Seq<char>,
    password_conf: Seq<char>,
    battletag_taken: bool,
    username_taken: bool,
    email_taken: bool,
    key_exists: bool,
)
    ensures
        register_run(
            register_begin_spec(role, password, password_conf),
            seq![battletag_taken, username_taken, email_taken, key_exists],
        ) is Create <==> (names_a_role(role) && password == password_conf && !battletag_taken
            && !username_taken && !email_taken && key_exists),
{
    let answers = seq![battletag_taken, username_taken, email_taken, key_exists];
    assert(answers.skip(1) =~= seq![username_taken, email_taken, key_exists]);
    assert(answers.skip(1).skip(1) =~= seq![email_taken, key_exists]);
    assert(answers.skip(1).skip(1).skip(1) =~= seq![key_exists]);
    assert(answers.skip(1).skip(1).skip(1).skip(1) =~= Seq::<bool>::empty());
    reveal_with_fuel(register_run, 6);
}

/// The address a request comes from: the `x-real-ip` header when present,
/// else the local address.
pub fn remote_addr(real_ip_header: Option<&str>) -> (r: String)
    ensures
        r@ == match real_ip_header {
            Some(h) => h@,
            None => "127.0.0.1"@,
        },
{
    match real_ip_header {
        Some(h) => String::from_str(h),
        None => String::from_str("127.0.0.1"),
    }
}

/// What a login does next.
#[derive(Debug)]
pub enum LoginStep {
    /// Answer the browser.
    Reply(Reply),
    /// The password is right: make sure the user has a session, then check it.
    EnsureToken { user_id: i32 },
    /// The stored password hash cannot be read: a fatal error.
    HashUnreadable,
}

/// The mathematical meaning of a login step.
pub enum LoginStepView {
    Reply(u16, Seq<char>),
    EnsureToken(i32),
    HashUnreadable,
}

impl View for LoginStep {
    type V = LoginStepView;

    open spec fn view(&self) -> LoginStepView {
        match self {
            LoginStep::Reply(r) => LoginStepView::Reply(r.status, r.body@),
            LoginStep::EnsureToken { user_id } => LoginStepView::EnsureToken(*user_id),
            LoginStep::HashUnreadable => LoginStepView::HashUnreadable,
        }
    }
}

/// The step of a login after looking up the user by name: unknown users and
/// wrong passwords are refused with 400.
pub open spec fn login_check_spec(user: Option<User>, password: Seq<char>, hmac_key: Seq<u8>) -> LoginStepView {
    match user {
        None => LoginStepView::Reply(400, "User does not exist"@),
        Some(u) => match password_verification(password, u.password@, hmac_key) {
            Some(true) => LoginStepView::EnsureToken(u.id),
            Some(false) => LoginStepView::Reply(400, "Incorrect username or password"@),
            None => LoginStepView::HashUnreadable,
        },
    }
}

/// A password stored for a user logs that user in: when the user's stored
/// hash accepts the password under the key, the login goes on to the
/// user's session.
pub proof fn law_stored_password_logs_in(user: User, password: Seq<char>, hmac_key: Seq<u8>)
    requires
        password_verification(password, user.password@, hmac_key) == Some(true),
    ensures
        login_check_spec(Some(user), password, hmac_key) == LoginStepView::EnsureToken(user.id),
{
}

/// Checks a login's password against the user found by name, if any.
pub fn login_check_password(user: Option<User>, password: &str, hmac_key: &[u8]) -> (r: LoginStep)
    ensures
        r@ == login_check_spec(user, password@, hmac_key@),
{
    match user {
        None => LoginStep::Reply(reply(400, "User does not exist")),
        Some(u) => match verify_password(password, u.password.as_str(), hmac_key) {
            Some(true) => LoginStep::EnsureToken { user_id: u.id },
            Some(false) => LoginStep::Reply(reply(400, "Incorrect username or password")),
            None => LoginStep::HashUnreadable,
        },
    }
}

/// The answer when a session could not be created for a user who had none:
/// 500; `None` when the session exists and the login goes on.
pub fn login_token_created(created: bool) -> (r: Option<Reply>)
    ensures
        match r {
            Some(rep) => !created && reply_view(rep) == (500u16, "Could not create token"@),
            None => created,
        },
{
    if created {
        None
    } else {
        Some(reply(500, "Could not create token"))
    }
}

/// The lowercase hexadecimal digit of a value below sixteen.
pub open spec fn hex_digit(d: int) -> char {
    if d < 10 {
        (d + 48) as char
    } else {
        (d + 87) as char
    }
}

/// How one character stands inside a JSON string literal: a quote and a
/// backslash are escaped with a backslash; backspace, form feed, line feed,
/// carriage return and tab are written `\b`, `\f`, `\n`, `\r`, `\t`; the
/// other control characters below 0x20 are written `\u00` and two lowercase
/// hexadecimal digits; every other character stands for itself.
pub open spec fn json_escaped_char(c: char) -> Seq<char> {
    if c == '"' {
        seq!['\\', '"']
    } else if c == '\\' {
        seq!['\\', '\\']
    } else if c == '\u{8}' {
        seq!['\\', 'b']
    } else if c == '\u{c}' {
        seq!['\\', 'f']
    } else if c == '\n' {
        seq!['\\', 'n']
    } else if c == '\r' {
        seq!['\\', 'r']
    } else if c == '\t' {
        seq!['\\', 't']
    } else if (c as int) < 0x20 {
        seq!['\\', 'u', '0', '0', hex_digit((c as int) / 16), hex_digit((c as int) % 16)]
    } else {
        seq![c]
    }
}

/// The characters of `s`, each as it stands inside a JSON string literal.
pub open spec fn json_escaped(s: Seq<char>) -> Seq<char>
    decreases s.len(),
{
    if s.len() == 0 {
        Seq::empty()
    } else {
        json_escaped(s.drop_last()) + json_escaped_char(s.last())
    }
}

/// The JSON string literal of `s`: a quote, the escaped characters, a quote.
pub open spec fn json_string_literal(s: Seq<char>) -> Seq<char> {
    seq!['"'] + json_escaped(s) + seq!['"']
}

/// Calls `serde_json::to_string` on a string, which writes the string's JSON
/// string literal (with serde_json's escape table) into memory; for a string
/// that cannot fail.
#[verifier::external_body]
fn json_string(s: &String) -> (r: String)
    ensures
        r@ == json_string_literal(s@),
{
    serde_json::to_string(s).expect("a string always serialises")
}

/// The answer to a login, with the session cookie to set, if any.
#[derive(Debug)]
pub struct LoginReply {
    pub status: u16,
    pub body: String,
    pub cookie: Option<String>,
}

/// The session cookie: `session_id=` + the token's JSON literal + `;path=/;`.
pub open spec fn session_cookie(token: Seq<char>) -> Seq<char> {
    "session_id="@ + json_string_literal(token) + ";path=/;"@
}

/// The answer to a login once the user's session was checked against the
/// request's address: 200 with the redirect script (read from its file) and
/// the session cookie, or 406 when the session belongs to another address.
pub fn login_finish(session: Option<String>, redirect_js: Option<String>) -> (r: LoginReply)
    ensures
        match session {
            Some(token) => {
                &&& r.status == 200
                &&& r.body@ == script_body(
                    match redirect_js {
                        Some(js) => js@,
                        None => missing_redirect_js(),
                    },
                )
                &&& r.cookie matches Some(c) && c@ == session_cookie(token@)
            },
            None => r.status == 406 && r.body@ == "Fuck you?"@ && r.cookie is None,
        },
{
    match session {
        Some(token) => {
            let js = match redirect_js {
                Some(js) => js,
                None => String::from_str("User created. Error redirecting."),
            };
            let body = script_reply(200, js.as_str());
            let json = json_string(&token);
            let mut cookie = String::from_str("session_id=");
            cookie.append(json.as_str());
            cookie.append(";path=/;");
            assert(cookie@ =~= session_cookie(token@));
            LoginReply { status: 200, body: body.body, cookie: Some(cookie) }
        },
        None => LoginReply { status: 406, body: String::from_str("Fuck you?"), cookie: None },
    }
}

/// A password reset token is still good when it expires after `now`.
pub fn token_is_live(now: i64, expires_at: i64) -> (r: bool)
    ensures
        r == (now < expires_at),
{
    now < expires_at
}

/// The user a password reset token belongs to, given the token's record
/// (user id and expiry time), if the token exists and is still good.
pub fn validate_token(record: Option<(i32, i64)>, now: i64) -> (r: Option<i32>)
    ensures
        r == match record {
            Some((user_id, expires_at)) => if now < expires_at {
                Some(user_id)
            } else {
                None
            },
            None => None,
        },
{
    match record {
        Some((user_id, expires_at)) => if token_is_live(now, expires_at) {
            Some(user_id)
        } else {
            None
        },
        None => None,
    }
}

/// A password reset token expires two hours after it is made.
pub fn reset_token_expiry(now: i64) -> (r: i64)
    requires
        now + 7200 <= i64::MAX,
    ensures
        r == now + 7200,
{
    now + 7200
}

/// What a password reset does after looking up its token.
#[derive(Debug)]
pub enum ResetStep {
    /// Answer the browser.
    Reply(Reply),
    /// The token is good: store the new password for this user.
    UpdatePassword { user_id: i32 },
}

/// Decides on a password reset given what looking up the token gave:
/// `None` when the lookup failed, else the user the token is good for.
pub fn reset_password_validated(validation: Option<Option<i32>>) -> (r: ResetStep)
    ensures
        match validation {
            Some(Some(user_id)) => r matches ResetStep::UpdatePassword { user_id: u } && u == user_id,
            Some(None) => r matches ResetStep::Reply(rep) && reply_view(rep) == (
                400u16,
                "Invalid or expired token"@,
            ),
            None => r matches ResetStep::Reply(rep) && reply_view(rep) == (
                500u16,
                "An error occurred"@,
            ),
        },
{
    match validation {
        Some(Some(user_id)) => ResetStep::UpdatePassword { user_id },
        Some(None) => ResetStep::Reply(reply(400, "Invalid or expired token")),
        None => ResetStep::Reply(reply(500, "An error occurred")),
    }
}

/// The answer to a password reset once the password was (or was not)
/// stored; after a success the token is deleted first.
pub fn reset_password_updated(updated: bool) -> (r: Reply)
    ensures
        reply_view(r) == (if updated {
            (200u16, "Password updated"@)
        } else {
            (500u16, "Failed to update password"@)
        }),
{
    if updated {
        reply(200, "Password updated")
    } else {
        reply(500, "Failed to update password")
    }
}

/// Whether storing a new password changed a row; no row means no such user.
pub fn password_row_updated(rows_affected: u64) -> (r: bool)
    ensures
        r == (rows_affected != 0),
{
    rows_affected != 0
}

/// The answer to a request for a password reset email, whether or not the
/// address is known.
pub fn forgot_password_reply() -> (r: Reply)
    ensures
        reply_view(r) == (200u16, "Email will be sent if it exists in records :)"@),
{
    reply(200, "Email will be sent if it exists in records :)")
}

/// The text of the password reset email.
pub fn reset_email_body(token: &str) -> (r: String)
    ensures
        r@ == "Here is your password reset token: "@ + token@,
{
    let mut body = String::from_str("Here is your password reset token: ");
    body.append(token);
    body
}

/// The queue id of a join or leave request: the number it spells, or 0.
pub fn parse_queue_id(queue_id: &str) -> (r: i32)
    ensures
        r == match parse_i32_spec(queue_id@) {
            Some(v) => v,
            None => 0,
        },
{
    match parse_i32(queue_id) {
        Some(v) => v,
        None => 0,
    }
}

/// Joining or leaving a queue.
#[derive(Clone, Copy, PartialEq, Eq, Structural, Debug)]
pub enum QueueAction {
    Join,
    Leave,
}

/// The stages of a join or leave request.
#[derive(Clone, Copy, PartialEq, Eq, Structural, Debug)]
pub enum QueueStage {
    /// Find the user the session cookie belongs to.
    FindUser,
    /// Check the user's session against the request's address.
    CheckSession,
    /// Add the user to the queue, or take them out of it.
    Change,
}

/// What a join or leave request does next.
#[derive(Debug)]
pub enum QueueNext {
    /// Go on to this stage.
    Continue(QueueStage),
    /// Answer with the queue component, after trying to pop the queue when
    /// `pop_first`.
    ShowQueue { pop_first: bool },
    /// Answer the browser.
    Reply(Reply),
}

/// The mathematical meaning of a queue step.
pub enum QueueNextView {
    Continue(QueueStage),
    ShowQueue(bool),
    Reply(u16, Seq<char>),
}

impl View for QueueNext {
    type V = QueueNextView;

    open spec fn view(&self) -> QueueNextView {
        match self {
            QueueNext::Continue(s) => QueueNextView::Continue(*s),
            QueueNext::ShowQueue { pop_first } => QueueNextView::ShowQueue(*pop_first),
            QueueNext::Reply(r) => QueueNextView::Reply(r.status, r.body@),
        }
    }
}

/// The step of a join or leave request after `stage` succeeded (`ok`) or
/// not. A missing user is answered 200 with an error text; a session from
/// another address 406. Joining answers an error text when the user could
/// not be added, else pops the queue and shows it; leaving always shows the
/// queue.
pub open spec fn queue_step_spec(action: QueueAction, stage: QueueStage, ok: bool) -> QueueNextView {
    match stage {
        QueueStage::FindUser => if ok {
            QueueNextView::Continue(QueueStage::CheckSession)
        } else {
            QueueNextView::Reply(
                200,
                if action == QueueAction::Join {
                    "Error joining queue."@
                } else {
                    "Uhoh"@
                },
            )
        },
        QueueStage::CheckSession => if ok {
            QueueNextView::Continue(QueueStage::Change)
        } else {
            QueueNextView::Reply(406, "Detected some funky stuff. Token invalidated."@)
        },
        QueueStage::Change => if action == QueueAction::Leave {
            QueueNextView::ShowQueue(false)
        } else if ok {
            QueueNextView::ShowQueue(true)
        } else {
            QueueNextView::Reply(200, "Error joining queue."@)
        },
    }
}

/// Goes on with a join or leave request.
pub fn queue_step(action: QueueAction, stage: QueueStage, ok: bool) -> (r: QueueNext)
    ensures
        r@ == queue_step_spec(action, stage, ok),
{
    match stage {
        QueueStage::FindUser => if ok {
            QueueNext::Continue(QueueStage::CheckSession)
        } else {
            match action {
                QueueAction::Join => QueueNext::Reply(reply(200, "Error joining queue.")),
                QueueAction::Leave => QueueNext::Reply(reply(200, "Uhoh")),
            }
        },
        QueueStage::CheckSession => if ok {
            QueueNext::Continue(QueueStage::Change)
        } else {
            QueueNext::Reply(reply(406, "Detected some funky stuff. Token invalidated."))
        },
        QueueStage::Change => match action {
            QueueAction::Leave => QueueNext::ShowQueue { pop_first: false },
            QueueAction::Join => if ok {
                QueueNext::ShowQueue { pop_first: true }
            } else {
                QueueNext::Reply(reply(200, "Error joining queue."))
            },
        },
    }
}

/// The answer to a settings update: 200 once a signed-in user's settings
/// were stored, else 400.
pub fn save_settings_reply(user_found: bool) -> (r: Reply)
    ensures
        reply_view(r) == (if user_found {
            (200u16, "Updated"@)
        } else {
            (400u16, "no"@)
        }),
{
    if user_found {
        reply(200, "Updated")
    } else {
        reply(400, "no")
    }
}

/// A registration goes on to the database checks for any role that names
/// Tank, DPS or Support when the passwords agree; a role that names none of
/// them is refused first, and disagreeing passwords next.
pub proof fn law_every_role_may_register(role: Seq<char>, password: Seq<char>, password_conf: Seq<char>)
    ensures
        occurs_in(role, "Tank"@) && password == password_conf ==> register_begin_spec(role, password, password_conf)
            == RegisterStepView::Ask(RegisterCheck::BattletagTaken),
        occurs_in(role, "DPS"@) && password == password_conf ==> register_begin_spec(role, password, password_conf)
            == RegisterStepView::Ask(RegisterCheck::BattletagTaken),
        occurs_in(role, "Support"@) && password == password_conf ==> register_begin_spec(role, password, password_conf)
            == RegisterStepView::Ask(RegisterCheck::BattletagTaken),
        !occurs_in(role, "Tank"@) && !occurs_in(role, "DPS"@) && !occurs_in(role, "Support"@)
            ==> register_begin_spec(role, password, password_conf) == RegisterStepView::Reply(
            400,
            "Role does not exist"@,
        ),
        (occurs_in(role, "Tank"@) || occurs_in(role, "DPS"@) || occurs_in(role, "Support"@))
            && password != password_conf ==> register_begin_spec(role, password, password_conf)
            == RegisterStepView::Reply(400, "Passwords do not match"@),
{
}

/// Each database question of a registration that fails is answered 400
/// with its own reason; only an existing bracket key lets the account be
/// created.
pub proof fn law_register_refusal_reasons(answer: bool)
    ensures
        register_answer_spec(RegisterCheck::BattletagTaken, true) == RegisterStepView::Reply(
            400,
            "Battletag already exists"@,
        ),
        register_answer_spec(RegisterCheck::UsernameTaken, true) == RegisterStepView::Reply(
            400,
            "Username already exists"@,
        ),
        register_answer_spec(RegisterCheck::EmailTaken, true) == RegisterStepView::Reply(
            400,
            "Email already exists"@,
        ),
        register_answer_spec(RegisterCheck::BracketKeyExists, false) == RegisterStepView::Reply(
            400,
            "Bracket key does not exist."@,
        ),
        register_answer_spec(RegisterCheck::BracketKeyExists, true) == RegisterStepView::Create,
        register_answer_spec(RegisterCheck::BattletagTaken, false) == RegisterStepView::Ask(
            RegisterCheck::UsernameTaken,
        ),
        register_answer_spec(RegisterCheck::UsernameTaken, false) == RegisterStepView::Ask(
            RegisterCheck::EmailTaken,
        ),
        register_answer_spec(RegisterCheck::EmailTaken, false) == RegisterStepView::Ask(
            RegisterCheck::BracketKeyExists,
        ),
{
}

/// Joining or leaving a queue needs a signed-in user whose session is
/// usable from the request's address: without a user the answer is an
/// error text with status 200, with a session from elsewhere it is 406.
/// Leaving always shows the queue; joining shows it, after trying to pop
/// the queue, only when the user was added.
pub proof fn law_queue_requests(action: QueueAction, ok: bool)
    ensures
        queue_step_spec(action, QueueStage::FindUser, false) is Reply && queue_step_spec(
            action,
            QueueStage::FindUser,
            false,
        )->Reply_0 == 200,
        queue_step_spec(action, QueueStage::FindUser, true) == QueueNextView::Continue(
            QueueStage::CheckSession,
        ),
        queue_step_spec(action, QueueStage::CheckSession, false) == QueueNextView::Reply(
            406,
            "Detected some funky stuff. Token invalidated."@,
        ),
        queue_step_spec(action, QueueStage::CheckSession, true) == QueueNextView::Continue(
            QueueStage::Change,
        ),
        queue_step_spec(QueueAction::Leave, QueueStage::Change, ok) == QueueNextView::ShowQueue(false),
        queue_step_spec(QueueAction::Join, QueueStage::Change, true) == QueueNextView::ShowQueue(true),
        queue_step_spec(QueueAction::Join, QueueStage::Change, false) == QueueNextView::Reply(
            200,
            "Error joining queue."@,
        ),
{
}

} // verus!
