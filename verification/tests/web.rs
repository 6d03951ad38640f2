use carnival::carnival_web::commserver::{HubEvent, MatchServerConn};
use carnival::carnival_web::components::{
    animated_header, base, build_queue_comp, embed_component, generate_table_row,
    leaderboard_comp, load_file_replace_shit, login_form, profile_comp, queue_auth_failure,
    queue_button, queue_user_panel, read_to_fucking_string, table_domino,
};
use carnival::carnival_web::endpoints::{
    forgot_password_reply, login_check_password, login_finish, login_token_created,
    parse_queue_id, password_row_updated, queue_step, register_answer, register_begin,
    register_created, remote_addr, reset_email_body, reset_password_updated,
    reset_password_validated, reset_token_expiry, save_settings_reply, token_is_live,
    validate_token, LoginStep, QueueAction, QueueNext, QueueStage, RegisterCheck, RegisterStep,
    ResetStep,
};
use carnival::carnival_web::models::{OverwatchMatch, OverwatchMatchPlayer, SessionToken, User};
use carnival::carnival_web::overwatch_match::{match_player_rows, team_user_ids, ResolvedOverwatchMatch};
use carnival::carnival_web::payloads::RegisterInput;
use carnival::carnival_web::queue::{
    assign_teams, constraints_satisfied, pop_queue, ResolvedQueue, ResolvedQueuePlayer,
};
use carnival::carnival_web::session_token::{new_session, token_from_cookies, validate, SessionCheck};
use carnival::carnival_web::user::{from_vec_ids_query, stored_password, LeaderboardEntry};
use carnival::carnival_web::ws::websocket_message;

fn player(id: i32, role: &str) -> ResolvedQueuePlayer {
    ResolvedQueuePlayer {
        username: format!("u{id}"),
        id,
        role: role.to_string(),
        battletag: format!("B#{id}"),
        rating: 2500,
        wins: id,
        losses: 0,
    }
}

fn full_queue() -> ResolvedQueue {
    let mut players = vec![];
    for id in 1..=2 {
        players.push(player(id, "Tank"));
    }
    for id in 3..=6 {
        players.push(player(id, "DPS"));
    }
    for id in 7..=10 {
        players.push(player(id, "Support"));
    }
    players.push(player(11, "Healer"));
    ResolvedQueue::from_id(1, Some(players))
}

#[test]
fn queue_is_split_by_role_in_order() {
    let q = full_queue();
    assert_eq!(q.id, 1);
    assert_eq!(q.tanks.iter().map(|p| p.id).collect::<Vec<_>>(), vec![1, 2]);
    assert_eq!(q.dps.iter().map(|p| p.id).collect::<Vec<_>>(), vec![3, 4, 5, 6]);
    assert_eq!(q.supports.iter().map(|p| p.id).collect::<Vec<_>>(), vec![7, 8, 9, 10]);
    let empty = ResolvedQueue::from_id(4, None);
    assert_eq!(empty.id, 4);
    assert!(empty.tanks.is_empty() && empty.dps.is_empty() && empty.supports.is_empty());
}

#[test]
fn queue_pops_with_two_teams_of_five() {
    let q = full_queue();
    assert!(constraints_satisfied(&q));
    let (blue, red) = assign_teams(&q);
    assert_eq!(blue, vec![1, 3, 4, 7, 8]);
    assert_eq!(red, vec![2, 5, 6, 9, 10]);
    assert!(blue.iter().all(|b| !red.contains(b)));
    assert_eq!(pop_queue(&q), Some((blue, red)));
}

#[test]
fn queue_does_not_pop_short_of_players() {
    let mut q = full_queue();
    q.supports.pop();
    assert!(!constraints_satisfied(&q));
    assert_eq!(pop_queue(&q), None);
}

fn register_input(role: &str, password: &str, conf: &str) -> RegisterInput {
    RegisterInput {
        username: "ana".to_string(),
        role: role.to_string(),
        password: password.to_string(),
        password_conf: conf.to_string(),
        battletag: "Ana#1".to_string(),
        email: "a@b.c".to_string(),
        bracket_key: "key".to_string(),
    }
}

fn reply_of(step: RegisterStep) -> (u16, String) {
    match step {
        RegisterStep::Reply(r) => (r.status, r.body),
        other => panic!("expected a reply, got {other:?}"),
    }
}

#[test]
fn register_checks_role_and_passwords_first() {
    assert_eq!(reply_of(register_begin(&register_input("Healer", "a", "a"))), (400, "Role does not exist".to_string()));
    assert_eq!(reply_of(register_begin(&register_input("Main Tank", "a", "b"))), (400, "Passwords do not match".to_string()));
    assert!(matches!(register_begin(&register_input("DPS", "a", "a")), RegisterStep::Ask(RegisterCheck::BattletagTaken)));
}

#[test]
fn register_asks_every_question_before_creating() {
    assert_eq!(reply_of(register_answer(RegisterCheck::BattletagTaken, true)), (400, "Battletag already exists".to_string()));
    assert!(matches!(register_answer(RegisterCheck::BattletagTaken, false), RegisterStep::Ask(RegisterCheck::UsernameTaken)));
    assert_eq!(reply_of(register_answer(RegisterCheck::UsernameTaken, true)), (400, "Username already exists".to_string()));
    assert!(matches!(register_answer(RegisterCheck::UsernameTaken, false), RegisterStep::Ask(RegisterCheck::EmailTaken)));
    assert_eq!(reply_of(register_answer(RegisterCheck::EmailTaken, true)), (400, "Email already exists".to_string()));
    assert!(matches!(register_answer(RegisterCheck::EmailTaken, false), RegisterStep::Ask(RegisterCheck::BracketKeyExists)));
    assert_eq!(reply_of(register_answer(RegisterCheck::BracketKeyExists, false)), (400, "Bracket key does not exist.".to_string()));
    assert!(matches!(register_answer(RegisterCheck::BracketKeyExists, true), RegisterStep::Create));
    let ok = register_created(true, Some("go()".to_string()));
    assert_eq!((ok.status, ok.body.as_str()), (201, "<script>go()</script>"));
    let fallback = register_created(true, None);
    assert_eq!(fallback.body, "<script>User created. Error redirecting.</script>");
    let failed = register_created(false, None);
    assert_eq!((failed.status, failed.body.as_str()), (500, "Error creating user."));
}

fn user_with_hash(hash: String) -> User {
    User {
        id: 9,
        username: "ana".to_string(),
        password: hash,
        battletag: "Ana#1".to_string(),
        role: "Tank".to_string(),
        rating: 2500,
        wins: 3,
        losses: 1,
    }
}

#[test]
fn login_checks_the_password_with_easy_password() {
    let hash = easy_password::bcrypt::hash_password("hunter2", b"key", 4).unwrap();
    assert!(matches!(
        login_check_password(Some(user_with_hash(hash.clone())), "hunter2", b"key"),
        LoginStep::EnsureToken { user_id: 9 }
    ));
    match login_check_password(Some(user_with_hash(hash)), "hunter3", b"key") {
        LoginStep::Reply(r) => assert_eq!((r.status, r.body.as_str()), (400, "Incorrect username or password")),
        other => panic!("{other:?}"),
    }
    assert!(matches!(
        login_check_password(Some(user_with_hash("not a hash".to_string())), "x", b"key"),
        LoginStep::HashUnreadable
    ));
    match login_check_password(None, "x", b"key") {
        LoginStep::Reply(r) => assert_eq!((r.status, r.body.as_str()), (400, "User does not exist")),
        other => panic!("{other:?}"),
    }
}

#[test]
fn login_sets_the_session_cookie() {
    let r = login_finish(Some("tok\"en".to_string()), Some("js()".to_string()));
    assert_eq!(r.status, 200);
    assert_eq!(r.body, "<script>js()</script>");
    assert_eq!(r.cookie.unwrap(), "session_id=\"tok\\\"en\";path=/;");
    let refused = login_finish(None, None);
    assert_eq!((refused.status, refused.body.as_str(), refused.cookie), (406, "Fuck you?", None));
    assert!(login_token_created(true).is_none());
    let failed = login_token_created(false).unwrap();
    assert_eq!((failed.status, failed.body.as_str()), (500, "Could not create token"));
    assert_eq!(remote_addr(None), "127.0.0.1");
    assert_eq!(remote_addr(Some("10.0.0.2")), "10.0.0.2");
}

#[test]
fn session_is_bound_to_its_address() {
    let key = "fuey500";
    let token = easy_password::bcrypt::hash_password("10.0.0.2", key.as_bytes(), 4).unwrap();
    let session = |t: &str| SessionToken {
        for_user: 9,
        remote_addr: "10.0.0.2".to_string(),
        unique_hmac_key: key.to_string(),
        token: t.to_string(),
        is_valid: true,
        invalidation_source: String::new(),
    };
    match validate(Some(session(&token)), "10.0.0.2") {
        SessionCheck::Valid(t) => assert_eq!(t, token),
        other => panic!("{other:?}"),
    }
    assert!(matches!(validate(Some(session(&token)), "10.0.0.3"), SessionCheck::Invalidate));
    assert!(matches!(validate(Some(session("broken")), "10.0.0.2"), SessionCheck::Rejected));
    assert!(matches!(validate(None, "10.0.0.2"), SessionCheck::Rejected));
}

#[test]
fn cookie_token_drops_the_bearer_prefix() {
    assert_eq!(token_from_cookies(Some("Bearer abc")), Some("abc".to_string()));
    assert_eq!(token_from_cookies(Some("\"abcdefgh\"")), Some("gh\"".to_string()));
    assert_eq!(token_from_cookies(None), None);
}

#[test]
fn password_reset_decisions() {
    assert!(token_is_live(10, 11));
    assert!(!token_is_live(11, 11));
    assert_eq!(validate_token(Some((5, 100)), 99), Some(5));
    assert_eq!(validate_token(Some((5, 100)), 100), None);
    assert_eq!(validate_token(None, 0), None);
    assert_eq!(reset_token_expiry(1_000), 8_200);
    assert!(matches!(reset_password_validated(Some(Some(3))), ResetStep::UpdatePassword { user_id: 3 }));
    match reset_password_validated(Some(None)) {
        ResetStep::Reply(r) => assert_eq!((r.status, r.body.as_str()), (400, "Invalid or expired token")),
        other => panic!("{other:?}"),
    }
    match reset_password_validated(None) {
        ResetStep::Reply(r) => assert_eq!((r.status, r.body.as_str()), (500, "An error occurred")),
        other => panic!("{other:?}"),
    }
    assert_eq!(reset_password_updated(true).body, "Password updated");
    assert_eq!(reset_password_updated(false).status, 500);
    assert!(password_row_updated(1));
    assert!(!password_row_updated(0));
    assert_eq!(forgot_password_reply().body, "Email will be sent if it exists in records :)");
    assert_eq!(reset_email_body("t-1"), "Here is your password reset token: t-1");
}

#[test]
fn queue_requests_go_through_every_stage() {
    assert_eq!(parse_queue_id("12"), 12);
    assert_eq!(parse_queue_id("x"), 0);
    match queue_step(QueueAction::Join, QueueStage::FindUser, false) {
        QueueNext::Reply(r) => assert_eq!((r.status, r.body.as_str()), (200, "Error joining queue.")),
        other => panic!("{other:?}"),
    }
    match queue_step(QueueAction::Leave, QueueStage::FindUser, false) {
        QueueNext::Reply(r) => assert_eq!(r.body, "Uhoh"),
        other => panic!("{other:?}"),
    }
    assert!(matches!(queue_step(QueueAction::Join, QueueStage::FindUser, true), QueueNext::Continue(QueueStage::CheckSession)));
    match queue_step(QueueAction::Leave, QueueStage::CheckSession, false) {
        QueueNext::Reply(r) => assert_eq!((r.status, r.body.as_str()), (406, "Detected some funky stuff. Token invalidated.")),
        other => panic!("{other:?}"),
    }
    assert!(matches!(queue_step(QueueAction::Join, QueueStage::Change, true), QueueNext::ShowQueue { pop_first: true }));
    assert!(matches!(queue_step(QueueAction::Leave, QueueStage::Change, false), QueueNext::ShowQueue { pop_first: false }));
    match queue_step(QueueAction::Join, QueueStage::Change, false) {
        QueueNext::Reply(r) => assert_eq!(r.body, "Error joining queue."),
        other => panic!("{other:?}"),
    }
    assert_eq!(save_settings_reply(true).body, "Updated");
    assert_eq!(save_settings_reply(false).status, 400);
}

#[test]
fn table_rows_link_to_profiles() {
    assert_eq!(
        generate_table_row(&["ana", "7"]),
        "<tr><td class=\"row opacity-0\"><a href=\"/@ana\">ana</a></td><td class=\"row opacity-0\"><a href=\"/@7\">7</a></td></tr>"
    );
    assert_eq!(generate_table_row(&[]), "<tr></tr>");
}

#[test]
fn templates_are_filled_pair_by_pair() {
    assert_eq!(load_file_replace_shit(Some("a_b_".to_string()), &[("a_", "x"), ("x", "y")]), "yb_");
    assert_eq!(load_file_replace_shit(None, &[("a", "b")]), "");
    assert_eq!(read_to_fucking_string(None), "");
    assert_eq!(animated_header(Some("h(^.^)".to_string()), "Queue"), "h(Queue)");
    assert_eq!(table_domino(false, Some("x".to_string())), "<script>x</script>");
    assert_eq!(
        table_domino(true, None),
        "<script>document.addEventListener(\"htmx:afterOnLoad\", () => {<script>console.log('ruhroh disk boom')});</script>"
    );
    assert_eq!(queue_button(true), "static/html/queue_button_queued.html");
    assert_eq!(queue_button(false), "static/html/queue_button_notqueued.html");
    assert_eq!(
        login_form(Some("domain_ >//<".to_string()), Some("[^.^]".to_string()), "https://x"),
        "https://x [Login]"
    );
}

#[test]
fn navigation_depends_on_the_signed_in_user() {
    let anon = base(Some("<ul>header_items_</ul>".to_string()), None);
    assert_eq!(anon, "<ul><li><a href=\"/leaderboard\">Leaderboard</a></li><li><a href=\"/register\">Register</a></li><li><a href=\"/login\">Login</a></li></ul>");
    let signed_in = base(Some("header_items_".to_string()), Some(user_with_hash(String::new())));
    assert!(signed_in.contains("href=\"/settings/user\">Settings"));
    assert!(!signed_in.contains("Login"));
}

#[test]
fn leaderboard_and_queue_pages() {
    let entries = vec![LeaderboardEntry {
        username: "ana".to_string(),
        battletag: "Ana#1".to_string(),
        role: "Tank".to_string(),
        rating: 2600,
        wins: -1,
        losses: 2,
    }];
    let page = leaderboard_comp(Some("rows_".to_string()), None, None, Some(entries));
    assert_eq!(page, generate_table_row(&["ana", "Ana#1", "2600", "-1", "2", "Tank"]));
    let q = full_queue();
    let html = build_queue_comp(Some("ana"), &q, Some("_username_|tank_rows_".to_string()), None, None, "d");
    assert!(html.starts_with("ana|<tr>"));
    assert_eq!(html.matches("<tr>").count(), 2);
    assert_eq!(queue_auth_failure(), "<div class=\"text-xl text-center\">Couldn't be authenticated</div>");
    assert_eq!(
        queue_user_panel(Some("_username_:queue_button_".to_string()), "ana", Some("<b>".to_string())),
        "ana:<b>"
    );
    let profile = profile_comp(
        Some("animated_header_/_rating_/_wins_/_losses_".to_string()),
        Some("^.^".to_string()),
        "ana",
        None,
        None,
    );
    assert_eq!(profile, "ana - /0/0/0");
}

#[test]
fn routes_embed_their_component() {
    assert_eq!(
        embed_component("<main>https://www.youtube.com/watch?v=dQw4w9WgXcQ</main>", "https://c", "/components/hero"),
        "<main><div hx-get=\"https://c/components/hero\" hx-trigger=\"load\" hx-target=\"#app\"\"></div></main>"
    );
}

#[test]
fn users_are_loaded_by_id_list() {
    assert_eq!(from_vec_ids_query(&vec![1, 22, -3]), "SELECT * FROM users WHERE id IN (1,22,-3)");
    assert_eq!(from_vec_ids_query(&vec![7]), "SELECT * FROM users WHERE id IN (7)");
    assert_eq!(from_vec_ids_query(&vec![]), "SELECT * FROM users WHERE id IN (");
}

#[test]
fn websocket_introduction_sets_identity() {
    let mut token = String::new();
    let mut id = 0;
    let (a, b) = websocket_message("hello", &mut token, &mut id).unwrap();
    assert_eq!((a.as_str(), b.as_str()), ("sup bitch", "\t0"));
    let (_, b) = websocket_message("whattup_bitch:tok:x:im:42", &mut token, &mut id).unwrap();
    assert_eq!(b, "tok\t42");
    assert!(websocket_message("whattup_bitch::im:", &mut token, &mut id).is_none());
    assert!(websocket_message("whattup_bitch:a:b:im:x", &mut token, &mut id).is_none());
    assert_eq!((token.as_str(), id), ("tok", 42));
}

#[test]
fn hub_registers_clients_and_echoes_messages() {
    let mut hub: MatchServerConn<&str> = MatchServerConn::new();
    assert_eq!(hub.handle_event(HubEvent::Message(1, "hi".to_string())), None);
    assert_eq!(hub.handle_event(HubEvent::Connect(1, "client one")), None);
    assert_eq!(hub.handle_event(HubEvent::Message(1, "hi".to_string())), Some((1, "hi".to_string())));
    assert_eq!(hub.responder(1), Some(&"client one"));
    assert_eq!(hub.handle_event(HubEvent::Disconnect(1)), None);
    assert_eq!(hub.responder(1), None);
}

#[test]
fn match_rows_and_resolution() {
    assert_eq!(match_player_rows(&vec![1, 2], &vec![3]), vec![(1, 1), (2, 1), (3, 2)]);
    let players = vec![OverwatchMatchPlayer { id: 1, user_id: 8, match_id: 2, team_id: 1 }];
    assert_eq!(team_user_ids(&players), vec![8]);
    let m = ResolvedOverwatchMatch::from_id(Some(OverwatchMatch { id: 2, map_id: 3 }), Some(vec![]), None);
    assert_eq!((m.overwatch_match.id, m.blue_team.len()), (0, 0));
    let m = ResolvedOverwatchMatch::from_id(Some(OverwatchMatch { id: 2, map_id: 3 }), Some(vec![]), Some(vec![]));
    assert_eq!(m.overwatch_match.map_id, 3);
}

#[test]
fn a_stored_password_logs_in() {
    let hash = stored_password("hunter2", b"key");
    assert_eq!(hash.len(), 60);
    assert_ne!(hash, "hunter2");
    assert!(matches!(
        login_check_password(Some(user_with_hash(hash)), "hunter2", b"key"),
        LoginStep::EnsureToken { user_id: 9 }
    ));
}

#[test]
fn a_new_session_validates_from_its_address() {
    let session = new_session(4, "10.0.0.1".to_string(), "10.0.0.1", "salt".to_string());
    assert_eq!(session.for_user, 4);
    assert_eq!(session.remote_addr, "10.0.0.1");
    assert_eq!(session.unique_hmac_key, "salt");
    assert!(session.is_valid);
    assert_ne!(session.token, "10.0.0.1");
    let token = session.token.clone();
    match validate(Some(session), "10.0.0.1") {
        SessionCheck::Valid(t) => assert_eq!(t, token),
        other => panic!("{other:?}"),
    }
}

#[test]
fn queue_component_refuses_a_request_without_a_session() {
    let q = ResolvedQueue::from_id(1, Some(vec![player(1, "Tank")]));
    assert_eq!(
        build_queue_comp(None, &q, Some("_username_|tank_rows_".to_string()), None, None, "d"),
        "<div class=\"text-xl text-center\">Couldn't be authenticated</div>"
    );
}

#[test]
fn session_cookie_escapes_the_token_as_json() {
    let r = login_finish(Some("a\\b\n\u{1}\u{1f}\té".to_string()), None);
    assert_eq!(r.cookie.unwrap(), "session_id=\"a\\\\b\\n\\u0001\\u001f\\té\";path=/;");
}
