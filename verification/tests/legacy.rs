use carnival::carnival_matchserver::input::InputStep;
use carnival::chains::ChainTable;
use carnival::client::actions::{Action, Actions};
use carnival::client::client_state::{ClientState, Menu};
use carnival::client::game_state::GameState;
use carnival::matchserver::client_state::{ClientState as ServerClientState, Menu as ServerMenu};
use carnival::web::endpoints::{
    login_check_password, login_user_known, register_begin, register_created,
    register_username_checked,
};
use carnival::web::models::User;

#[test]
fn client_defaults_are_empty() {
    let c = ClientState::default();
    assert_eq!((c.client_state, c.previous_state), (Menu::Unknown, Menu::Unknown));
    let g = GameState::default();
    assert!(g.blue_team.is_empty() && g.red_team.is_empty());
}

#[test]
fn client_click_chain_by_owned_name() {
    let mut chains = ChainTable::new();
    chains.insert("go".to_string(), vec![Action { x: 5, y: 6, delay: 7 }, Action { x: 8, y: 9, delay: 0 }]);
    let actions = Actions { chains };
    let mut plan = Vec::new();
    actions.invoke_chain("go".to_string(), &mut plan);
    assert_eq!(plan.len(), 4);
    assert!(matches!(plan[2], InputStep::Click { x: 8, y: 9 }));
}

#[test]
fn server_client_state_dummy_data() {
    let mut c = ServerClientState::default();
    assert_eq!(c.client_state, ServerMenu::Unknown);
    c.test_set_dummy_data();
    assert_eq!((c.client_state, c.previous_state), (ServerMenu::CustomSettingsRoot, ServerMenu::CustomLobby));
}

#[test]
fn first_site_registration_and_login() {
    assert_eq!(register_begin("a", "b"), Some("Passwords do not match".to_string()));
    assert_eq!(register_begin("a", "a"), None);
    assert_eq!(register_username_checked(true), Some("Username already exists".to_string()));
    assert_eq!(register_username_checked(false), None);
    assert_eq!(register_created(true), "Ok");
    assert_eq!(register_created(false), "Error creating user.");
    assert_eq!(login_user_known(false), Some("User does not exist".to_string()));
    assert_eq!(login_user_known(true), None);
    let hash = easy_password::bcrypt::hash_password("pw", b"dev-VERYsecure", 4).unwrap();
    let user = User::new("ana".to_string(), hash);
    assert_eq!(user.get_username(), "ana");
    assert_eq!(login_check_password(Some(&user), "pw"), Some("totally-real-token".to_string()));
    assert_eq!(login_check_password(Some(&user), "nope"), Some("Incorrect username or password".to_string()));
    assert_eq!(login_check_password(None, "pw"), Some("Error fetching user".to_string()));
    let broken = User::new("bo".to_string(), "x".to_string());
    assert_eq!(login_check_password(Some(&broken), "pw"), None);
}
