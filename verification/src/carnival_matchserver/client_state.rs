//! Which menu the Overwatch client shows, how to move on from it, and how to
//! tell the menus apart from what the client's memory holds.

use vstd::prelude::*;
use vstd::string::*;
use crate::carnival_matchserver::input::{InputStep, Step, plan_view, chain_steps};
use crate::carnival_matchserver::static_actions::ActionChain;
use crate::carnival_matchserver::game_state::{GameState, GameStateView};

verus! {

/// The menus of the Overwatch client.
#[derive(Clone, Copy, PartialEq, Eq, Structural, Debug)]
pub enum Menu {
    MainMenu,
    PlayMenu,
    InGame,
    CustomList,
    CustomLobby,
    CustomSettingsRoot,
    CustomSettingsPreset,
    CustomSettingsLobby,
    CustomSettingsModes,
    CustomSettingsMaps,
    CustomSettingsHeroes,
    CustomSettingsWorkshop,
    Unknown,
}

impl Default for Menu {
    fn default() -> (r: Self)
        ensures
            r == Menu::Unknown,
    {
        Menu::Unknown
    }
}

/// The steps of the chain stored under `name`.
pub open spec fn named_steps(chains: ActionChain, name: Seq<char>) -> Seq<Step> {
    chain_steps(chains.chain(name)->0)
}

/// The chains that moving on from `menu` plays, in order, given whether the
/// lobby has been set up: from the main menu, open a custom lobby; in an
/// unconfigured custom lobby, move to spectators, load the preset and make
/// the lobby invite only. Any other menu plays nothing.
pub open spec fn advance_chains(menu: Menu, configured: bool) -> Seq<Seq<char>> {
    match menu {
        Menu::MainMenu => seq!["custom_lobby"@],
        Menu::CustomLobby => if !configured {
            seq!["move_self_spec"@, "set_preset"@, "set_invite_only"@]
        } else {
            Seq::empty()
        },
        _ => Seq::empty(),
    }
}

/// The steps of the chains named in `names`, in order.
pub open spec fn chains_steps(chains: ActionChain, names: Seq<Seq<char>>) -> Seq<Step>
    decreases names.len(),
{
    if names.len() == 0 {
        Seq::empty()
    } else {
        chains_steps(chains, names.drop_last()) + named_steps(chains, names.last())
    }
}

impl Menu {
    /// The names of the chains that moving on from this menu plays, in
    /// order, given whether the lobby has been set up.
    pub fn advance_names(&self, configured: bool) -> (r: Vec<&'static str>)
        ensures
            r@.len() == advance_chains(*self, configured).len(),
            forall|i: int| 0 <= i < r@.len() ==> #[trigger] r@[i]@ == advance_chains(*self, configured)[i],
    {
        let mut names: Vec<&'static str> = Vec::new();
        match self {
            Menu::MainMenu => {
                names.push("custom_lobby");
            },
            Menu::CustomLobby => {
                if !configured {
                    names.push("move_self_spec");
                    names.push("set_preset");
                    names.push("set_invite_only");
                }
            },
            _ => {},
        }
        names
    }

    /// Plans the input that moves the client on from this menu, and records
    /// when the lobby has been set up. Every chain it plays must be present.
    pub fn advance(&self, action_chains: &ActionChain, game_state: &mut GameState, plan: &mut Vec<InputStep>)
        requires
            forall|i: int|
                0 <= i < advance_chains(*self, old(game_state)@.game_configured).len()
                    ==> action_chains.chain(
                    #[trigger] advance_chains(*self, old(game_state)@.game_configured)[i],
                ) is Some,
        ensures
            plan_view(final(plan)@) == plan_view(old(plan)@) + chains_steps(
                *action_chains,
                advance_chains(*self, old(game_state)@.game_configured),
            ),
            final(game_state)@ == (if *self == Menu::CustomLobby {
                GameStateView { game_configured: true, ..old(game_state)@ }
            } else {
                old(game_state)@
            }),
    {
        let ghost names = advance_chains(*self, old(game_state)@.game_configured);
        match self {
            Menu::MainMenu => {
                assert(names[0] == "custom_lobby"@);
                action_chains.invoke_chain("custom_lobby", plan);
                assert(names.drop_last() =~= Seq::<Seq<char>>::empty());
                assert(chains_steps(*action_chains, names.drop_last()) =~= Seq::<Step>::empty());
                assert(plan_view(plan@) =~= plan_view(old(plan)@) + chains_steps(*action_chains, names));
            },
            Menu::CustomLobby => {
                if !game_state.game_configured() {
                    assert(names[0] == "move_self_spec"@);
                    assert(names[1] == "set_preset"@);
                    assert(names[2] == "set_invite_only"@);
                    action_chains.invoke_chain("move_self_spec", plan).invoke_chain(
                        "set_preset",
                        plan,
                    ).invoke_chain("set_invite_only", plan);
                    assert(names.drop_last() =~= seq!["move_self_spec"@, "set_preset"@]);
                    assert(names.drop_last().drop_last() =~= seq!["move_self_spec"@]);
                    assert(names.drop_last().drop_last().drop_last() =~= Seq::<Seq<char>>::empty());
                    let ghost c = *action_chains;
                    assert(chains_steps(c, names.drop_last().drop_last().drop_last()) =~= Seq::<Step>::empty());
                    assert(chains_steps(c, names.drop_last().drop_last()) =~= named_steps(c, "move_self_spec"@));
                    assert(chains_steps(c, names.drop_last()) =~= named_steps(c, "move_self_spec"@) + named_steps(c, "set_preset"@));
                    assert(chains_steps(c, names) =~= named_steps(c, "move_self_spec"@) + named_steps(c, "set_preset"@) + named_steps(c, "set_invite_only"@));
                    assert(plan_view(plan@) =~= plan_view(old(plan)@) + chains_steps(c, names));
                    // Don't love this.
                    game_state.set_game_configured(true);
                } else {
                    assert(plan_view(plan@) =~= plan_view(old(plan)@) + chains_steps(*action_chains, names));
                    game_state.set_game_configured(true);
                }
            },
            _ => {
                assert(plan_view(plan@) =~= plan_view(old(plan)@) + chains_steps(*action_chains, names));
            },
        }
    }
}


/// The custom lobby is set up once: after moving on from an unconfigured
/// custom lobby the game is marked configured, and moving on from the custom
/// lobby again plays no chain.
pub proof fn law_lobby_set_up_once(before: GameStateView)
    ensures
        advance_chains(Menu::CustomLobby, before.game_configured).len() == (if before.game_configured {
            0int
        } else {
            3int
        }),
        advance_chains(
            Menu::CustomLobby,
            (GameStateView { game_configured: true, ..before }).game_configured,
        ).len() == 0,
{
}

/// The menu the client shows now and the one it showed before.
#[derive(Debug)]
pub struct ClientState {
    client_state: Menu,
    previous_state: Menu,
}

/// The mathematical meaning of a client state.
pub struct ClientStateView {
    pub client_state: Menu,
    pub previous_state: Menu,
}

impl View for ClientState {
    type V = ClientStateView;

    closed spec fn view(&self) -> ClientStateView {
        ClientStateView { client_state: self.client_state, previous_state: self.previous_state }
    }
}

impl Default for ClientState {
    fn default() -> (r: Self)
        ensures
            r@ == (ClientStateView { client_state: Menu::Unknown, previous_state: Menu::Unknown }),
    {
        ClientState { client_state: Menu::Unknown, previous_state: Menu::Unknown }
    }
}

/// What the client's memory is searched for at one stage of telling the menus
/// apart.
#[derive(Debug)]
pub enum Probe {
    /// Count the frame counter readings above 60 frames per second.
    FpsAbove60,
    /// Count the places where `needle` occurs, stopping a search thread once
    /// it has found `break_at_count` of them.
    Text { needle: String, break_at_count: usize },
}

/// The mathematical meaning of a probe.
pub enum ProbeView {
    FpsAbove60,
    Text(Seq<char>, usize),
}

impl View for Probe {
    type V = ProbeView;

    open spec fn view(&self) -> ProbeView {
        match self {
            Probe::FpsAbove60 => ProbeView::FpsAbove60,
            Probe::Text { needle, break_at_count } => ProbeView::Text(needle@, *break_at_count),
        }
    }
}

/// What to do after a probe: settle on a menu (after pausing `pause_secs`
/// seconds), or run the probe of the next stage.
#[derive(Debug, PartialEq, Eq, Structural)]
pub enum Verdict {
    Decided { menu: Menu, pause_secs: u64 },
    Next { stage: usize },
}

/// The number of stages of telling the menus apart.
pub const DETERMINE_STAGES: usize = 5;

/// The probe of each stage: the frame counter, the lobby's "Add AI" button,
/// the engine build shown on the main menu, the play menu's banner, and the
/// custom game browser's header.
pub open spec fn stage_probe(stage: int) -> ProbeView {
    if stage == 0 {
        ProbeView::FpsAbove60
    } else if stage == 1 {
        ProbeView::Text("Add AI"@, 3)
    } else if stage == 2 {
        ProbeView::Text("2.7.0.0 - 117535"@, 9)
    } else if stage == 3 {
        ProbeView::Text("Jump into"@, 4)
    } else {
        ProbeView::Text("All Games"@, 4)
    }
}

/// The count at which a stage recognises its menu.
pub open spec fn stage_recognises(stage: int, count: int) -> bool {
    if stage == 0 {
        count > 4
    } else if stage == 1 {
        count > 2
    } else if stage == 2 {
        count > 8
    } else if stage == 3 {
        count > 4
    } else {
        count >= 4
    }
}

/// The menu that each stage recognises.
pub open spec fn stage_menu(stage: int) -> Menu {
    if stage == 0 {
        Menu::InGame
    } else if stage == 1 {
        Menu::CustomLobby
    } else if stage == 2 {
        Menu::MainMenu
    } else if stage == 3 {
        Menu::PlayMenu
    } else {
        Menu::CustomList
    }
}

impl ClientState {
    /// A client state showing `client_state`, having shown `previous_state`.
    pub fn from_menus(client_state: Menu, previous_state: Menu) -> (r: Self)
        ensures
            r@ == (ClientStateView { client_state, previous_state }),
    {
        ClientState { client_state, previous_state }
    }

    /// The menu the client shows.
    pub fn current(&self) -> (r: Menu)
        ensures
            r == self@.client_state,
    {
        self.client_state
    }

    /// The menu the client showed before.
    pub fn previous(&self) -> (r: Menu)
        ensures
            r == self@.previous_state,
    {
        self.previous_state
    }

    /// Sets made-up menus, for testing.
    pub fn test_set_dummy_data(&mut self)
        ensures
            final(self)@ == (ClientStateView {
                client_state: Menu::CustomSettingsRoot,
                previous_state: Menu::CustomLobby,
            }),
    {
        self.client_state = Menu::CustomSettingsRoot;
        self.previous_state = Menu::CustomLobby;
    }

    /// The probe to run at `stage`.
    pub fn determine_probe(stage: usize) -> (p: Probe)
        requires
            stage < DETERMINE_STAGES,
        ensures
            p@ == stage_probe(stage as int),
    {
        if stage == 0 {
            Probe::FpsAbove60
        } else if stage == 1 {
            Probe::Text { needle: String::from_str("Add AI"), break_at_count: 3 }
        } else if stage == 2 {
            Probe::Text { needle: String::from_str("2.7.0.0 - 117535"), break_at_count: 9 }
        } else if stage == 3 {
            Probe::Text { needle: String::from_str("Jump into"), break_at_count: 4 }
        } else {
            Probe::Text { needle: String::from_str("All Games"), break_at_count: 4 }
        }
    }

    /// Decides on the count that the probe of `stage` found: the stage's menu
    /// if the count is enough (after a pause of a second when in game), else
    /// the next stage, else `Unknown` after the last stage.
    pub fn determine(&self, stage: usize, count: usize) -> (v: Verdict)
        requires
            stage < DETERMINE_STAGES,
        ensures
            v == (if stage_recognises(stage as int, count as int) {
                Verdict::Decided {
                    menu: stage_menu(stage as int),
                    pause_secs: if stage == 0 { 1u64 } else { 0u64 },
                }
            } else if stage + 1 < DETERMINE_STAGES {
                Verdict::Next { stage: (stage + 1) as usize }
            } else {
                Verdict::Decided { menu: Menu::Unknown, pause_secs: 0 }
            }),
    {
        if stage == 0 {
            // Check if in game
            if count > 4 {
                return Verdict::Decided { menu: Menu::InGame, pause_secs: 1 };
            }
        } else if stage == 1 {
            if count > 2 {
                return Verdict::Decided { menu: Menu::CustomLobby, pause_secs: 0 };
            }
        } else if stage == 2 {
            // Current engine build #
            if count > 8 {
                return Verdict::Decided { menu: Menu::MainMenu, pause_secs: 0 };
            }
        } else if stage == 3 {
            if count > 4 {
                return Verdict::Decided { menu: Menu::PlayMenu, pause_secs: 0 };
            }
        } else {
            // This is inconsistent. The count has been seen as low as 18 and as high as 52.
            if count >= 4 {
                return Verdict::Decided { menu: Menu::CustomList, pause_secs: 0 };
            }
        }
        if stage + 1 < DETERMINE_STAGES {
            Verdict::Next { stage: stage + 1 }
        } else {
            Verdict::Decided { menu: Menu::Unknown, pause_secs: 0 }
        }
    }
}

/// Each stage searches for what its menu shows: the frame counter in game,
/// the "Add AI" button of a custom lobby, the engine build on the main
/// menu, the "Jump into" banner of the play menu and the "All Games" header
/// of the game browser; the stages run in that order, each with its own
/// threshold.
pub proof fn law_stage_probes_match_menus(stage: int, count: int)
    requires
        0 <= stage < 5,
    ensures
        stage == 0 ==> stage_menu(stage) == Menu::InGame,
        stage == 1 ==> stage_menu(stage) == Menu::CustomLobby,
        stage == 2 ==> stage_menu(stage) == Menu::MainMenu,
        stage == 3 ==> stage_menu(stage) == Menu::PlayMenu,
        stage == 4 ==> stage_menu(stage) == Menu::CustomList,
        stage_menu(stage) == Menu::InGame ==> stage_probe(stage) == ProbeView::FpsAbove60
            && (stage_recognises(stage, count) <==> count > 4),
        stage_menu(stage) == Menu::CustomLobby ==> stage_probe(stage) == ProbeView::Text("Add AI"@, 3)
            && (stage_recognises(stage, count) <==> count > 2),
        stage_menu(stage) == Menu::MainMenu ==> stage_probe(stage) == ProbeView::Text(
            "2.7.0.0 - 117535"@,
            9,
        ) && (stage_recognises(stage, count) <==> count > 8),
        stage_menu(stage) == Menu::PlayMenu ==> stage_probe(stage) == ProbeView::Text("Jump into"@, 4)
            && (stage_recognises(stage, count) <==> count > 4),
        stage_menu(stage) == Menu::CustomList ==> stage_probe(stage) == ProbeView::Text("All Games"@, 4)
            && (stage_recognises(stage, count) <==> count >= 4),
{
}

/// From the main menu the client opens a custom lobby; in a custom lobby
/// not yet set up it moves itself to spectators, loads the preset and makes
/// the lobby invite only, in that order; every other menu plays nothing.
pub proof fn law_advance_chain_names(menu: Menu, configured: bool)
    ensures
        menu == Menu::MainMenu ==> advance_chains(menu, configured) == seq!["custom_lobby"@],
        menu == Menu::CustomLobby && !configured ==> advance_chains(menu, configured) == seq![
            "move_self_spec"@,
            "set_preset"@,
            "set_invite_only"@,
        ],
        menu != Menu::MainMenu && !(menu == Menu::CustomLobby && !configured) ==> advance_chains(
            menu,
            configured,
        ).len() == 0,
{
}

} // verus!
