//! The HTML the web site serves, built from page templates and the data to
//! show. The program around the library reads the templates from disk and
//! hands over what it read (`None`: the file could not be read).

use vstd::prelude::*;
use vstd::string::*;
use crate::text::{replace_all, replaced, i32_text, signed_decimal_text};
use crate::carnival_web::models::User;
use crate::carnival_web::queue::{ResolvedQueue, ResolvedQueuePlayer};
use crate::carnival_web::user::LeaderboardEntry;

verus! {

/// The text of a file that was read, or the empty text if it could not be.
pub open spec fn or_empty(read: Option<String>) -> Seq<char> {
    match read {
        Some(s) => s@,
        None => Seq::empty(),
    }
}

/// A file's text, or the empty text if it could not be read.
pub fn read_to_fucking_string(read: Option<String>) -> (r: String)
    ensures
        r@ == or_empty(read),
{
    match read {
        Some(s) => s,
        None => String::new(),
    }
}

/// The views of pairs of texts.
pub open spec fn pair_views(pairs: Seq<(&str, &str)>) -> Seq<(Seq<char>, Seq<char>)> {
    pairs.map_values(|p: (&str, &str)| (p.0@, p.1@))
}

/// `s` after replacing, pair by pair in order, every match of the pair's
/// first text with its second.
pub open spec fn replace_each(s: Seq<char>, pairs: Seq<(Seq<char>, Seq<char>)>) -> Seq<char>
    decreases pairs.len(),
{
    if pairs.len() == 0 {
        s
    } else {
        replaced(replace_each(s, pairs.drop_last()), pairs.last().0, pairs.last().1)
    }
}

/// A template filled in: each placeholder replaced by its text, pair by pair
/// in order. A template that could not be read is the empty text.
pub fn load_file_replace_shit(file_contents: Option<String>, shit: &[(&str, &str)]) -> (r: String)
    ensures
        r@ == replace_each(or_empty(file_contents), pair_views(shit@)),
{
    let mut contents = read_to_fucking_string(file_contents);
    let ghost start = contents@;
    let n = shit.len();
    let mut i: usize = 0;
    assert(pair_views(shit@).take(0) =~= Seq::<(Seq<char>, Seq<char>)>::empty());
    while i < n
        invariant
            n == shit@.len(),
            i <= n,
            start == or_empty(file_contents),
            contents@ == replace_each(start, pair_views(shit@).take(i as int)),
        decreases n - i,
    {
        let (from, to) = shit[i];
        contents = replace_all(contents.as_str(), from, to);
        proof {
            let pv = pair_views(shit@);
            assert(pv.take(i + 1).drop_last() =~= pv.take(i as int));
            assert(pv.take(i + 1).last() == (from@, to@));
        }
        i = i + 1;
    }
    assert(pair_views(shit@).take(n as int) =~= pair_views(shit@));
    contents
}

/// One cell of a table row: the value, linking to its profile page.
pub open spec fn table_cell(v: Seq<char>) -> Seq<char> {
    "<td class=\"row opacity-0\"><a href=\"/@"@ + v + "\">"@ + v + "</a></td>"@
}

/// The cells of a table row, in order.
pub open spec fn table_cells(values: Seq<Seq<char>>) -> Seq<char>
    decreases values.len(),
{
    if values.len() == 0 {
        Seq::empty()
    } else {
        table_cells(values.drop_last()) + table_cell(values.last())
    }
}

/// A table row with one cell per value.
pub open spec fn table_row(values: Seq<Seq<char>>) -> Seq<char> {
    "<tr>"@ + table_cells(values) + "</tr>"@
}

/// The views of a list of texts.
pub open spec fn str_views(values: Seq<&str>) -> Seq<Seq<char>> {
    values.map_values(|v: &str| v@)
}

/// A table row with one cell per value, each linking to the profile page
/// named by the value.
pub fn generate_table_row(values: &[&str]) -> (r: String)
    ensures
        r@ == table_row(str_views(values@)),
{
    let mut ret = String::from_str("<tr>");
    let n = values.len();
    let mut i: usize = 0;
    assert(str_views(values@).take(0) =~= Seq::<Seq<char>>::empty());
    while i < n
        invariant
            n == values@.len(),
            i <= n,
            ret@ == "<tr>"@ + table_cells(str_views(values@).take(i as int)),
        decreases n - i,
    {
        let val = values[i];
        ret.append("<td class=\"row opacity-0\"><a href=\"/@");
        ret.append(val);
        ret.append("\">");
        ret.append(val);
        ret.append("</a></td>");
        proof {
            let vs = str_views(values@);
            assert(vs.take(i + 1).drop_last() =~= vs.take(i as int));
            assert(vs.take(i + 1).last() == val@);
            assert(ret@ =~= "<tr>"@ + table_cells(vs.take(i + 1)));
        }
        i = i + 1;
    }
    ret.append("</tr>");
    assert(str_views(values@).take(n as int) =~= str_views(values@));
    ret
}

/// What stands in for the animation script when it cannot be read.
pub open spec fn missing_domino_js() -> Seq<char> {
    "<script>console.log('ruhroh disk boom')"@
}

/// The script that animates table rows, run when the page loads or, with
/// `event_htmx_afterload`, after each content swap.
pub open spec fn domino_script(event_htmx_afterload: bool, js: Seq<char>) -> Seq<char> {
    "<script>"@ + (if event_htmx_afterload {
        "document.addEventListener(\"htmx:afterOnLoad\", () => {"@
    } else {
        Seq::empty()
    }) + js + (if event_htmx_afterload {
        "});"@
    } else {
        Seq::empty()
    }) + "</script>"@
}

/// The table row animation, from the script file's text.
pub fn table_domino(event_htmx_afterload: bool, file_contents: Option<String>) -> (r: String)
    ensures
        r@ == domino_script(
            event_htmx_afterload,
            match file_contents {
                Some(s) => s@,
                None => missing_domino_js(),
            },
        ),
{
    let mut ret = String::from_str("<script>");
    let contents = match file_contents {
        Some(s) => s,
        None => String::from_str("<script>console.log('ruhroh disk boom')"),
    };
    if event_htmx_afterload {
        ret.append("document.addEventListener(\"htmx:afterOnLoad\", () => {");
    }
    ret.append(contents.as_str());
    if event_htmx_afterload {
        ret.append("});");
    }
    ret.append("</script>");
    assert(ret@ =~= domino_script(
        event_htmx_afterload,
        match file_contents {
            Some(s) => s@,
            None => missing_domino_js(),
        },
    ));
    ret
}

/// The animated page header: the header script with its placeholder replaced
/// by the header text.
pub open spec fn header_script(header_js: Option<String>, header_text: Seq<char>) -> Seq<char> {
    replaced(or_empty(header_js), "^.^"@, header_text)
}

/// The animated page header, from the header script file's text.
pub fn animated_header(header_js: Option<String>, header_text: &str) -> (r: String)
    ensures
        r@ == header_script(header_js, header_text@),
{
    let pairs = [("^.^", header_text)];
    let r = load_file_replace_shit(header_js, &pairs);
    proof {
        let pv = pair_views(pairs@);
        assert(pairs@.len() == 1);
        assert(pv.last() == ("^.^"@, header_text@));
        assert(pv.drop_last() =~= Seq::<(Seq<char>, Seq<char>)>::empty());
        assert(replace_each(or_empty(header_js), pv.drop_last()) == or_empty(header_js));
    }
    r
}

/// The file that holds the queue button for a user who is or is not queued.
pub fn queue_button(is_queued: bool) -> (r: &'static str)
    ensures
        r@ == (if is_queued {
            "static/html/queue_button_queued.html"@
        } else {
            "static/html/queue_button_notqueued.html"@
        }),
{
    if is_queued {
        "static/html/queue_button_queued.html"
    } else {
        "static/html/queue_button_notqueued.html"
    }
}


/// One entry of the navigation bar.
pub open spec fn nav_item(link: Seq<char>, label: Seq<char>) -> Seq<char> {
    "<li><a href=\"/"@ + link + "\">"@ + label + "</a></li>"@
}

/// The navigation bar: the leaderboard, play and settings for a signed-in
/// user; the leaderboard, registration and login for anyone else (user id 0).
pub open spec fn nav_items(user_id: i32) -> Seq<char> {
    if user_id == 0 {
        nav_item("leaderboard"@, "Leaderboard"@) + nav_item("register"@, "Register"@) + nav_item(
            "login"@,
            "Login"@,
        )
    } else {
        nav_item("leaderboard"@, "Leaderboard"@) + nav_item("play"@, "Play"@) + nav_item(
            "settings/user"@,
            "Settings"@,
        )
    }
}

fn push_nav_item(list: &mut String, link: &str, label: &str)
    ensures
        final(list)@ == old(list)@ + nav_item(link@, label@),
{
    list.append("<li><a href=\"/");
    list.append(link);
    list.append("\">");
    list.append(label);
    list.append("</a></li>");
    assert(list@ =~= old(list)@ + nav_item(link@, label@));
}

/// The page frame: the base template with the navigation bar for the user
/// the request's session belongs to (`None`: nobody).
pub fn base(template: Option<String>, user: Option<User>) -> (r: String)
    ensures
        r@ == replaced(
            or_empty(template),
            "header_items_"@,
            nav_items(
                match user {
                    Some(u) => u.id,
                    None => 0,
                },
            ),
        ),
{
    let user = user.unwrap_or_default();
    let mut header_list = String::new();
    if user.id == 0 {
        push_nav_item(&mut header_list, "leaderboard", "Leaderboard");
        push_nav_item(&mut header_list, "register", "Register");
        push_nav_item(&mut header_list, "login", "Login");
    } else {
        push_nav_item(&mut header_list, "leaderboard", "Leaderboard");
        push_nav_item(&mut header_list, "play", "Play");
        push_nav_item(&mut header_list, "settings/user", "Settings");
    }
    assert(header_list@ =~= nav_items(user.id));
    let pairs = [("header_items_", header_list.as_str())];
    let r = load_file_replace_shit(template, &pairs);
    proof {
        let pv = pair_views(pairs@);
        assert(pv.last() == ("header_items_"@, header_list@));
        assert(pv.drop_last() =~= Seq::<(Seq<char>, Seq<char>)>::empty());
        assert(replace_each(or_empty(template), pv.drop_last()) == or_empty(template));
    }
    r
}

/// The leaderboard row of an entry: name, battletag, rating, wins, losses
/// and role.
pub open spec fn leaderboard_row(e: LeaderboardEntry) -> Seq<char> {
    table_row(
        seq![
            e.username@,
            e.battletag@,
            signed_decimal_text(e.rating as int),
            signed_decimal_text(e.wins as int),
            signed_decimal_text(e.losses as int),
            e.role@,
        ],
    )
}

/// The leaderboard rows of the entries, in order.
pub open spec fn leaderboard_rows(entries: Seq<LeaderboardEntry>) -> Seq<char>
    decreases entries.len(),
{
    if entries.len() == 0 {
        Seq::empty()
    } else {
        leaderboard_rows(entries.drop_last()) + leaderboard_row(entries.last())
    }
}

/// The leaderboard rows of the entries.
pub fn leaderboard_table_rows(entries: &Vec<LeaderboardEntry>) -> (r: String)
    ensures
        r@ == leaderboard_rows(entries@),
{
    let mut rows = String::new();
    let n = entries.len();
    let mut i: usize = 0;
    assert(entries@.take(0) =~= Seq::<LeaderboardEntry>::empty());
    while i < n
        invariant
            n == entries@.len(),
            i <= n,
            rows@ == leaderboard_rows(entries@.take(i as int)),
        decreases n - i,
    {
        let entry = &entries[i];
        let rating = i32_text(entry.rating);
        let wins = i32_text(entry.wins);
        let losses = i32_text(entry.losses);
        let values = [
            entry.username.as_str(),
            entry.battletag.as_str(),
            rating.as_str(),
            wins.as_str(),
            losses.as_str(),
            entry.role.as_str(),
        ];
        let row = generate_table_row(&values);
        rows.append(row.as_str());
        proof {
            assert(str_views(values@) =~= seq![
                entry.username@,
                entry.battletag@,
                signed_decimal_text(entry.rating as int),
                signed_decimal_text(entry.wins as int),
                signed_decimal_text(entry.losses as int),
                entry.role@,
            ]);
            assert(entries@.take(i + 1).drop_last() =~= entries@.take(i as int));
            assert(entries@.take(i + 1).last() == *entry);
        }
        i = i + 1;
    }
    assert(entries@.take(n as int) =~= entries@);
    rows
}

/// The leaderboard: the leaderboard template filled with the row animation,
/// the rows (none when the entries could not be read), and the header.
pub fn leaderboard_comp(
    page: Option<String>,
    domino_js: Option<String>,
    header_js: Option<String>,
    entries: Option<Vec<LeaderboardEntry>>,
) -> (r: String)
    ensures
        r@ == replace_each(
            or_empty(page),
            seq![
                ("table_domino_js_"@, domino_script(false, match domino_js {
                    Some(s) => s@,
                    None => missing_domino_js(),
                })),
                ("rows_"@, match entries {
                    Some(es) => leaderboard_rows(es@),
                    None => Seq::empty(),
                }),
                ("animated_header_"@, header_script(header_js, "Leaderboard"@)),
            ],
        ),
{
    let rows = match &entries {
        Some(es) => leaderboard_table_rows(es),
        None => String::new(),
    };
    let domino = table_domino(false, domino_js);
    let header = animated_header(header_js, "Leaderboard");
    let pairs = [
        ("table_domino_js_", domino.as_str()),
        ("rows_", rows.as_str()),
        ("animated_header_", header.as_str()),
    ];
    let r = load_file_replace_shit(page, &pairs);
    proof {
        assert(pair_views(pairs@) =~= seq![
            ("table_domino_js_"@, domino_script(false, match domino_js {
                Some(s) => s@,
                None => missing_domino_js(),
            })),
            ("rows_"@, match entries {
                Some(es) => leaderboard_rows(es@),
                None => Seq::empty(),
            }),
            ("animated_header_"@, header_script(header_js, "Leaderboard"@)),
        ]);
    }
    r
}

/// The queue row of a player: battletag, role, rating, wins and losses.
pub open spec fn queue_row(p: ResolvedQueuePlayer) -> Seq<char> {
    table_row(
        seq![
            p.battletag@,
            p.role@,
            signed_decimal_text(p.rating as int),
            signed_decimal_text(p.wins as int),
            signed_decimal_text(p.losses as int),
        ],
    )
}

/// The queue rows of the players, in order.
pub open spec fn queue_rows(players: Seq<ResolvedQueuePlayer>) -> Seq<char>
    decreases players.len(),
{
    if players.len() == 0 {
        Seq::empty()
    } else {
        queue_rows(players.drop_last()) + queue_row(players.last())
    }
}

/// The queue rows of the players.
pub fn queue_table_rows(players: &Vec<ResolvedQueuePlayer>) -> (r: String)
    ensures
        r@ == queue_rows(players@),
{
    let mut rows = String::new();
    let n = players.len();
    let mut i: usize = 0;
    assert(players@.take(0) =~= Seq::<ResolvedQueuePlayer>::empty());
    while i < n
        invariant
            n == players@.len(),
            i <= n,
            rows@ == queue_rows(players@.take(i as int)),
        decreases n - i,
    {
        let p = &players[i];
        let rating = i32_text(p.rating);
        let wins = i32_text(p.wins);
        let losses = i32_text(p.losses);
        let values = [
            p.battletag.as_str(),
            p.role.as_str(),
            rating.as_str(),
            wins.as_str(),
            losses.as_str(),
        ];
        let row = generate_table_row(&values);
        rows.append(row.as_str());
        proof {
            assert(str_views(values@) =~= seq![
                p.battletag@,
                p.role@,
                signed_decimal_text(p.rating as int),
                signed_decimal_text(p.wins as int),
                signed_decimal_text(p.losses as int),
            ]);
            assert(players@.take(i + 1).drop_last() =~= players@.take(i as int));
            assert(players@.take(i + 1).last() == *p);
        }
        i = i + 1;
    }
    assert(players@.take(n as int) =~= players@);
    rows
}

/// What the queue component shows when the request's session is not usable.
pub fn queue_auth_failure() -> (r: String)
    ensures
        r@ == "<div class=\"text-xl text-center\">Couldn't be authenticated</div>"@,
{
    String::from_str("<div class=\"text-xl text-center\">Couldn't be authenticated</div>")
}

/// The queue component for a signed-in user named `username`: the queue
/// template filled with the row animation, the header, the site's address,
/// the user's name, and the rows of each role.
pub open spec fn signed_in_queue_page(
    username: Seq<char>,
    resolved_queue: ResolvedQueue,
    page: Option<String>,
    domino_js: Option<String>,
    header_js: Option<String>,
    domain: Seq<char>,
) -> Seq<char> {
    replace_each(
        or_empty(page),
        seq![
            ("table_domino_js_"@, domino_script(true, match domino_js {
                Some(s) => s@,
                None => missing_domino_js(),
            })),
            ("animated_header_"@, header_script(header_js, "Queue"@)),
            ("domain_"@, domain),
            ("_username_"@, username),
            ("tank_rows_"@, queue_rows(resolved_queue.tanks@)),
            ("dps_rows_"@, queue_rows(resolved_queue.dps@)),
            ("support_rows_"@, queue_rows(resolved_queue.supports@)),
        ],
    )
}

/// The queue component for the user the request's session belongs to
/// (`None`: no usable session): for a signed-in user, the filled queue
/// template; otherwise the authentication failure, whatever the queue holds.
pub fn build_queue_comp(
    username: Option<&str>,
    resolved_queue: &ResolvedQueue,
    page: Option<String>,
    domino_js: Option<String>,
    header_js: Option<String>,
    domain: &str,
) -> (r: String)
    ensures
        r@ == match username {
            Some(name) => signed_in_queue_page(name@, *resolved_queue, page, domino_js, header_js, domain@),
            None => "<div class=\"text-xl text-center\">Couldn't be authenticated</div>"@,
        },
{
    match username {
        Some(name) => signed_in_queue_comp(name, resolved_queue, page, domino_js, header_js, domain),
        None => queue_auth_failure(),
    }
}

fn signed_in_queue_comp(
    username: &str,
    resolved_queue: &ResolvedQueue,
    page: Option<String>,
    domino_js: Option<String>,
    header_js: Option<String>,
    domain: &str,
) -> (r: String)
    ensures
        r@ == signed_in_queue_page(username@, *resolved_queue, page, domino_js, header_js, domain@),
{
    let tank_rows = queue_table_rows(&resolved_queue.tanks);
    let dps_rows = queue_table_rows(&resolved_queue.dps);
    let support_rows = queue_table_rows(&resolved_queue.supports);
    let domino = table_domino(true, domino_js);
    let header = animated_header(header_js, "Queue");
    let pairs = [
        ("table_domino_js_", domino.as_str()),
        ("animated_header_", header.as_str()),
        ("domain_", domain),
        ("_username_", username),
        ("tank_rows_", tank_rows.as_str()),
        ("dps_rows_", dps_rows.as_str()),
        ("support_rows_", support_rows.as_str()),
    ];
    let r = load_file_replace_shit(page, &pairs);
    proof {
        assert(pair_views(pairs@) =~= seq![
            ("table_domino_js_"@, domino_script(true, match domino_js {
                Some(s) => s@,
                None => missing_domino_js(),
            })),
            ("animated_header_"@, header_script(header_js, "Queue"@)),
            ("domain_"@, domain@),
            ("_username_"@, username@),
            ("tank_rows_"@, queue_rows(resolved_queue.tanks@)),
            ("dps_rows_"@, queue_rows(resolved_queue.dps@)),
            ("support_rows_"@, queue_rows(resolved_queue.supports@)),
        ]);
    }
    r
}

/// The user panel of the queue page: the panel template with the user's
/// name and the queue button (from its file's text).
pub fn queue_user_panel(page: Option<String>, username: &str, button: Option<String>) -> (r: String)
    ensures
        r@ == replace_each(
            or_empty(page),
            seq![("_username_"@, username@), ("queue_button_"@, or_empty(button))],
        ),
{
    let button = read_to_fucking_string(button);
    let pairs = [("_username_", username), ("queue_button_", button.as_str())];
    let r = load_file_replace_shit(page, &pairs);
    proof {
        assert(pair_views(pairs@) =~= seq![("_username_"@, username@), ("queue_button_"@, button@)]);
    }
    r
}

/// The profile page of `username`: the profile template with a header of the
/// name and role, the rating, wins and losses, and the queue button. A user
/// who could not be found shows as the empty account.
pub fn profile_comp(
    page: Option<String>,
    header_js: Option<String>,
    username: &str,
    user: Option<User>,
    button: Option<String>,
) -> (r: String)
    ensures
        r@ == replace_each(
            or_empty(page),
            seq![
                ("animated_header_"@, header_script(header_js, username@ + " - "@ + match user {
                    Some(u) => u.role@,
                    None => Seq::empty(),
                })),
                ("_rating_"@, signed_decimal_text(match user { Some(u) => u.rating as int, None => 0 })),
                ("_wins_"@, signed_decimal_text(match user { Some(u) => u.wins as int, None => 0 })),
                ("_losses_"@, signed_decimal_text(match user { Some(u) => u.losses as int, None => 0 })),
                ("queue_button_"@, or_empty(button)),
            ],
        ),
{
    let ghost old_user = user;
    let ghost old_button = button;
    let user = match user {
        Some(u) => u,
        None => User::default(),
    };
    let mut title = String::from_str(username);
    title.append(" - ");
    title.append(user.role.as_str());
    let header = animated_header(header_js, title.as_str());
    let rating = i32_text(user.rating);
    let wins = i32_text(user.wins);
    let losses = i32_text(user.losses);
    let button = read_to_fucking_string(button);
    let pairs = [
        ("animated_header_", header.as_str()),
        ("_rating_", rating.as_str()),
        ("_wins_", wins.as_str()),
        ("_losses_", losses.as_str()),
        ("queue_button_", button.as_str()),
    ];
    let r = load_file_replace_shit(page, &pairs);
    proof {
        assert(title@ =~= username@ + " - "@ + user.role@);
        assert(pair_views(pairs@) =~= seq![
            ("animated_header_"@, header_script(header_js, username@ + " - "@ + match old_user {
                Some(u) => u.role@,
                None => Seq::empty(),
            })),
            ("_rating_"@, signed_decimal_text(match old_user { Some(u) => u.rating as int, None => 0 })),
            ("_wins_"@, signed_decimal_text(match old_user { Some(u) => u.wins as int, None => 0 })),
            ("_losses_"@, signed_decimal_text(match old_user { Some(u) => u.losses as int, None => 0 })),
            ("queue_button_"@, or_empty(old_button)),
        ]);
    }
    r
}

/// A form page: the form template with the site's address and an animated
/// header titled `title`.
pub open spec fn form_page(page: Option<String>, header_js: Option<String>, domain: Seq<char>, title: Seq<char>) -> Seq<char> {
    replace_each(
        or_empty(page),
        seq![("domain_"@, domain), (">//<"@, header_script(header_js, title))],
    )
}

fn form_comp(page: Option<String>, header_js: Option<String>, domain: &str, title: &str) -> (r: String)
    ensures
        r@ == form_page(page, header_js, domain@, title@),
{
    let header = animated_header(header_js, title);
    let pairs = [("domain_", domain), (">//<", header.as_str())];
    let r = load_file_replace_shit(page, &pairs);
    proof {
        assert(pair_views(pairs@) =~= seq![("domain_"@, domain@), (">//<"@, header@)]);
    }
    r
}

/// The registration form.
pub fn register_form(page: Option<String>, header_js: Option<String>, domain: &str) -> (r: String)
    ensures
        r@ == form_page(page, header_js, domain@, "Register"@),
{
    form_comp(page, header_js, domain, "Register")
}

/// The login form.
pub fn login_form(page: Option<String>, header_js: Option<String>, domain: &str) -> (r: String)
    ensures
        r@ == form_page(page, header_js, domain@, "Login"@),
{
    form_comp(page, header_js, domain, "Login")
}

/// The account settings form.
pub fn settings_user(page: Option<String>, header_js: Option<String>, domain: &str) -> (r: String)
    ensures
        r@ == form_page(page, header_js, domain@, "User Settings"@),
{
    form_comp(page, header_js, domain, "User Settings")
}

/// The placeholder in the page frame where a page's content goes.
pub open spec fn content_placeholder() -> Seq<char> {
    "https://www.youtube.com/watch?v=dQw4w9WgXcQ"@
}

/// The element that loads a component from the site into the page.
pub open spec fn component_loader(domain: Seq<char>, component: Seq<char>) -> Seq<char> {
    "<div hx-get=\""@ + domain + component + "\" hx-trigger=\"load\" hx-target=\"#app\"\"></div>"@
}

/// A page: the page frame with its content placeholder replaced by the
/// element that loads `component` (such as `/components/hero`).
pub fn embed_component(base_html: &str, domain: &str, component: &str) -> (r: String)
    ensures
        r@ == replaced(base_html@, content_placeholder(), component_loader(domain@, component@)),
{
    let mut loader = String::from_str("<div hx-get=\"");
    loader.append(domain);
    loader.append(component);
    loader.append("\" hx-trigger=\"load\" hx-target=\"#app\"\"></div>");
    assert(loader@ =~= component_loader(domain@, component@));
    replace_all(base_html, "https://www.youtube.com/watch?v=dQw4w9WgXcQ", loader.as_str())
}

/// A queue row shows, cell by cell, the player's battletag, role, rating,
/// wins and losses, in that order.
pub proof fn law_queue_row_columns(p: ResolvedQueuePlayer)
    ensures
        queue_row(p) == "<tr>"@ + table_cell(p.battletag@) + table_cell(p.role@) + table_cell(
            signed_decimal_text(p.rating as int),
        ) + table_cell(signed_decimal_text(p.wins as int)) + table_cell(
            signed_decimal_text(p.losses as int),
        ) + "</tr>"@,
{
    let v = seq![
        p.battletag@,
        p.role@,
        signed_decimal_text(p.rating as int),
        signed_decimal_text(p.wins as int),
        signed_decimal_text(p.losses as int),
    ];
    lemma_table_cells_5(v);
}

/// A leaderboard row shows, cell by cell, the username, battletag, rating,
/// wins, losses and role, in that order.
pub proof fn law_leaderboard_row_columns(e: LeaderboardEntry)
    ensures
        leaderboard_row(e) == "<tr>"@ + table_cell(e.username@) + table_cell(e.battletag@) + table_cell(
            signed_decimal_text(e.rating as int),
        ) + table_cell(signed_decimal_text(e.wins as int)) + table_cell(
            signed_decimal_text(e.losses as int),
        ) + table_cell(e.role@) + "</tr>"@,
{
    let v = seq![
        e.username@,
        e.battletag@,
        signed_decimal_text(e.rating as int),
        signed_decimal_text(e.wins as int),
        signed_decimal_text(e.losses as int),
        e.role@,
    ];
    lemma_table_cells_5(v.drop_last());
    assert(v.drop_last() =~= seq![v[0], v[1], v[2], v[3], v[4]]);
    assert(table_cells(v) == table_cells(v.drop_last()) + table_cell(v[5]));
}

proof fn lemma_table_cells_5(v: Seq<Seq<char>>)
    requires
        v.len() == 5,
    ensures
        table_cells(v) == table_cell(v[0]) + table_cell(v[1]) + table_cell(v[2]) + table_cell(v[3])
            + table_cell(v[4]),
{
    let v4 = v.drop_last();
    let v3 = v4.drop_last();
    let v2 = v3.drop_last();
    let v1 = v2.drop_last();
    let v0 = v1.drop_last();
    assert(v0 =~= Seq::<Seq<char>>::empty());
    assert(table_cells(v0) == Seq::<char>::empty());
    assert(table_cells(v1) == table_cells(v0) + table_cell(v[0]));
    assert(table_cells(v2) == table_cells(v1) + table_cell(v[1]));
    assert(table_cells(v3) == table_cells(v2) + table_cell(v[2]));
    assert(table_cells(v4) == table_cells(v3) + table_cell(v[3]));
    assert(table_cells(v) == table_cells(v4) + table_cell(v[4]));
    assert(table_cells(v) =~= table_cell(v[0]) + table_cell(v[1]) + table_cell(v[2]) + table_cell(v[3])
        + table_cell(v[4]));
}

/// Anyone not signed in is offered the leaderboard, registration and login;
/// a signed-in user the leaderboard, the queue to play in and their
/// settings, in that order.
pub proof fn law_nav_bar_follows_sign_in(user_id: i32)
    ensures
        user_id == 0 ==> nav_items(user_id) == "<li><a href=\"/leaderboard\">Leaderboard</a></li>"@
            + "<li><a href=\"/register\">Register</a></li>"@ + "<li><a href=\"/login\">Login</a></li>"@,
        user_id != 0 ==> nav_items(user_id) == "<li><a href=\"/leaderboard\">Leaderboard</a></li>"@
            + "<li><a href=\"/play\">Play</a></li>"@ + "<li><a href=\"/settings/user\">Settings</a></li>"@,
{
    reveal_strlit("<li><a href=\"/");
    reveal_strlit("\">");
    reveal_strlit("</a></li>");
    reveal_strlit("leaderboard");
    reveal_strlit("Leaderboard");
    reveal_strlit("register");
    reveal_strlit("Register");
    reveal_strlit("login");
    reveal_strlit("Login");
    reveal_strlit("play");
    reveal_strlit("Play");
    reveal_strlit("settings/user");
    reveal_strlit("Settings");
    reveal_strlit("<li><a href=\"/leaderboard\">Leaderboard</a></li>");
    reveal_strlit("<li><a href=\"/register\">Register</a></li>");
    reveal_strlit("<li><a href=\"/login\">Login</a></li>");
    reveal_strlit("<li><a href=\"/play\">Play</a></li>");
    reveal_strlit("<li><a href=\"/settings/user\">Settings</a></li>");
    assert(nav_item("leaderboard"@, "Leaderboard"@) =~= "<li><a href=\"/leaderboard\">Leaderboard</a></li>"@);
    assert(nav_item("register"@, "Register"@) =~= "<li><a href=\"/register\">Register</a></li>"@);
    assert(nav_item("login"@, "Login"@) =~= "<li><a href=\"/login\">Login</a></li>"@);
    assert(nav_item("play"@, "Play"@) =~= "<li><a href=\"/play\">Play</a></li>"@);
    assert(nav_item("settings/user"@, "Settings"@) =~= "<li><a href=\"/settings/user\">Settings</a></li>"@);
}

} // verus!
