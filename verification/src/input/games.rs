//! Detection of games on a Windows machine: a game that confines the cursor,
//! or one that anti-cheat software protects, pins the input to this machine.

use crate::input::{self, set_input_locked, Effect, GameDrive, InputState};
use crate::input::windows::WindowsState;
use crate::text::{self, eq_ignore_ascii_case};
use vstd::prelude::*;

verus! {

/// The programs that anti-cheat software protects.
pub open spec fn risky_games() -> Seq<Seq<char>> {
    seq![
        "VALORANT.exe"@,
        "VALORANT-Win64-Shipping.exe"@,
        "LeagueClient.exe"@,
        "League of Legends.exe"@,
        "FortniteClient-Win64-Shipping.exe"@,
        "RainbowSix.exe"@,
        "RainbowSix_Vulkan.exe"@,
        "TslGame.exe"@,
        "destiny2.exe"@,
        "ArmaReforger.exe"@,
        "DayZ_x64.exe"@,
        "Tarkov.exe"@,
        "EscapeFromTarkov.exe"@,
        "r5apex.exe"@,
        "r5apex_dx12.exe"@,
        "FFXIV_dx11.exe"@,
        "RustClient.exe"@,
        "ELDENRING.exe"@,
        "cod.exe"@,
        "ModernWarfare.exe"@,
        "BlackOpsColdWar.exe"@,
        "RobloxPlayerBeta.exe"@,
        "csgo.exe"@,
        "cs2.exe"@,
    ]
}

/// Whether a program is one of those, whatever the case of its letters.
pub open spec fn is_risky(exe: Seq<char>) -> bool {
    exists|i: int|
        0 <= i < risky_games().len() && text::same_ignoring_case(#[trigger] risky_games()[i], exe)
}

fn risky_game_list() -> (r: Vec<&'static str>)
    ensures
        r@.len() == risky_games().len(),
        forall|i: int| 0 <= i < r@.len() ==> (#[trigger] r@[i])@ == risky_games()[i],
{
    vec![
        "VALORANT.exe",
        "VALORANT-Win64-Shipping.exe",
        "LeagueClient.exe",
        "League of Legends.exe",
        "FortniteClient-Win64-Shipping.exe",
        "RainbowSix.exe",
        "RainbowSix_Vulkan.exe",
        "TslGame.exe",
        "destiny2.exe",
        "ArmaReforger.exe",
        "DayZ_x64.exe",
        "Tarkov.exe",
        "EscapeFromTarkov.exe",
        "r5apex.exe",
        "r5apex_dx12.exe",
        "FFXIV_dx11.exe",
        "RustClient.exe",
        "ELDENRING.exe",
        "cod.exe",
        "ModernWarfare.exe",
        "BlackOpsColdWar.exe",
        "RobloxPlayerBeta.exe",
        "csgo.exe",
        "cs2.exe",
    ]
}

/// Tells whether a program is protected.
pub fn is_risky_game(exe: &str) -> (r: bool)
    ensures
        r == is_risky(exe@),
{
    let games = risky_game_list();
    let mut i: usize = 0;
    while i < games.len()
        invariant
            i <= games@.len(),
            games@.len() == risky_games().len(),
            forall|j: int| 0 <= j < games@.len() ==> (#[trigger] games@[j])@ == risky_games()[j],
            forall|j: int|
                0 <= j < i ==> !text::same_ignoring_case(#[trigger] risky_games()[j], exe@),
        decreases games@.len() - i,
    {
        let game = games[i];
        assert(game@ == risky_games()[i as int]);
        if eq_ignore_ascii_case(game, exe) {
            return true;
        }
        i = i + 1;
    }
    false
}

/// Whether a game pins the input: it confines the cursor or is protected, and
/// no game is driven. A hidden cursor says nothing, since typing hides it too.
pub fn should_auto_lock_game(
    cursor_hidden: bool,
    cursor_clipped: bool,
    anticheat_match: bool,
    game_drive_off: bool,
) -> (r: bool)
    ensures
        r == ((cursor_clipped || anticheat_match) && game_drive_off),
{
    (cursor_clipped || anticheat_match) && game_drive_off
}

/// Left, top, right and bottom of the area that confines the cursor.
#[derive(Debug, Clone, Copy, PartialEq, Eq, Structural)]
pub struct ClipRect {
    pub left: i32,
    pub top: i32,
    pub right: i32,
    pub bottom: i32,
}

/// Whether the cursor is confined: to less than seven tenths of the desktop,
/// in both directions.
pub open spec fn confined(win: WindowsState, clip: Option<ClipRect>) -> bool {
    match clip {
        Some(c) => c.right - c.left < (win.screen_w * 7) / 10 && c.bottom - c.top < (win.screen_h
            * 7) / 10,
        None => false,
    }
}

pub fn cursor_confined(win: &WindowsState, clip: Option<ClipRect>) -> (r: bool)
    requires
        win.geometry_fits(),
    ensures
        r == confined(*win, clip),
{
    match clip {
        Some(c) => {
            let cw: i64 = c.right as i64 - c.left as i64;
            let ch: i64 = c.bottom as i64 - c.top as i64;
            let w: i64 = win.screen_w as i64;
            let h: i64 = win.screen_h as i64;
            cw < (w * 7) / 10 && ch < (h * 7) / 10
        },
        None => false,
    }
}

/// What one look at the machine shows.
pub struct GameSample {
    pub cursor_hidden: bool,
    pub clip: Option<ClipRect>,
    /// The program in the foreground, without its directory.
    pub exe: Option<String>,
}

impl GameSample {
    pub open spec fn risky(self) -> bool {
        self.exe matches Some(e) && is_risky(e@)
    }
}

/// Whether a look finds a game that pins the input.
pub open spec fn finds_game(st: InputState, sample: GameSample) -> bool {
    (confined(st.win, sample.clip) || sample.risky()) && st.link.game_drive == GameDrive::Off
}

/// Whether the warning names the protected game of a look.
pub open spec fn warns_of(warning: Option<String>, sample: GameSample) -> bool {
    match warning {
        Some(name) => sample.risky() && sample.exe->0@ == name@,
        None => !sample.risky(),
    }
}

/// The state with the warning and the finding of a look.
pub open spec fn looked(st: InputState, warning: Option<String>, found: bool) -> InputState {
    InputState {
        anticheat_warning: warning,
        win: WindowsState { game_foreground: found, ..st.win },
        ..st
    }
}

/// Whether a look engages the lock: a game appears, and nothing is locked yet.
pub open spec fn engages(st: InputState, found: bool) -> bool {
    found && !st.win.game_foreground && !st.link.input_locked
}

/// Whether a look releases the lock: no game is there any more, and the lock was
/// engaged for one.
pub open spec fn releases(st: InputState, found: bool) -> bool {
    !found && st.win.auto_engaged
}

/// The state after a look.
pub open spec fn after_look(st: InputState, warning: Option<String>, found: bool) -> InputState {
    let seen = looked(st, warning, found);
    if engages(st, found) {
        let locked = input::forced_local(input::with_lock(seen, true));
        InputState { win: WindowsState { auto_engaged: true, ..locked.win }, ..locked }
    } else if releases(st, found) {
        input::with_lock(seen, false)
    } else {
        seen
    }
}

/// The effects of a look.
pub open spec fn look_effects(st: InputState, warning: Option<String>, found: bool) -> Seq<Effect> {
    if engages(st, found) {
        input::forced_local_effects(input::with_lock(looked(st, warning, found), true))
    } else {
        Seq::empty()
    }
}

/// The warning of a look.
fn warning_of(sample: &GameSample) -> (r: Option<String>)
    ensures
        warns_of(r, *sample),
{
    match &sample.exe {
        Some(e) => {
            if is_risky_game(e.as_str()) {
                Some(e.clone())
            } else {
                None
            }
        },
        None => None,
    }
}

pub fn set_anticheat_warning(st: &mut InputState, name: Option<String>)
    ensures
        *final(st) == (InputState { anticheat_warning: name, ..*old(st) }),
{
    st.anticheat_warning = name;
}

/// Notes whether a game is there, and engages or releases the lock for it.
#[verifier::spinoff_prover]
#[verifier::rlimit(40)]
fn note_game(st: &mut InputState, found: bool, out: &mut Vec<Effect>)
    requires
        old(st).well_formed(),
    ensures
        final(st).well_formed(),
        *final(st) == after_look(*old(st), old(st).anticheat_warning, found),
        final(out)@ == old(out)@ + look_effects(*old(st), old(st).anticheat_warning, found),
{
    let was_there = st.win.game_foreground;
    st.win.game_foreground = found;
    if found && !was_there && !st.link.input_locked {
        set_input_locked(st, true, out);
        st.win.auto_engaged = true;
    } else {
        if !found && st.win.auto_engaged {
            set_input_locked(st, false, out);
        }
        assert(out@ =~= old(out)@ + Seq::<Effect>::empty());
    }
}

/// Acts on one look at the machine. A game that appears engages the lock, and
/// its end releases the lock that was engaged for it; a game that stays changes
/// nothing, and a lock that the user set stays.
pub fn game_detect_round(st: &mut InputState, sample: &GameSample, out: &mut Vec<Effect>)
    requires
        old(st).well_formed(),
    ensures
        final(st).well_formed(),
        warns_of(final(st).anticheat_warning, *sample),
        *final(st) == after_look(
            *old(st),
            final(st).anticheat_warning,
            finds_game(*old(st), *sample),
        ),
        final(out)@ == old(out)@ + look_effects(
            *old(st),
            final(st).anticheat_warning,
            finds_game(*old(st), *sample),
        ),
{
    let clipped = cursor_confined(&st.win, sample.clip);
    let warning = warning_of(sample);
    let matched = warning.is_some();
    set_anticheat_warning(st, warning);
    let drive_off = st.link.game_drive == GameDrive::Off;
    let found = should_auto_lock_game(sample.cursor_hidden, clipped, matched, drive_off);
    note_game(st, found, out);
}

/// The state after a row of looks, each with its warning and its finding.
pub open spec fn after_looks(st: InputState, looks: Seq<(Option<String>, bool)>) -> InputState
    decreases looks.len(),
{
    if looks.len() == 0 {
        st
    } else {
        after_look(after_looks(st, looks.drop_last()), looks.last().0, looks.last().1)
    }
}

/// A lock that the user set stays, whatever games come and go.
pub proof fn the_lock_of_the_user_stays(st: InputState, looks: Seq<(Option<String>, bool)>)
    ensures
        ({
            let after = after_looks(input::with_lock(st, true), looks);
            after.link.input_locked && !after.win.auto_engaged
        }),
    decreases looks.len(),
{
    if looks.len() > 0 {
        the_lock_of_the_user_stays(st, looks.drop_last());
    }
}

/// A game that ends frees the input again where it had locked it, as long as the
/// user did nothing to the lock.
pub proof fn a_game_frees_what_it_locked(
    st: InputState,
    warning: Option<String>,
    stays: nat,
    calm: Option<String>,
)
    requires
        !st.link.input_locked,
        !st.win.game_foreground,
    ensures
        ({
            let looks = Seq::new(stays + 1, |i: int| (warning, true));
            after_looks(st, looks).link.input_locked && !after_look(
                after_looks(st, looks),
                calm,
                false,
            ).link.input_locked
        }),
{
    lemma_game_stays(st, warning, stays);
}

proof fn lemma_game_stays(st: InputState, warning: Option<String>, stays: nat)
    requires
        !st.link.input_locked,
        !st.win.game_foreground,
    ensures
        ({
            let after = after_looks(st, Seq::new(stays + 1, |i: int| (warning, true)));
            after.link.input_locked && after.win.auto_engaged && after.win.game_foreground
        }),
    decreases stays,
{
    let looks = Seq::new(stays + 1, |i: int| (warning, true));
    assert(looks.last() == (warning, true));
    if stays > 0 {
        let before = Seq::new(stays, |i: int| (warning, true));
        assert(looks.drop_last() =~= before);
        assert(before =~= Seq::new(((stays - 1) as nat) + 1, |i: int| (warning, true)));
        lemma_game_stays(st, warning, (stays - 1) as nat);
    } else {
        assert(looks.drop_last() =~= Seq::<(Option<String>, bool)>::empty());
        assert(after_looks(st, looks.drop_last()) == st);
    }
}

/// The case of letters does not matter to whether a program is protected.
pub proof fn protected_games_go_by_any_case(a: &str, b: &str, r: (bool, bool))
    requires
        call_ensures(is_risky_game, (a,), r.0),
        call_ensures(is_risky_game, (b,), r.1),
        a@.len() == b@.len(),
        forall|i: int| 0 <= i < a@.len() ==> text::lower(#[trigger] a@[i]) == text::lower(b@[i]),
    ensures
        r.0 == r.1,
{
    if r.0 {
        let i = choose|i: int|
            0 <= i < risky_games().len() && text::same_ignoring_case(
                #[trigger] risky_games()[i],
                a@,
            );
        assert(text::same_ignoring_case(risky_games()[i], b@));
    }
    if r.1 {
        let i = choose|i: int|
            0 <= i < risky_games().len() && text::same_ignoring_case(
                #[trigger] risky_games()[i],
                b@,
            );
        assert forall|k: int| 0 <= k < risky_games()[i].len() implies text::lower(
            #[trigger] risky_games()[i][k],
        ) == text::lower(a@[k]) by {
            assert(text::lower(a@[k]) == text::lower(b@[k]));
        }
        assert(text::same_ignoring_case(risky_games()[i], a@));
    }
}

/// These games are protected.
pub proof fn known_games_are_protected(exe: &str, r: bool)
    requires
        call_ensures(is_risky_game, (exe,), r),
    ensures
        exe@ == "VALORANT.exe"@ ==> r,
        exe@ == "VALORANT-Win64-Shipping.exe"@ ==> r,
        exe@ == "LeagueClient.exe"@ ==> r,
        exe@ == "League of Legends.exe"@ ==> r,
        exe@ == "FortniteClient-Win64-Shipping.exe"@ ==> r,
        exe@ == "RainbowSix.exe"@ ==> r,
        exe@ == "RainbowSix_Vulkan.exe"@ ==> r,
        exe@ == "TslGame.exe"@ ==> r,
        exe@ == "destiny2.exe"@ ==> r,
        exe@ == "ArmaReforger.exe"@ ==> r,
        exe@ == "DayZ_x64.exe"@ ==> r,
        exe@ == "Tarkov.exe"@ ==> r,
        exe@ == "EscapeFromTarkov.exe"@ ==> r,
        exe@ == "r5apex.exe"@ ==> r,
        exe@ == "r5apex_dx12.exe"@ ==> r,
        exe@ == "FFXIV_dx11.exe"@ ==> r,
        exe@ == "RustClient.exe"@ ==> r,
        exe@ == "ELDENRING.exe"@ ==> r,
        exe@ == "cod.exe"@ ==> r,
        exe@ == "ModernWarfare.exe"@ ==> r,
        exe@ == "BlackOpsColdWar.exe"@ ==> r,
        exe@ == "RobloxPlayerBeta.exe"@ ==> r,
        exe@ == "csgo.exe"@ ==> r,
        exe@ == "cs2.exe"@ ==> r,
{
    if !r {
        assert forall|i: int| 0 <= i < risky_games().len() implies exe@
            != #[trigger] risky_games()[i] by {
            if exe@ == risky_games()[i] {
                assert(text::same_ignoring_case(risky_games()[i], exe@));
            }
        }
        assert(exe@ != risky_games()[0]);
        assert(exe@ != risky_games()[1]);
        assert(exe@ != risky_games()[2]);
        assert(exe@ != risky_games()[3]);
        assert(exe@ != risky_games()[4]);
        assert(exe@ != risky_games()[5]);
        assert(exe@ != risky_games()[6]);
        assert(exe@ != risky_games()[7]);
        assert(exe@ != risky_games()[8]);
        assert(exe@ != risky_games()[9]);
        assert(exe@ != risky_games()[10]);
        assert(exe@ != risky_games()[11]);
        assert(exe@ != risky_games()[12]);
        assert(exe@ != risky_games()[13]);
        assert(exe@ != risky_games()[14]);
        assert(exe@ != risky_games()[15]);
        assert(exe@ != risky_games()[16]);
        assert(exe@ != risky_games()[17]);
        assert(exe@ != risky_games()[18]);
        assert(exe@ != risky_games()[19]);
        assert(exe@ != risky_games()[20]);
        assert(exe@ != risky_games()[21]);
        assert(exe@ != risky_games()[22]);
        assert(exe@ != risky_games()[23]);
    }
}

/// The cursor is confined where it may move over less than seven tenths of the
/// desktop both ways, and it is not where nothing confines it.
pub proof fn a_small_area_confines_the_cursor(win: &WindowsState, clip: Option<ClipRect>, r: bool)
    requires
        call_ensures(cursor_confined, (win, clip), r),
    ensures
        clip is None ==> !r,
        clip matches Some(c) ==> (r <==> 10 * (c.right - c.left + 1) <= 7 * win.screen_w && 10 * (
        c.bottom - c.top + 1) <= 7 * win.screen_h),
{
}

/// A game pins the input as long as no game is driven; a hidden cursor alone does
/// not.
pub proof fn a_hidden_cursor_is_no_game(
    hidden: (bool, bool),
    clipped: bool,
    matched: bool,
    drive_off: bool,
    r: (bool, bool),
)
    requires
        call_ensures(should_auto_lock_game, (hidden.0, clipped, matched, drive_off), r.0),
        call_ensures(should_auto_lock_game, (hidden.1, clipped, matched, drive_off), r.1),
    ensures
        r.0 == r.1,
        r.0 ==> drive_off,
        drive_off && clipped ==> r.0,
        drive_off && matched ==> r.0,
        !clipped && !matched ==> !r.0,
{
}

/// A protected game that comes up locks the input to this machine and is warned
/// of; while a game is driven it is warned of and nothing is locked.
pub proof fn a_protected_game_locks_the_input(
    st: &mut InputState,
    sample: &GameSample,
    exe: &str,
    out: &mut Vec<Effect>,
)
    requires
        call_ensures(game_detect_round, (st, sample, out), ()),
        call_ensures(is_risky_game, (exe,), true),
        sample.exe matches Some(e) && e@ == exe@,
        !old(st).win.game_foreground,
        !old(st).win.auto_engaged,
    ensures
        final(st).anticheat_warning matches Some(w) && w@ == exe@,
        old(st).link.game_drive == GameDrive::Off ==> final(st).link.input_locked,
        old(st).link.game_drive != GameDrive::Off ==> final(st).link == old(st).link && final(out)@ == old(out)@,
{
    assert(is_risky(exe@));
    assert(old(out)@ + Seq::<Effect>::empty() =~= old(out)@);
}

/// Where no game is there, nothing is warned of, a lock that a game had engaged is
/// released, and every other lock stays.
pub proof fn without_a_game_nothing_is_locked(
    st: &mut InputState,
    sample: &GameSample,
    out: &mut Vec<Effect>,
)
    requires
        call_ensures(game_detect_round, (st, sample, out), ()),
        sample.exe is None,
        sample.clip is None,
    ensures
        final(st).anticheat_warning is None,
        old(st).win.auto_engaged ==> !final(st).link.input_locked,
        !old(st).win.auto_engaged ==> final(st).link.input_locked == old(st).link.input_locked,
        final(out)@ == old(out)@,
        final(st).linux == old(st).linux,
{
    assert(old(out)@ + Seq::<Effect>::empty() =~= old(out)@);
}

} // verus!
