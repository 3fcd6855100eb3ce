//! The menu in the tray.

use crate::daemon::audio_status::{
    set_play_mic, set_play_sysout, set_send_mic, set_send_sysout, AudioToggles,
};
use crate::daemon::status::{self, snapshot, tray_header, RuntimeStatus, StatusSnapshot};
use crate::input::{self, set_input_locked, Effect, InputState};
use crate::text::{self, same_text};
use vstd::prelude::*;

verus! {

/// An entry of the menu.
#[derive(Debug, Clone, Copy, PartialEq, Eq, Structural)]
pub enum MenuEntry {
    Show,
    Quit,
    GameLock,
    SendSysout,
    PlaySysout,
    SendMic,
    PlayMic,
}

/// The entry that goes by a name.
pub open spec fn entry_named(id: Seq<char>) -> Option<MenuEntry> {
    if id == "show"@ {
        Some(MenuEntry::Show)
    } else if id == "quit"@ {
        Some(MenuEntry::Quit)
    } else if id == "game_lock"@ {
        Some(MenuEntry::GameLock)
    } else if id == "send_sysout"@ {
        Some(MenuEntry::SendSysout)
    } else if id == "play_sysout"@ {
        Some(MenuEntry::PlaySysout)
    } else if id == "send_mic"@ {
        Some(MenuEntry::SendMic)
    } else if id == "play_mic"@ {
        Some(MenuEntry::PlayMic)
    } else {
        None
    }
}

pub fn menu_entry(id: &str) -> (r: Option<MenuEntry>)
    ensures
        r == entry_named(id@),
{
    if same_text(id, "show") {
        Some(MenuEntry::Show)
    } else if same_text(id, "quit") {
        Some(MenuEntry::Quit)
    } else if same_text(id, "game_lock") {
        Some(MenuEntry::GameLock)
    } else if same_text(id, "send_sysout") {
        Some(MenuEntry::SendSysout)
    } else if same_text(id, "play_sysout") {
        Some(MenuEntry::PlaySysout)
    } else if same_text(id, "send_mic") {
        Some(MenuEntry::SendMic)
    } else if same_text(id, "play_mic") {
        Some(MenuEntry::PlayMic)
    } else {
        None
    }
}

/// What is left to do about an entry that was chosen.
#[derive(Debug, Clone, Copy, PartialEq, Eq, Structural)]
pub enum MenuAction {
    Nothing,
    ShowWindow,
    Exit,
}

/// The switches after an entry was chosen.
pub open spec fn flipped(t: AudioToggles, e: MenuEntry) -> AudioToggles {
    match e {
        MenuEntry::SendSysout => AudioToggles { send_sysout: !t.send_sysout, ..t },
        MenuEntry::PlaySysout => AudioToggles { play_sysout: !t.play_sysout, ..t },
        MenuEntry::SendMic => AudioToggles { send_mic: !t.send_mic, ..t },
        MenuEntry::PlayMic => AudioToggles { play_mic: !t.play_mic, ..t },
        _ => t,
    }
}

/// The input after an entry was chosen: one of them locks it to this machine,
/// or frees it.
pub open spec fn input_after(st: InputState, e: MenuEntry) -> InputState {
    if e != MenuEntry::GameLock {
        st
    } else if st.link.input_locked {
        input::with_lock(st, false)
    } else {
        input::forced_local(input::with_lock(st, true))
    }
}

/// The effects of that.
pub open spec fn menu_effects(st: InputState, e: MenuEntry) -> Seq<Effect> {
    if e != MenuEntry::GameLock || st.link.input_locked {
        Seq::empty()
    } else {
        input::forced_local_effects(input::with_lock(st, true))
    }
}

/// Carries out an entry that was chosen.
pub fn on_menu_event(
    entry: MenuEntry,
    toggles: &mut AudioToggles,
    st: &mut InputState,
    out: &mut Vec<Effect>,
) -> (r: MenuAction)
    requires
        old(st).well_formed(),
    ensures
        final(st).well_formed(),
        *final(toggles) == flipped(*old(toggles), entry),
        *final(st) == input_after(*old(st), entry),
        final(out)@ == old(out)@ + menu_effects(*old(st), entry),
        r == match entry {
            MenuEntry::Show => MenuAction::ShowWindow,
            MenuEntry::Quit => MenuAction::Exit,
            _ => MenuAction::Nothing,
        },
{
    assert(out@ =~= old(out)@ + Seq::<Effect>::empty());
    match entry {
        MenuEntry::Show => MenuAction::ShowWindow,
        MenuEntry::Quit => MenuAction::Exit,
        MenuEntry::GameLock => {
            let now = st.link.input_locked;
            set_input_locked(st, !now, out);
            MenuAction::Nothing
        },
        MenuEntry::SendSysout => {
            let v = !toggles.send_sysout;
            set_send_sysout(toggles, v);
            MenuAction::Nothing
        },
        MenuEntry::PlaySysout => {
            let v = !toggles.play_sysout;
            set_play_sysout(toggles, v);
            MenuAction::Nothing
        },
        MenuEntry::SendMic => {
            let v = !toggles.send_mic;
            set_send_mic(toggles, v);
            MenuAction::Nothing
        },
        MenuEntry::PlayMic => {
            let v = !toggles.play_mic;
            set_play_mic(toggles, v);
            MenuAction::Nothing
        },
    }
}

/// Choosing a switch twice changes nothing.
pub proof fn switches_flip_back(t: AudioToggles, e: MenuEntry)
    ensures
        flipped(flipped(t, e), e) == t,
{
}

/// What the menu shows.
pub struct MenuView {
    pub header: String,
    pub game_lock: bool,
    pub send_sysout: bool,
    pub play_sysout: bool,
    pub send_mic: bool,
    pub play_mic: bool,
}

/// Brings the menu up to date.
pub fn refresh(s: &StatusSnapshot, t: &AudioToggles) -> (r: MenuView)
    ensures
        r.header@ == status::header(
            s.peer_connected,
            text::optional(s.peer_addr),
            text::optional(s.peer_name),
        ),
        r.game_lock == s.input_locked,
        r.send_sysout == t.send_sysout,
        r.play_sysout == t.play_sysout,
        r.send_mic == t.send_mic,
        r.play_mic == t.play_mic,
{
    MenuView {
        header: tray_header(s),
        game_lock: s.input_locked,
        send_sysout: t.send_sysout,
        play_sysout: t.play_sysout,
        send_mic: t.send_mic,
        play_mic: t.play_mic,
    }
}

/// The status that the window shows.
pub fn current_status(st: &RuntimeStatus, input: &InputState) -> (r: StatusSnapshot)
    ensures
        r.peer_connected == st.peer_connected,
        text::optional(r.peer_addr) == text::optional(st.peer_addr),
        text::optional(r.peer_name) == text::optional(st.peer_name),
        r.sent_pkts == st.totals.sent_pkts,
        r.recv_pkts == st.totals.recv_pkts,
        r.injected == st.totals.injected,
        r.audio_recv == st.totals.audio_recv,
        r.inject_errs == st.totals.inject_errs,
        r.decrypt_errs == st.totals.decrypt_errs,
        r.local_in_remote == input::in_remote(*input),
        r.peer_in_remote == input.link.peer_in_remote,
        r.input_locked == input.link.input_locked,
{
    snapshot(st, input)
}

/// Every entry of the menu goes by its name, and nothing else does.
pub proof fn entries_go_by_their_names(id: &str, r: Option<MenuEntry>)
    requires
        call_ensures(menu_entry, (id,), r),
    ensures
        r == Some(MenuEntry::Show) <==> id@ == "show"@,
        r == Some(MenuEntry::Quit) <==> id@ == "quit"@,
        r == Some(MenuEntry::GameLock) <==> id@ == "game_lock"@,
        r == Some(MenuEntry::SendSysout) <==> id@ == "send_sysout"@,
        r == Some(MenuEntry::PlaySysout) <==> id@ == "play_sysout"@,
        r == Some(MenuEntry::SendMic) <==> id@ == "send_mic"@,
        r == Some(MenuEntry::PlayMic) <==> id@ == "play_mic"@,
{
    reveal_strlit("show");
    reveal_strlit("quit");
    reveal_strlit("game_lock");
    reveal_strlit("send_sysout");
    reveal_strlit("play_sysout");
    reveal_strlit("send_mic");
    reveal_strlit("play_mic");
    assert("show"@[0] == 's' && "quit"@[0] == 'q');
    assert("send_sysout"@.len() == 11 && "play_sysout"@.len() == 11);
    assert("send_mic"@.len() == 8 && "play_mic"@.len() == 8 && "game_lock"@.len() == 9);
    assert("send_sysout"@[0] == 's' && "play_sysout"@[0] == 'p');
    assert("send_mic"@[0] == 's' && "play_mic"@[0] == 'p');
}

/// Each entry does what it is for and nothing else: the lock is turned over, and
/// the mouse is here once it is locked; each switch turns itself over; the two
/// others show the window and end the program.
pub proof fn entries_do_what_they_are_for(
    entry: MenuEntry,
    t: &mut AudioToggles,
    st: &mut InputState,
    out: &mut Vec<Effect>,
    r: MenuAction,
)
    requires
        call_ensures(on_menu_event, (entry, t, st, out), r),
    ensures
        final(st).link.input_locked == if entry == MenuEntry::GameLock {
            !old(st).link.input_locked
        } else {
            old(st).link.input_locked
        },
        entry != MenuEntry::GameLock ==> *final(st) == *old(st) && final(out)@ == old(out)@,
        entry == MenuEntry::GameLock && !old(st).link.input_locked && old(st).platform
            == input::Platform::Linux ==> final(st).linux.mode == input::CursorMode::Local,
        entry == MenuEntry::GameLock && !old(st).link.input_locked && old(st).platform
            == input::Platform::Windows ==> final(st).win.mode == input::CursorMode::Local,
        (final(t).send_sysout != old(t).send_sysout) == (entry == MenuEntry::SendSysout),
        (final(t).play_sysout != old(t).play_sysout) == (entry == MenuEntry::PlaySysout),
        (final(t).send_mic != old(t).send_mic) == (entry == MenuEntry::SendMic),
        (final(t).play_mic != old(t).play_mic) == (entry == MenuEntry::PlayMic),
        r == MenuAction::ShowWindow <==> entry == MenuEntry::Show,
        r == MenuAction::Exit <==> entry == MenuEntry::Quit,
{
    assert(old(out)@ + Seq::<Effect>::empty() =~= old(out)@);
}

/// The menu shows the lock and the switches as they are.
pub proof fn the_menu_shows_what_is_set(s: &StatusSnapshot, t: &AudioToggles, r: MenuView)
    requires
        call_ensures(refresh, (s, t), r),
    ensures
        r.game_lock == s.input_locked,
        (r.send_sysout, r.play_sysout) == (t.send_sysout, t.play_sysout),
        (r.send_mic, r.play_mic) == (t.send_mic, t.play_mic),
        !s.peer_connected ==> r.header@ == "no peer"@,
        s.peer_connected && s.peer_name is Some ==> r.header@ == "paired with "@ + s.peer_name->0@,
{
}

} // verus!
