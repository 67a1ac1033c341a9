//! The tray menu: which entry a click names, and what the tray and the
//! windows are to show once a start or a stop asked for from the tray has
//! been answered.

use crate::reply::{reply_text, start_reply_text, stop_reply_text};
use crate::supervisor::{start_call, stop_call};
use vstd::prelude::*;

verus! {

/// The entries of the tray menu.
#[derive(Debug, Clone, Copy, PartialEq, Eq)]
pub enum MenuItem {
    /// Starts the daemon.
    StartStt,
    /// Stops the daemon.
    StopStt,
    /// Brings the main window to the front.
    Show,
    /// Terminates the daemon, if any, and leaves the application.
    Quit,
}

impl MenuItem {
    /// The identifier under which the entry is registered with the tray.
    pub open spec fn id_text(self) -> Seq<char> {
        match self {
            MenuItem::StartStt => "start_stt"@,
            MenuItem::StopStt => "stop_stt"@,
            MenuItem::Show => "show"@,
            MenuItem::Quit => "quit"@,
        }
    }

    /// The entry registered under `id`, if there is one.
    pub open spec fn with_id(id: Seq<char>) -> Option<MenuItem> {
        if id == MenuItem::StartStt.id_text() {
            Some(MenuItem::StartStt)
        } else if id == MenuItem::StopStt.id_text() {
            Some(MenuItem::StopStt)
        } else if id == MenuItem::Show.id_text() {
            Some(MenuItem::Show)
        } else if id == MenuItem::Quit.id_text() {
            Some(MenuItem::Quit)
        } else {
            None
        }
    }

    /// The identifier of this entry.
    pub fn id(self) -> (id: &'static str)
        ensures
            id@ == self.id_text(),
    {
        match self {
            MenuItem::StartStt => "start_stt",
            MenuItem::StopStt => "stop_stt",
            MenuItem::Show => "show",
            MenuItem::Quit => "quit",
        }
    }

    /// Finds the entry that a click on `id` names. An identifier that no
    /// entry carries names none, and the click is to be ignored.
    pub fn from_id(id: &str) -> (item: Option<MenuItem>)
        ensures
            item == MenuItem::with_id(id@),
    {
        if same_text(id, MenuItem::StartStt.id()) {
            Some(MenuItem::StartStt)
        } else if same_text(id, MenuItem::StopStt.id()) {
            Some(MenuItem::StopStt)
        } else if same_text(id, MenuItem::Show.id()) {
            Some(MenuItem::Show)
        } else if same_text(id, MenuItem::Quit.id()) {
            Some(MenuItem::Quit)
        } else {
            None
        }
    }
}

/// Every entry is found again under its own identifier, so no two entries
/// share one.
pub proof fn lemma_id_round_trip(item: MenuItem)
    ensures
        MenuItem::with_id(item.id_text()) == Some(item),
{
    reveal_strlit("start_stt");
    reveal_strlit("stop_stt");
    reveal_strlit("show");
    reveal_strlit("quit");
    // The identifiers differ in length, but for the last two, which differ
    // in their first character.
    assert("start_stt"@.len() == 9 && "stop_stt"@.len() == 8);
    assert("show"@.len() == 4 && "quit"@.len() == 4);
    assert("show"@[0] != "quit"@[0]);
}

/// Whether two pieces of text hold the same characters, decided on their
/// bytes.
fn same_text(a: &str, b: &str) -> (same: bool)
    ensures
        same == (a@ == b@),
{
    let left = a.as_bytes();
    let right = b.as_bytes();
    proof {
        // Text is found again from its bytes, so equal bytes mean equal text.
        vstd::utf8::encode_utf8_decode_utf8(a@);
        vstd::utf8::encode_utf8_decode_utf8(b@);
    }
    if left.len() != right.len() {
        return false;
    }
    let mut i: usize = 0;
    while i < left.len()
        invariant
            i <= left.len(),
            left.len() == right.len(),
            left@ == vstd::utf8::encode_utf8(a@),
            right@ == vstd::utf8::encode_utf8(b@),
            forall|j: int| 0 <= j < i ==> left@[j] == right@[j],
        decreases left.len() - i,
    {
        if left[i] != right[i] {
            return false;
        }
        i += 1;
    }
    assert(left@ =~= right@);
    true
}

/// What the tray and the windows show of the daemon: which of the two
/// entries can be clicked, and the status that is broadcast to the windows.
#[derive(Debug, Clone, Copy, PartialEq, Eq)]
pub struct TrayUpdate {
    /// Whether the entry that starts the daemon can be clicked.
    pub start_enabled: bool,
    /// Whether the entry that stops the daemon can be clicked.
    pub stop_enabled: bool,
    /// The status sent to every window.
    pub status: bool,
}

/// The tray for a daemon that is on record, or is not: the entry that would
/// repeat the current state is disabled, the other enabled.
pub open spec fn tray_showing(running: bool) -> TrayUpdate {
    TrayUpdate { start_enabled: !running, stop_enabled: running, status: running }
}

impl TrayUpdate {
    /// The tray for a daemon that is on record, or is not.
    pub fn showing(running: bool) -> (update: TrayUpdate)
        ensures
            update == tray_showing(running),
    {
        TrayUpdate { start_enabled: !running, stop_enabled: running, status: running }
    }
}

/// The name of the event under which the status is sent to the windows.
pub fn status_event() -> (name: &'static str)
    ensures
        name@ == "stt_status"@,
{
    "stt_status"
}

/// What follows a start or a stop that was asked for from the tray.
#[derive(Debug, PartialEq, Eq)]
pub enum TrayEffect {
    /// The request succeeded: the tray and the windows are brought up to date.
    Update(TrayUpdate),
    /// The request failed: the line is written to the local log, and nothing
    /// is shown.
    Log(String),
}

/// A `TrayEffect` with the line to log as a sequence of characters.
pub enum TrayEffectView {
    Update(TrayUpdate),
    Log(Seq<char>),
}

impl View for TrayEffect {
    type V = TrayEffectView;

    open spec fn view(&self) -> TrayEffectView {
        match self {
            TrayEffect::Update(update) => TrayEffectView::Update(*update),
            TrayEffect::Log(line) => TrayEffectView::Log(line@),
        }
    }
}

/// What follows the reply to a start asked for from the tray: after success
/// the tray shows a running daemon, after a failure the reason is logged.
pub open spec fn effect_of_start(reply: Result<Seq<char>, Seq<char>>) -> TrayEffectView {
    match reply {
        Ok(_) => TrayEffectView::Update(tray_showing(true)),
        Err(reason) => TrayEffectView::Log("Error starting STT: "@ + reason),
    }
}

/// What follows the reply to a stop asked for from the tray: after success
/// the tray shows no daemon, after a failure the reason is logged.
pub open spec fn effect_of_stop(reply: Result<Seq<char>, Seq<char>>) -> TrayEffectView {
    match reply {
        Ok(_) => TrayEffectView::Update(tray_showing(false)),
        Err(reason) => TrayEffectView::Log("Error stopping STT: "@ + reason),
    }
}

/// Decides what follows the reply to a start asked for from the tray.
pub fn after_start(reply: &Result<String, String>) -> (effect: TrayEffect)
    ensures
        effect@ == effect_of_start(reply_text(*reply)),
{
    match reply {
        Ok(_) => TrayEffect::Update(TrayUpdate::showing(true)),
        Err(reason) => TrayEffect::Log(
            String::from_str("Error starting STT: ").concat(reason.as_str()),
        ),
    }
}

/// Decides what follows the reply to a stop asked for from the tray.
pub fn after_stop(reply: &Result<String, String>) -> (effect: TrayEffect)
    ensures
        effect@ == effect_of_stop(reply_text(*reply)),
{
    match reply {
        Ok(_) => TrayEffect::Update(TrayUpdate::showing(false)),
        Err(reason) => TrayEffect::Log(
            String::from_str("Error stopping STT: ").concat(reason.as_str()),
        ),
    }
}

/// A start asked for from the tray, from the request to what the tray
/// shows. The tray is updated exactly when the request succeeded, and then
/// shows what the record holds: a daemon that is running.
pub proof fn lemma_tray_after_start<H>(record: Option<H>, spawned: Result<H, String>)
    ensures
        ({
            let (after, result) = start_call(record, spawned);
            let effect = effect_of_start(start_reply_text(result));
            &&& effect is Update <==> result is Ok
            &&& effect is Update ==> effect == TrayEffectView::Update(tray_showing(after is Some))
        }),
{
}

/// A stop asked for from the tray, from the request to what the tray shows.
/// The tray is updated exactly when the request succeeded, and then shows
/// what the record holds: no daemon.
pub proof fn lemma_tray_after_stop<H>(record: Option<H>, killed: Result<(), String>)
    ensures
        ({
            let (after, result) = stop_call(record, killed);
            let effect = effect_of_stop(stop_reply_text(result));
            &&& effect is Update <==> result is Ok
            &&& effect is Update ==> effect == TrayEffectView::Update(tray_showing(after is Some))
        }),
{
}

} // verus!
