use vstd::prelude::*;
use vstd::string::StringExecFns;
use crate::text::{join, lemma_push_fresh, seq_join, to_ascii_uppercase, ascii_upper_seq, views};

verus! {

/// The hotkey part of the application state: the combination that starts a
/// screenshot, the combination being recorded while the user edits it, the
/// keys of the combination held down so far, and the error line of the
/// hotkey editor.
pub struct HotkeyState {
    pub hotkey: Vec<String>,
    pub hotkey_new: Vec<String>,
    pub hotkey_pressed: Vec<String>,
    pub set_hot_key: bool,
    pub trigger_ui: bool,
    pub error_shown: bool,
    pub error_message: String,
}

/// The mathematical value of a [`HotkeyState`]: keys as character sequences.
pub struct HotkeyView {
    pub hotkey: Seq<Seq<char>>,
    pub hotkey_new: Seq<Seq<char>>,
    pub hotkey_pressed: Seq<Seq<char>>,
    pub set_hot_key: bool,
    pub trigger_ui: bool,
    pub error_shown: bool,
    pub error_message: Seq<char>,
}

impl View for HotkeyState {
    type V = HotkeyView;

    open spec fn view(&self) -> HotkeyView {
        HotkeyView {
            hotkey: views(self.hotkey@),
            hotkey_new: views(self.hotkey_new@),
            hotkey_pressed: views(self.hotkey_pressed@),
            set_hot_key: self.set_hot_key,
            trigger_ui: self.trigger_ui,
            error_shown: self.error_shown,
            error_message: self.error_message@,
        }
    }
}

/// A keyboard or window event seen by the hotkey controller; a key is
/// named by the text of its key value.
pub enum KeyEvent {
    WindowConnected,
    KeyDown(String),
    KeyUp(String),
    Other,
}

/// What the hotkey controller asks its window to do after an event.
#[derive(PartialEq, Eq, Structural, Clone, Copy, Debug)]
pub enum EnterAction {
    RequestFocus,
    StartScreening,
    Nothing,
}

/// What the hotkey editor asks its window to do after a button press.
#[derive(PartialEq, Eq, Structural, Clone, Copy, Debug)]
pub enum EditorAction {
    Stay,
    ReturnToMain,
}

pub open spec fn max_keys_message() -> Seq<char> {
    "Max 3 keys, confirm please"@
}

pub open spec fn distinct_keys_message() -> Seq<char> {
    "Only distinct keys"@
}

pub open spec fn empty_hotkey_message() -> Seq<char> {
    "Can't have empty hotkeys"@
}

/// The state and action after a key goes down.
/// While the user records a new combination, the key is added to it if it is
/// the first key, or if fewer than three distinct keys were recorded and it is
/// not one of them; otherwise the error line says why it was not.
/// Otherwise a key of the combination is remembered as held (once); any other
/// key forgets what was held; once as many keys are held as the combination
/// has, a screenshot starts and nothing is held any more.
pub open spec fn on_key_down(s: HotkeyView, k: Seq<char>) -> (HotkeyView, EnterAction) {
    if s.set_hot_key {
        let t = HotkeyView { trigger_ui: !s.trigger_ui, ..s };
        if s.hotkey_new.len() == 0 {
            (HotkeyView { hotkey_new: seq![k], ..t }, EnterAction::Nothing)
        } else if s.hotkey_new.len() > 2 {
            (
                HotkeyView { error_shown: true, error_message: max_keys_message(), ..t },
                EnterAction::Nothing,
            )
        } else if !s.hotkey_new.contains(k) {
            (
                HotkeyView {
                    hotkey_new: s.hotkey_new.push(k),
                    error_shown: false,
                    error_message: Seq::empty(),
                    ..t
                },
                EnterAction::Nothing,
            )
        } else {
            (
                HotkeyView { error_shown: true, error_message: distinct_keys_message(), ..t },
                EnterAction::Nothing,
            )
        }
    } else {
        let pressed = held_after_down(s, k);
        if pressed.len() == s.hotkey.len() {
            (HotkeyView { hotkey_pressed: Seq::empty(), ..s }, EnterAction::StartScreening)
        } else {
            (HotkeyView { hotkey_pressed: pressed, ..s }, EnterAction::Nothing)
        }
    }
}

/// The keys held once `k` went down, outside the editor.
pub open spec fn held_after_down(s: HotkeyView, k: Seq<char>) -> Seq<Seq<char>> {
    if s.hotkey.contains(k) {
        if !s.hotkey_pressed.contains(k) {
            s.hotkey_pressed.push(k)
        } else {
            s.hotkey_pressed
        }
    } else {
        Seq::empty()
    }
}

/// The state after a key goes up: releasing a key of the combination forgets
/// what was held.
pub open spec fn on_key_up(s: HotkeyView, k: Seq<char>) -> HotkeyView {
    if s.hotkey.contains(k) {
        HotkeyView { hotkey_pressed: Seq::empty(), ..s }
    } else {
        s
    }
}

/// Whether `key` is one of `keys`.
pub fn contains_key(keys: &Vec<String>, key: &String) -> (r: bool)
    ensures
        r == views(keys@).contains(key@),
{
    let n = keys.len();
    for i in 0..n
        invariant
            n == keys@.len(),
            forall|j: int| 0 <= j < i ==> keys@[j]@ != key@,
    {
        if keys[i] == *key {
            assert(views(keys@)[i as int] == key@);
            return true;
        }
    }
    assert forall|j: int| 0 <= j < views(keys@).len() implies views(keys@)[j] != key@ by {
        assert(views(keys@)[j] == keys@[j]@);
    }
    false
}

proof fn lemma_views_push(v: Seq<String>, s: String)
    ensures
        views(v.push(s)) == views(v).push(s@),
{
    assert(views(v.push(s)) =~= views(v).push(s@));
}

proof fn lemma_views_empty()
    ensures
        views(Seq::<String>::empty()) == Seq::<Seq<char>>::empty(),
{
    assert(views(Seq::<String>::empty()) =~= Seq::<Seq<char>>::empty());
}

/// The controller of the main windows: it takes the keyboard focus when the
/// window connects, records a new hotkey while the editor is open, and
/// starts a screenshot when the whole hotkey combination is held.
pub struct Enter;

impl Enter {
    /// Handles one event and says what the window is to do.
    pub fn event(&mut self, event: &KeyEvent, data: &mut HotkeyState) -> (r: EnterAction)
        ensures
            match event {
                KeyEvent::WindowConnected => r == EnterAction::RequestFocus && final(data)@ == old(data)@,
                KeyEvent::KeyDown(k) => (final(data)@, r) == on_key_down(old(data)@, k@),
                KeyEvent::KeyUp(k) => r == EnterAction::Nothing && final(data)@ == on_key_up(old(data)@, k@),
                KeyEvent::Other => r == EnterAction::Nothing && final(data)@ == old(data)@,
            },
    {
        match event {
            KeyEvent::WindowConnected => EnterAction::RequestFocus,
            KeyEvent::KeyUp(k) => {
                if contains_key(&data.hotkey, k) {
                    data.hotkey_pressed = Vec::new();
                    proof { lemma_views_empty(); }
                }
                EnterAction::Nothing
            },
            KeyEvent::KeyDown(k) => Self::key_down(data, k),
            KeyEvent::Other => EnterAction::Nothing,
        }
    }

    fn key_down(data: &mut HotkeyState, k: &String) -> (r: EnterAction)
        ensures
            (final(data)@, r) == on_key_down(old(data)@, k@),
    {
        proof { lemma_views_empty(); }
        if data.set_hot_key {
            data.trigger_ui = !data.trigger_ui;
            if data.hotkey_new.len() == 0 {
                data.hotkey_new.push(k.clone());
                proof { lemma_views_push(Seq::<String>::empty(), *k); }
                assert(old(data).hotkey_new@ == Seq::<String>::empty());
            } else if data.hotkey_new.len() > 2 {
                data.error_shown = true;
                data.error_message = "Max 3 keys, confirm please".to_owned();
            } else if !contains_key(&data.hotkey_new, k) {
                let ghost before = data.hotkey_new@;
                data.hotkey_new.push(k.clone());
                proof { lemma_views_push(before, *k); }
                data.error_shown = false;
                data.error_message = String::new();
            } else {
                data.error_shown = true;
                data.error_message = "Only distinct keys".to_owned();
            }
            EnterAction::Nothing
        } else {
            if contains_key(&data.hotkey, k) {
                if !contains_key(&data.hotkey_pressed, k) {
                    let ghost before = data.hotkey_pressed@;
                    data.hotkey_pressed.push(k.clone());
                    proof { lemma_views_push(before, *k); }
                }
            } else {
                data.hotkey_pressed = Vec::new();
            }
            if data.hotkey_pressed.len() == data.hotkey.len() {
                data.hotkey_pressed = Vec::new();
                EnterAction::StartScreening
            } else {
                EnterAction::Nothing
            }
        }
    }
}


/// The state and action after the editor's first button ("Edit Hotkeys" or
/// "Save") is pressed. Opening the editor starts an empty recording; saving
/// an empty recording is refused with an error line; saving a recording
/// makes it the hotkey and returns to the main window.
pub open spec fn on_edit_or_save(s: HotkeyView) -> (HotkeyView, EditorAction) {
    if !s.set_hot_key {
        (HotkeyView { set_hot_key: true, hotkey_new: Seq::empty(), ..s }, EditorAction::Stay)
    } else if s.hotkey_new.len() == 0 {
        (
            HotkeyView {
                set_hot_key: false,
                error_shown: true,
                error_message: empty_hotkey_message(),
                ..s
            },
            EditorAction::Stay,
        )
    } else {
        (
            HotkeyView { set_hot_key: false, hotkey: s.hotkey_new, error_shown: false, ..s },
            EditorAction::ReturnToMain,
        )
    }
}

/// The state and action after the editor's second button ("Reset" or
/// "Back") is pressed: while recording, the recording is dropped and the
/// editor closes its recording; otherwise the main window comes back.
pub open spec fn on_reset_or_back(s: HotkeyView) -> (HotkeyView, EditorAction) {
    if s.set_hot_key {
        (
            HotkeyView { hotkey_new: Seq::empty(), set_hot_key: false, error_shown: false, ..s },
            EditorAction::Stay,
        )
    } else {
        (HotkeyView { error_shown: false, ..s }, EditorAction::ReturnToMain)
    }
}

/// The separator between the keys of a combination as it is shown.
pub open spec fn key_separator() -> Seq<char> {
    " + "@
}

/// A combination as it is shown: its keys joined by " + ", upper-cased.
pub open spec fn shown_combination(keys: Seq<Seq<char>>) -> Seq<char> {
    ascii_upper_seq(seq_join(keys, key_separator()))
}

fn show_combination(keys: &Vec<String>) -> (r: String)
    ensures
        r@ == shown_combination(views(keys@)),
{
    let joined = join(keys, " + ");
    to_ascii_uppercase(joined.as_str())
}

impl HotkeyState {
    /// Presses the editor's first button ("Edit Hotkeys" or "Save").
    pub fn edit_or_save(&mut self) -> (r: EditorAction)
        ensures
            (final(self)@, r) == on_edit_or_save(old(self)@),
            !old(self).set_hot_key ==> {
                &&& final(self).set_hot_key
                &&& final(self).hotkey_new@.len() == 0
                &&& final(self)@.hotkey == old(self)@.hotkey
                &&& r == EditorAction::Stay
            },
    {
        proof { lemma_views_empty(); }
        self.set_hot_key = !self.set_hot_key;
        if self.set_hot_key {
            self.hotkey_new = Vec::new();
            EditorAction::Stay
        } else if self.hotkey_new.len() == 0 {
            self.error_shown = true;
            self.error_message = "Can't have empty hotkeys".to_owned();
            EditorAction::Stay
        } else {
            self.hotkey = self.hotkey_new.clone();
            self.error_shown = false;
            EditorAction::ReturnToMain
        }
    }

    /// Presses the editor's second button ("Reset" or "Back").
    pub fn reset_or_back(&mut self) -> (r: EditorAction)
        ensures
            (final(self)@, r) == on_reset_or_back(old(self)@),
    {
        proof { lemma_views_empty(); }
        if self.set_hot_key {
            self.hotkey_new = Vec::new();
            self.set_hot_key = false;
            self.error_shown = false;
            EditorAction::Stay
        } else {
            self.error_shown = false;
            EditorAction::ReturnToMain
        }
    }

    /// The caption of the editor's first button.
    pub fn edit_button_label(&self) -> (r: String)
        ensures
            r@ == (if self.set_hot_key { "Save"@ } else { "Edit Hotkeys"@ }),
    {
        if self.set_hot_key {
            "Save".to_owned()
        } else {
            "Edit Hotkeys".to_owned()
        }
    }

    /// The caption of the editor's second button.
    pub fn back_button_label(&self) -> (r: String)
        ensures
            r@ == (if self.set_hot_key { "Reset"@ } else { "Back"@ }),
    {
        if self.set_hot_key {
            "Reset".to_owned()
        } else {
            "Back".to_owned()
        }
    }

    /// The combination the editor shows: the one being recorded while
    /// recording, the current hotkey otherwise.
    pub fn shown_hotkey(&self) -> (r: String)
        ensures
            r@ == shown_combination(
                if self.set_hot_key { self@.hotkey_new } else { self@.hotkey },
            ),
    {
        if self.set_hot_key {
            show_combination(&self.hotkey_new)
        } else {
            show_combination(&self.hotkey)
        }
    }

    /// The editor's error line: the message while an error is shown, else
    /// nothing.
    pub fn error_line(&self) -> (r: String)
        ensures
            r@ == (if self.error_shown { self.error_message@ } else { Seq::empty() }),
    {
        if self.error_shown {
            self.error_message.clone()
        } else {
            String::new()
        }
    }

    /// The main window's prompt: "Press <COMBINATION> to start screening".
    pub fn start_prompt(&self) -> (r: String)
        ensures
            r@ == "Press "@ + shown_combination(self@.hotkey) + " to start screening"@,
    {
        let mut r = "Press ".to_owned();
        let shown = show_combination(&self.hotkey);
        r.append(shown.as_str());
        r.append(" to start screening");
        r
    }
}

/// The keys held are distinct keys of the combination.
pub open spec fn held_within_hotkey(s: HotkeyView) -> bool {
    &&& s.hotkey_pressed.no_duplicates()
    &&& forall|i: int| 0 <= i < s.hotkey_pressed.len() ==> s.hotkey.contains(#[trigger] s.hotkey_pressed[i])
}

/// A combination that the editor can record: one to three distinct keys.
pub open spec fn valid_combination(keys: Seq<Seq<char>>) -> bool {
    1 <= keys.len() <= 3 && keys.no_duplicates()
}

/// A recording in progress holds at most three distinct keys.
pub open spec fn recording_bounded(s: HotkeyView) -> bool {
    s.hotkey_new.len() <= 3 && s.hotkey_new.no_duplicates()
}

/// Key events never change the hotkey itself; only saving in the editor
/// does.
pub proof fn law_key_events_keep_hotkey(s: HotkeyView, k: Seq<char>)
    ensures
        on_key_down(s, k).0.hotkey == s.hotkey,
        on_key_up(s, k).hotkey == s.hotkey,
        on_reset_or_back(s).0.hotkey == s.hotkey,
{
}

/// Opening the editor starts an empty recording and keeps the hotkey; the
/// first key pressed then is the whole recording, and the editor shows
/// nothing until then.
pub proof fn law_opening_editor_starts_empty(s: HotkeyView, k: Seq<char>)
    requires
        !s.set_hot_key,
    ensures
        on_edit_or_save(s).0.set_hot_key,
        on_edit_or_save(s).0.hotkey_new.len() == 0,
        on_edit_or_save(s).0.hotkey == s.hotkey,
        on_edit_or_save(s).1 == EditorAction::Stay,
        shown_combination(on_edit_or_save(s).0.hotkey_new).len() == 0,
        on_key_down(on_edit_or_save(s).0, k).0.hotkey_new == seq![k],
{
    assert(ascii_upper_seq(Seq::<char>::empty()) =~= Seq::<char>::empty());
}

/// While the editor records a combination, keys never start a screenshot.
pub proof fn law_recording_never_starts_screening(s: HotkeyView, k: Seq<char>)
    requires
        s.set_hot_key,
    ensures
        on_key_down(s, k).1 == EnterAction::Nothing,
        on_key_down(s, k).0.set_hot_key,
        on_key_down(s, k).0.hotkey_pressed == s.hotkey_pressed,
{
}

/// Recording a new combination never holds more than three keys, nor the
/// same key twice.
pub proof fn law_recording_stays_bounded(s: HotkeyView, k: Seq<char>)
    requires
        recording_bounded(s),
    ensures
        recording_bounded(on_key_down(s, k).0),
        recording_bounded(on_key_up(s, k)),
        recording_bounded(on_edit_or_save(s).0),
        recording_bounded(on_reset_or_back(s).0),
{
    if s.set_hot_key && s.hotkey_new.len() == 0 {
        assert(seq![k].no_duplicates());
    }
    if s.set_hot_key && 0 < s.hotkey_new.len() <= 2 && !s.hotkey_new.contains(k) {
        lemma_push_fresh(s.hotkey_new, k);
    }
}

/// The keys held down are always distinct keys of the combination.
pub proof fn law_held_keys_within_hotkey(s: HotkeyView, k: Seq<char>)
    requires
        held_within_hotkey(s),
    ensures
        held_within_hotkey(on_key_down(s, k).0),
        held_within_hotkey(on_key_up(s, k)),
        held_within_hotkey(on_edit_or_save(s).0) || on_edit_or_save(s).1 == EditorAction::ReturnToMain,
        held_within_hotkey(on_reset_or_back(s).0),
{
    if s.hotkey.contains(k) && !s.hotkey_pressed.contains(k) {
        lemma_hold_new_key(s, k);
    }
}

proof fn lemma_hold_new_key(s: HotkeyView, k: Seq<char>)
    requires
        held_within_hotkey(s),
        s.hotkey.contains(k),
        !s.hotkey_pressed.contains(k),
    ensures
        held_within_hotkey(HotkeyView { hotkey_pressed: s.hotkey_pressed.push(k), ..s }),
{
    let t = s.hotkey_pressed.push(k);
    lemma_push_fresh(s.hotkey_pressed, k);
    assert forall|i: int| 0 <= i < t.len() implies s.hotkey.contains(#[trigger] t[i]) by {
        if i < t.len() - 1 {
            assert(t[i] == s.hotkey_pressed[i]);
        }
    }
}

/// A screenshot starts from the keyboard only once every key of a
/// combination of distinct keys is held down.
pub proof fn law_screening_needs_whole_combination(s: HotkeyView, k: Seq<char>)
    requires
        !s.set_hot_key,
        s.hotkey.no_duplicates(),
        held_within_hotkey(s),
        on_key_down(s, k).1 == EnterAction::StartScreening,
    ensures
        forall|i: int| 0 <= i < s.hotkey.len() ==> held_after_down(s, k).contains(#[trigger] s.hotkey[i]),
        on_key_down(s, k).0.hotkey_pressed.len() == 0,
{
    let h = held_after_down(s, k);
    let t = HotkeyView { hotkey_pressed: h, ..s };
    assert(held_within_hotkey(t)) by {
        if s.hotkey.contains(k) && !s.hotkey_pressed.contains(k) {
            lemma_hold_new_key(s, k);
        }
    }
    h.unique_seq_to_set();
    s.hotkey.unique_seq_to_set();
    assert(h.to_set().subset_of(s.hotkey.to_set())) by {
        assert forall|x: Seq<char>| h.to_set().contains(x) implies s.hotkey.to_set().contains(x) by {
            let i = choose|i: int| 0 <= i < h.len() && h[i] == x;
            assert(s.hotkey.contains(h[i]));
        }
    }
    vstd::set_lib::lemma_subset_equality(h.to_set(), s.hotkey.to_set());
    assert forall|i: int| 0 <= i < s.hotkey.len() implies h.contains(#[trigger] s.hotkey[i]) by {
        assert(s.hotkey.to_set().contains(s.hotkey[i]));
        assert(h.to_set().contains(s.hotkey[i]));
    }
}

/// Saving a recording made in the editor installs a valid combination: one
/// to three distinct keys.
pub proof fn law_saved_hotkey_is_valid(s: HotkeyView)
    requires
        s.set_hot_key,
        recording_bounded(s),
        on_edit_or_save(s).1 == EditorAction::ReturnToMain,
    ensures
        valid_combination(on_edit_or_save(s).0.hotkey),
        on_edit_or_save(s).0.hotkey == s.hotkey_new,
{
}

} // verus!
